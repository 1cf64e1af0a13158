//! Driver for the temperature sensor on the ADC of the RP2040.
//!
//! The driver paces the sampling: one sample at a time, and every sample goes
//! to the registered client. Converting a sample to degrees takes the
//! calibration constants of the chip and is left to the caller.

use vstd::prelude::*;
use crate::errorcode::ErrorCode;

verus! {

/// Whether a sample has been asked for and not yet delivered.
#[derive(Copy, Clone, Debug, PartialEq, Eq, Structural)]
pub enum Status {
    Read,
    Idle,
}

/// The temperature driver.
#[derive(Copy, Clone, Debug, PartialEq, Eq, Structural)]
pub struct TemperatureRp4020 {
    /// Token of the client that receives the readings.
    pub temperature_client: Option<usize>,
    pub status: Status,
}

impl TemperatureRp4020 {
    /// A driver that is idle and has no client.
    pub fn new() -> (driver: TemperatureRp4020)
        ensures
            driver.status == Status::Idle,
            driver.temperature_client is None,
    {
        TemperatureRp4020 { temperature_client: None, status: Status::Idle }
    }

    /// Registers `client` in place of any earlier one.
    pub fn set_client(&mut self, client: usize)
        ensures
            final(self).temperature_client == Some(client),
            final(self).status == old(self).status,
    {
        self.temperature_client = Some(client);
    }

    /// Asks for one reading.
    ///
    /// Accepted only while idle; the caller then starts one ADC sample and
    /// reports it with [`TemperatureRp4020::sample_ready`]. While a reading
    /// is under way the answer is `BUSY` and nothing changes.
    pub fn read_temperature(&mut self) -> (answer: Result<(), ErrorCode>)
        ensures
            old(self).status == Status::Idle ==> answer is Ok && final(self).status
                == Status::Read,
            old(self).status == Status::Read ==> answer == Err::<(), ErrorCode>(ErrorCode::BUSY)
                && final(self).status == Status::Read,
            final(self).temperature_client == old(self).temperature_client,
    {
        if self.status == Status::Idle {
            self.status = Status::Read;
            Ok(())
        } else {
            Err(ErrorCode::BUSY)
        }
    }

    /// Takes the sample that the ADC delivered.
    ///
    /// The driver becomes idle. The result names the client to call back with
    /// the sample; without a client the sample is dropped.
    pub fn sample_ready(&mut self, sample: u16) -> (callback: Option<(usize, u16)>)
        ensures
            final(self).status == Status::Idle,
            final(self).temperature_client == old(self).temperature_client,
            callback == match old(self).temperature_client {
                Some(client) => Some((client, sample)),
                None => None,
            },
    {
        self.status = Status::Idle;
        match self.temperature_client {
            Some(client) => Some((client, sample)),
            None => None,
        }
    }
}

} // verus!
