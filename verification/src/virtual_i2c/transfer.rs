//! What a driver asks of one of its endpoints.
//!
//! A driver does not reach for the bus itself. It names the endpoint, the
//! operation and the buffer, and whoever holds the multiplexer makes the call.

use vstd::prelude::*;
use super::device::{answered, I2CDevice};
use super::mux::MuxI2C;
use super::types::{BusCommand, Operation, RequestError};

verus! {

/// A transfer for the caller to make on the endpoint `device`.
#[derive(Debug)]
pub struct Transfer {
    pub device: I2CDevice,
    pub op: Operation,
    pub buffer: Vec<u8>,
}

/// Mathematical value of a [`Transfer`].
pub struct TransferView {
    pub device: I2CDevice,
    pub op: Operation,
    pub buffer: Seq<u8>,
}

impl View for Transfer {
    type V = TransferView;

    open spec fn view(&self) -> TransferView {
        TransferView { device: self.device, op: self.op, buffer: self.buffer@ }
    }
}

impl Transfer {
    /// Makes the transfer: calls the operation on the endpoint, with the
    /// buffer and the byte counts, and passes on what the endpoint answers.
    pub fn submit(self, mux: &mut MuxI2C) -> (answer: Result<
        Option<BusCommand>,
        (RequestError, Vec<u8>),
    >)
        requires
            old(mux)@.wf(),
            self.device.bound_to(old(mux)@),
        ensures
            answered(
                old(mux)@,
                final(mux)@,
                self.device.request(self.op, self.buffer@),
                answer,
            ),
            final(mux)@.wf(),
            self.device.bound_to(final(mux)@),
    {
        match self.op {
            Operation::Write { len } => self.device.write(mux, self.buffer, len),
            Operation::Read { len } => self.device.read(mux, self.buffer, len),
            Operation::WriteRead { write_len, read_len } => self.device.write_then_read(
                mux,
                self.buffer,
                write_len,
                read_len,
            ),
        }
    }
}

/// Mathematical value of a transfer that may be absent.
pub open spec fn transfer_view(transfer: Option<Transfer>) -> Option<TransferView> {
    match transfer {
        Some(t) => Some(t@),
        None => None,
    }
}

} // verus!
