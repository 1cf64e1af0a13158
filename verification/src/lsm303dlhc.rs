//! Driver for the LSM303DLHC 3D accelerometer and 3D magnetometer.
//!
//! The sensor sits on the I2C bus as two devices, one for the accelerometer
//! and one for the magnetometer. The driver holds a bus endpoint for each and
//! one buffer. It runs one command at a time: a command writes the register
//! bytes to the front of the buffer and yields the transfer to make on one of
//! the endpoints; the completion of that transfer is decoded and yields the
//! values for the application.

use vstd::prelude::*;
use crate::bits::{drop_three_bits, word};
use crate::errorcode::ReturnCode;
use crate::virtual_i2c::device::I2CDevice;
use crate::virtual_i2c::transfer::{transfer_view, Transfer, TransferView};
use crate::virtual_i2c::types::{BusStatus, Operation};

verus! {

/// Set in a register address to have the device step through consecutive
/// registers during one transfer.
pub const REGISTER_AUTO_INCREMENT: u8 = 0x80;

/// Accelerometer control register 1: data rate, power mode, axes.
pub const CTRL_REG1: u8 = 0x20;

/// Accelerometer control register 4: scale and resolution.
pub const CTRL_REG4: u8 = 0x23;

/// First of the six accelerometer output registers.
pub const OUT_X_L_A: u8 = 0x28;

/// Magnetometer configuration register A: temperature sensor, data rate.
pub const CRA_REG_M: u8 = 0x00;

/// Magnetometer configuration register B: range.
pub const CRB_REG_M: u8 = 0x01;

/// First of the six magnetometer output registers.
pub const OUT_X_H_M: u8 = 0x03;

/// First of the two temperature output registers.
pub const TEMP_OUT_H_M: u8 = 0x31;

/// Identification register of the magnetometer.
pub const IRA_REG_M: u8 = 0x0F;

/// What the identification register of the magnetometer holds.
pub const IRA_REG_M_VALUE: u8 = 60;

/// Bytes that a buffer must have for the driver to work with it: the longest
/// reply is six bytes.
pub const BUFFER_LEN: usize = 6;

/// Output data rate of the accelerometer.
#[derive(Clone, Copy, Debug, PartialEq, Eq, Structural)]
pub enum Lsm303dlhcAccelDataRate {
    Off,
    DataRate1Hz,
    DataRate10Hz,
    DataRate25Hz,
    DataRate50Hz,
    DataRate100Hz,
    DataRate200Hz,
    DataRate400Hz,
    LowPower1620Hz,
    Normal1344LowPower5376Hz,
}

impl Lsm303dlhcAccelDataRate {
    /// The number that stands for the rate in commands and in the register.
    pub open spec fn spec_code(&self) -> u8 {
        match self {
            Lsm303dlhcAccelDataRate::Off => 0,
            Lsm303dlhcAccelDataRate::DataRate1Hz => 1,
            Lsm303dlhcAccelDataRate::DataRate10Hz => 2,
            Lsm303dlhcAccelDataRate::DataRate25Hz => 3,
            Lsm303dlhcAccelDataRate::DataRate50Hz => 4,
            Lsm303dlhcAccelDataRate::DataRate100Hz => 5,
            Lsm303dlhcAccelDataRate::DataRate200Hz => 6,
            Lsm303dlhcAccelDataRate::DataRate400Hz => 7,
            Lsm303dlhcAccelDataRate::LowPower1620Hz => 8,
            Lsm303dlhcAccelDataRate::Normal1344LowPower5376Hz => 9,
        }
    }

    /// The number that stands for the value in commands and in the register.
    #[verifier::when_used_as_spec(spec_code)]
    pub fn code(&self) -> (code: u8)
        ensures
            code == self.spec_code(),
            code <= 9,
    {
        match self {
            Lsm303dlhcAccelDataRate::Off => 0,
            Lsm303dlhcAccelDataRate::DataRate1Hz => 1,
            Lsm303dlhcAccelDataRate::DataRate10Hz => 2,
            Lsm303dlhcAccelDataRate::DataRate25Hz => 3,
            Lsm303dlhcAccelDataRate::DataRate50Hz => 4,
            Lsm303dlhcAccelDataRate::DataRate100Hz => 5,
            Lsm303dlhcAccelDataRate::DataRate200Hz => 6,
            Lsm303dlhcAccelDataRate::DataRate400Hz => 7,
            Lsm303dlhcAccelDataRate::LowPower1620Hz => 8,
            Lsm303dlhcAccelDataRate::Normal1344LowPower5376Hz => 9,
        }
    }

    /// The rate that `n` stands for, if it stands for one.
    pub open spec fn spec_from_usize(n: usize) -> Option<Lsm303dlhcAccelDataRate> {
        if n == 0 {
            Some(Lsm303dlhcAccelDataRate::Off)
        } else if n == 1 {
            Some(Lsm303dlhcAccelDataRate::DataRate1Hz)
        } else if n == 2 {
            Some(Lsm303dlhcAccelDataRate::DataRate10Hz)
        } else if n == 3 {
            Some(Lsm303dlhcAccelDataRate::DataRate25Hz)
        } else if n == 4 {
            Some(Lsm303dlhcAccelDataRate::DataRate50Hz)
        } else if n == 5 {
            Some(Lsm303dlhcAccelDataRate::DataRate100Hz)
        } else if n == 6 {
            Some(Lsm303dlhcAccelDataRate::DataRate200Hz)
        } else if n == 7 {
            Some(Lsm303dlhcAccelDataRate::DataRate400Hz)
        } else if n == 8 {
            Some(Lsm303dlhcAccelDataRate::LowPower1620Hz)
        } else if n == 9 {
            Some(Lsm303dlhcAccelDataRate::Normal1344LowPower5376Hz)
        } else {
            None
        }
    }

    /// The rate that `n` stands for: the one with that number, and
    /// none if no rate has it.
    #[verifier::when_used_as_spec(spec_from_usize)]
    pub fn from_usize(n: usize) -> (rate: Option<Lsm303dlhcAccelDataRate>)
        ensures
            rate == Lsm303dlhcAccelDataRate::spec_from_usize(n),
            match rate {
                Some(r) => r.spec_code() == n,
                None => forall|r: Lsm303dlhcAccelDataRate| r.spec_code() != n,
            },
    {
        match n {
            0 => Some(Lsm303dlhcAccelDataRate::Off),
            1 => Some(Lsm303dlhcAccelDataRate::DataRate1Hz),
            2 => Some(Lsm303dlhcAccelDataRate::DataRate10Hz),
            3 => Some(Lsm303dlhcAccelDataRate::DataRate25Hz),
            4 => Some(Lsm303dlhcAccelDataRate::DataRate50Hz),
            5 => Some(Lsm303dlhcAccelDataRate::DataRate100Hz),
            6 => Some(Lsm303dlhcAccelDataRate::DataRate200Hz),
            7 => Some(Lsm303dlhcAccelDataRate::DataRate400Hz),
            8 => Some(Lsm303dlhcAccelDataRate::LowPower1620Hz),
            9 => Some(Lsm303dlhcAccelDataRate::Normal1344LowPower5376Hz),
            _ => None,
        }
    }
}

/// Output data rate of the magnetometer.
#[derive(Clone, Copy, Debug, PartialEq, Eq, Structural)]
pub enum Lsm303dlhcMagnetoDataRate {
    DataRate0_75Hz,
    DataRate1_5Hz,
    DataRate3_0Hz,
    DataRate7_5Hz,
    DataRate15_0Hz,
    DataRate30_0Hz,
    DataRate75_0Hz,
    DataRate220_0Hz,
}

impl Lsm303dlhcMagnetoDataRate {
    /// The number that stands for the rate in commands and in the register.
    pub open spec fn spec_code(&self) -> u8 {
        match self {
            Lsm303dlhcMagnetoDataRate::DataRate0_75Hz => 0,
            Lsm303dlhcMagnetoDataRate::DataRate1_5Hz => 1,
            Lsm303dlhcMagnetoDataRate::DataRate3_0Hz => 2,
            Lsm303dlhcMagnetoDataRate::DataRate7_5Hz => 3,
            Lsm303dlhcMagnetoDataRate::DataRate15_0Hz => 4,
            Lsm303dlhcMagnetoDataRate::DataRate30_0Hz => 5,
            Lsm303dlhcMagnetoDataRate::DataRate75_0Hz => 6,
            Lsm303dlhcMagnetoDataRate::DataRate220_0Hz => 7,
        }
    }

    /// The number that stands for the value in commands and in the register.
    #[verifier::when_used_as_spec(spec_code)]
    pub fn code(&self) -> (code: u8)
        ensures
            code == self.spec_code(),
            code <= 7,
    {
        match self {
            Lsm303dlhcMagnetoDataRate::DataRate0_75Hz => 0,
            Lsm303dlhcMagnetoDataRate::DataRate1_5Hz => 1,
            Lsm303dlhcMagnetoDataRate::DataRate3_0Hz => 2,
            Lsm303dlhcMagnetoDataRate::DataRate7_5Hz => 3,
            Lsm303dlhcMagnetoDataRate::DataRate15_0Hz => 4,
            Lsm303dlhcMagnetoDataRate::DataRate30_0Hz => 5,
            Lsm303dlhcMagnetoDataRate::DataRate75_0Hz => 6,
            Lsm303dlhcMagnetoDataRate::DataRate220_0Hz => 7,
        }
    }

    /// The rate that `n` stands for, if it stands for one.
    pub open spec fn spec_from_usize(n: usize) -> Option<Lsm303dlhcMagnetoDataRate> {
        if n == 0 {
            Some(Lsm303dlhcMagnetoDataRate::DataRate0_75Hz)
        } else if n == 1 {
            Some(Lsm303dlhcMagnetoDataRate::DataRate1_5Hz)
        } else if n == 2 {
            Some(Lsm303dlhcMagnetoDataRate::DataRate3_0Hz)
        } else if n == 3 {
            Some(Lsm303dlhcMagnetoDataRate::DataRate7_5Hz)
        } else if n == 4 {
            Some(Lsm303dlhcMagnetoDataRate::DataRate15_0Hz)
        } else if n == 5 {
            Some(Lsm303dlhcMagnetoDataRate::DataRate30_0Hz)
        } else if n == 6 {
            Some(Lsm303dlhcMagnetoDataRate::DataRate75_0Hz)
        } else if n == 7 {
            Some(Lsm303dlhcMagnetoDataRate::DataRate220_0Hz)
        } else {
            None
        }
    }

    /// The rate that `n` stands for: the one with that number, and
    /// none if no rate has it.
    #[verifier::when_used_as_spec(spec_from_usize)]
    pub fn from_usize(n: usize) -> (rate: Option<Lsm303dlhcMagnetoDataRate>)
        ensures
            rate == Lsm303dlhcMagnetoDataRate::spec_from_usize(n),
            match rate {
                Some(r) => r.spec_code() == n,
                None => forall|r: Lsm303dlhcMagnetoDataRate| r.spec_code() != n,
            },
    {
        match n {
            0 => Some(Lsm303dlhcMagnetoDataRate::DataRate0_75Hz),
            1 => Some(Lsm303dlhcMagnetoDataRate::DataRate1_5Hz),
            2 => Some(Lsm303dlhcMagnetoDataRate::DataRate3_0Hz),
            3 => Some(Lsm303dlhcMagnetoDataRate::DataRate7_5Hz),
            4 => Some(Lsm303dlhcMagnetoDataRate::DataRate15_0Hz),
            5 => Some(Lsm303dlhcMagnetoDataRate::DataRate30_0Hz),
            6 => Some(Lsm303dlhcMagnetoDataRate::DataRate75_0Hz),
            7 => Some(Lsm303dlhcMagnetoDataRate::DataRate220_0Hz),
            _ => None,
        }
    }
}

/// Full scale of the accelerometer.
#[derive(Clone, Copy, Debug, PartialEq, Eq, Structural)]
pub enum Lsm303dlhcScale {
    Scale2G,
    Scale4G,
    Scale8G,
    Scale16G,
}

impl Lsm303dlhcScale {
    /// The number that stands for the scale in commands and in the register.
    pub open spec fn spec_code(&self) -> u8 {
        match self {
            Lsm303dlhcScale::Scale2G => 0,
            Lsm303dlhcScale::Scale4G => 1,
            Lsm303dlhcScale::Scale8G => 2,
            Lsm303dlhcScale::Scale16G => 3,
        }
    }

    /// The number that stands for the value in commands and in the register.
    #[verifier::when_used_as_spec(spec_code)]
    pub fn code(&self) -> (code: u8)
        ensures
            code == self.spec_code(),
            code <= 3,
    {
        match self {
            Lsm303dlhcScale::Scale2G => 0,
            Lsm303dlhcScale::Scale4G => 1,
            Lsm303dlhcScale::Scale8G => 2,
            Lsm303dlhcScale::Scale16G => 3,
        }
    }

    /// The scale that `n` stands for, if it stands for one.
    pub open spec fn spec_from_usize(n: usize) -> Option<Lsm303dlhcScale> {
        if n == 0 {
            Some(Lsm303dlhcScale::Scale2G)
        } else if n == 1 {
            Some(Lsm303dlhcScale::Scale4G)
        } else if n == 2 {
            Some(Lsm303dlhcScale::Scale8G)
        } else if n == 3 {
            Some(Lsm303dlhcScale::Scale16G)
        } else {
            None
        }
    }

    /// The scale that `n` stands for: the one with that number, and
    /// none if no scale has it.
    #[verifier::when_used_as_spec(spec_from_usize)]
    pub fn from_usize(n: usize) -> (scale: Option<Lsm303dlhcScale>)
        ensures
            scale == Lsm303dlhcScale::spec_from_usize(n),
            match scale {
                Some(s) => s.spec_code() == n,
                None => forall|s: Lsm303dlhcScale| s.spec_code() != n,
            },
    {
        match n {
            0 => Some(Lsm303dlhcScale::Scale2G),
            1 => Some(Lsm303dlhcScale::Scale4G),
            2 => Some(Lsm303dlhcScale::Scale8G),
            3 => Some(Lsm303dlhcScale::Scale16G),
            _ => None,
        }
    }
}

/// Range of the magnetometer. No range has the number 6.
#[derive(Clone, Copy, Debug, PartialEq, Eq, Structural)]
pub enum Lsm303dlhcRange {
    Range1G,
    Range1_3G,
    Range1_9G,
    Range2_5G,
    Range4_0G,
    Range4_7G,
    Range5_6G,
    Range8_1,
}

impl Lsm303dlhcRange {
    /// The number that stands for the range in commands and in the register.
    pub open spec fn spec_code(&self) -> u8 {
        match self {
            Lsm303dlhcRange::Range1G => 0,
            Lsm303dlhcRange::Range1_3G => 1,
            Lsm303dlhcRange::Range1_9G => 2,
            Lsm303dlhcRange::Range2_5G => 3,
            Lsm303dlhcRange::Range4_0G => 4,
            Lsm303dlhcRange::Range4_7G => 5,
            Lsm303dlhcRange::Range5_6G => 7,
            Lsm303dlhcRange::Range8_1 => 8,
        }
    }

    /// The number that stands for the value in commands and in the register.
    #[verifier::when_used_as_spec(spec_code)]
    pub fn code(&self) -> (code: u8)
        ensures
            code == self.spec_code(),
            code <= 8,
    {
        match self {
            Lsm303dlhcRange::Range1G => 0,
            Lsm303dlhcRange::Range1_3G => 1,
            Lsm303dlhcRange::Range1_9G => 2,
            Lsm303dlhcRange::Range2_5G => 3,
            Lsm303dlhcRange::Range4_0G => 4,
            Lsm303dlhcRange::Range4_7G => 5,
            Lsm303dlhcRange::Range5_6G => 7,
            Lsm303dlhcRange::Range8_1 => 8,
        }
    }

    /// The range that `n` stands for, if it stands for one.
    pub open spec fn spec_from_usize(n: usize) -> Option<Lsm303dlhcRange> {
        if n == 0 {
            Some(Lsm303dlhcRange::Range1G)
        } else if n == 1 {
            Some(Lsm303dlhcRange::Range1_3G)
        } else if n == 2 {
            Some(Lsm303dlhcRange::Range1_9G)
        } else if n == 3 {
            Some(Lsm303dlhcRange::Range2_5G)
        } else if n == 4 {
            Some(Lsm303dlhcRange::Range4_0G)
        } else if n == 5 {
            Some(Lsm303dlhcRange::Range4_7G)
        } else if n == 7 {
            Some(Lsm303dlhcRange::Range5_6G)
        } else if n == 8 {
            Some(Lsm303dlhcRange::Range8_1)
        } else {
            None
        }
    }

    /// The range that `n` stands for: the one with that number, and
    /// none if no range has it.
    #[verifier::when_used_as_spec(spec_from_usize)]
    pub fn from_usize(n: usize) -> (range: Option<Lsm303dlhcRange>)
        ensures
            range == Lsm303dlhcRange::spec_from_usize(n),
            match range {
                Some(r) => r.spec_code() == n,
                None => forall|r: Lsm303dlhcRange| r.spec_code() != n,
            },
    {
        match n {
            0 => Some(Lsm303dlhcRange::Range1G),
            1 => Some(Lsm303dlhcRange::Range1_3G),
            2 => Some(Lsm303dlhcRange::Range1_9G),
            3 => Some(Lsm303dlhcRange::Range2_5G),
            4 => Some(Lsm303dlhcRange::Range4_0G),
            5 => Some(Lsm303dlhcRange::Range4_7G),
            7 => Some(Lsm303dlhcRange::Range5_6G),
            8 => Some(Lsm303dlhcRange::Range8_1),
            _ => None,
        }
    }
}

/// Value of accelerometer control register 1 for a data rate and a power
/// mode: the rate in the high four bits, the low-power flag in bit 3, and
/// the three axes enabled in the low three bits.
pub open spec fn power_mode_byte(data_rate: Lsm303dlhcAccelDataRate, low_power: bool) -> int {
    data_rate.spec_code() * 16 + (if low_power {
        8int
    } else {
        0int
    }) + 7
}

/// Value of accelerometer control register 4 for a scale and a resolution:
/// the scale from bit 4 up, the high-resolution flag in bit 3.
pub open spec fn scale_byte(scale: Lsm303dlhcScale, high_resolution: bool) -> int {
    scale.spec_code() * 16 + (if high_resolution {
        8int
    } else {
        0int
    })
}

/// Value of magnetometer configuration register A: the data rate from bit 2
/// up, the temperature sensor enable in bit 7.
pub open spec fn data_rate_byte(temperature: bool, data_rate: Lsm303dlhcMagnetoDataRate) -> int {
    data_rate.spec_code() * 4 + (if temperature {
        128int
    } else {
        0int
    })
}

/// Value of magnetometer configuration register B: the range in the high
/// three bits. Of a number that takes more than three bits the rest is lost.
pub open spec fn range_byte(range: Lsm303dlhcRange) -> int {
    (range.spec_code() * 32) % 256
}

/// Computes [`power_mode_byte`].
pub fn encode_power_mode(data_rate: Lsm303dlhcAccelDataRate, low_power: bool) -> (byte: u8)
    ensures
        byte == power_mode_byte(data_rate, low_power),
{
    let code = data_rate.code();
    let flag: u8 = if low_power {
        0b1000
    } else {
        0
    };
    let byte = (code << 4) | flag | 0x7;
    assert(((code << 4u8) | flag | 0x7u8) == code * 16 + flag + 7) by (bit_vector)
        requires
            code <= 9,
            flag == 8 || flag == 0,
    ;
    byte
}

/// Computes [`scale_byte`].
pub fn encode_scale(scale: Lsm303dlhcScale, high_resolution: bool) -> (byte: u8)
    ensures
        byte == scale_byte(scale, high_resolution),
{
    let code = scale.code();
    let flag: u8 = if high_resolution {
        1
    } else {
        0
    };
    let byte = (code << 4) | (flag << 3);
    assert(((code << 4u8) | (flag << 3u8)) == code * 16 + flag * 8) by (bit_vector)
        requires
            code <= 3,
            flag <= 1,
    ;
    byte
}

/// Computes [`data_rate_byte`].
pub fn encode_data_rate(temperature: bool, data_rate: Lsm303dlhcMagnetoDataRate) -> (byte: u8)
    ensures
        byte == data_rate_byte(temperature, data_rate),
{
    let code = data_rate.code();
    let flag: u8 = if temperature {
        0b1000_0000
    } else {
        0
    };
    let byte = (code << 2) | flag;
    assert(((code << 2u8) | flag) == code * 4 + flag) by (bit_vector)
        requires
            code <= 7,
            flag == 128 || flag == 0,
    ;
    byte
}

/// Computes [`range_byte`].
pub fn encode_range(range: Lsm303dlhcRange) -> (byte: u8)
    ensures
        byte == range_byte(range),
{
    let code = range.code();
    let byte = code << 5;
    assert((code << 5u8) == (code as u16 * 32) % 256) by (bit_vector)
        requires
            code <= 8,
    ;
    byte
}


/// The number that a 16-bit two's complement word stands for, from its two
/// bytes.
pub open spec fn signed16(low: u8, high: u8) -> int {
    let word = high * 256 + low;
    if word < 0x8000 {
        word
    } else {
        word - 0x1_0000
    }
}

/// A signed number as the machine word that carries it to the application:
/// itself if it is not negative, else counted down from the top of the word.
pub open spec fn as_word(value: int) -> int {
    if value >= 0 {
        value
    } else {
        value + usize::MAX + 1
    }
}

/// Decodes a signed 16-bit reading into a machine word.
pub fn word_from_bytes(low: u8, high: u8) -> (word: usize)
    ensures
        word == as_word(signed16(low, high)),
{
    let raw = word(low, high);
    if raw < 0x8000 {
        raw as usize
    } else {
        usize::MAX - ((0xFFFF - raw) as usize)
    }
}

/// Decodes a signed 16-bit reading whose low three bits carry nothing, as the
/// temperature registers deliver it: the reading divided by eight, rounded
/// down.
pub fn word_from_bytes_shifted(low: u8, high: u8) -> (word: usize)
    ensures
        word == as_word(signed16(low, high) / 8),
{
    let raw = word(low, high);
    if raw < 0x8000 {
        drop_three_bits(raw) as usize
    } else {
        usize::MAX - (drop_three_bits(0xFFFF - raw) as usize)
    }
}

/// What the driver is waiting for.
#[derive(Clone, Copy, Debug, PartialEq, Eq, Structural)]
pub enum State {
    Idle,
    IsPresent,
    SetPowerMode,
    SetScaleAndResolution,
    ReadAccelerationXYZ,
    SetTemperatureDataRate,
    SetRange,
    ReadTemperature,
    ReadMagnetometerXYZ,
}

/// Three values for the callback that the application subscribed.
#[derive(Clone, Copy, Debug, PartialEq, Eq, Structural)]
pub struct Upcall {
    pub callback: usize,
    pub r0: usize,
    pub r1: usize,
    pub r2: usize,
}

/// The driver.
#[derive(Debug)]
pub struct Lsm303dlhc {
    pub i2c_accelerometer: I2CDevice,
    pub i2c_magnetometer: I2CDevice,
    /// Token of the callback that the application subscribed.
    pub callback: Option<usize>,
    pub state: State,
    pub scale: Lsm303dlhcScale,
    pub range: Lsm303dlhcRange,
    pub high_resolution: bool,
    /// The driver's buffer, absent while a transfer has it.
    pub buffer: Option<Vec<u8>>,
}

/// Mathematical value of the driver.
pub struct Lsm303dlhcView {
    pub i2c_accelerometer: I2CDevice,
    pub i2c_magnetometer: I2CDevice,
    pub callback: Option<usize>,
    pub state: State,
    pub scale: Lsm303dlhcScale,
    pub range: Lsm303dlhcRange,
    pub high_resolution: bool,
    pub buffer: Option<Seq<u8>>,
}

impl View for Lsm303dlhc {
    type V = Lsm303dlhcView;

    open spec fn view(&self) -> Lsm303dlhcView {
        Lsm303dlhcView {
            i2c_accelerometer: self.i2c_accelerometer,
            i2c_magnetometer: self.i2c_magnetometer,
            callback: self.callback,
            state: self.state,
            scale: self.scale,
            range: self.range,
            high_resolution: self.high_resolution,
            buffer: match self.buffer {
                Some(b) => Some(b@),
                None => None,
            },
        }
    }
}

impl Lsm303dlhcView {
    /// The buffer, while the driver holds it, is long enough.
    pub open spec fn wf(self) -> bool {
        self.buffer matches Some(b) ==> b.len() >= BUFFER_LEN
    }

    /// Hands the buffer out for a transfer, with `head` written over its
    /// front. Without a buffer nothing is handed out.
    pub open spec fn issue(self, device: I2CDevice, op: Operation, head: Seq<u8>) -> (
        Lsm303dlhcView,
        Option<TransferView>,
    ) {
        match self.buffer {
            Some(b) => (
                Lsm303dlhcView { buffer: None, ..self },
                Some(TransferView { device, op, buffer: head + b.skip(head.len() as int) }),
            ),
            None => (self, None),
        }
    }

    /// Reads the identification register of the magnetometer.
    pub open spec fn is_present(self) -> (Lsm303dlhcView, Option<TransferView>) {
        Lsm303dlhcView { state: State::IsPresent, ..self }.issue(
            self.i2c_magnetometer,
            Operation::WriteRead { write_len: 1, read_len: 1 },
            seq![IRA_REG_M],
        )
    }

    /// Writes data rate and power mode to control register 1 of the
    /// accelerometer; nothing unless idle.
    pub open spec fn set_power_mode(
        self,
        data_rate: Lsm303dlhcAccelDataRate,
        low_power: bool,
    ) -> (Lsm303dlhcView, Option<TransferView>) {
        if self.state == State::Idle {
            Lsm303dlhcView { state: State::SetPowerMode, ..self }.issue(
                self.i2c_accelerometer,
                Operation::Write { len: 2 },
                seq![CTRL_REG1, power_mode_byte(data_rate, low_power) as u8],
            )
        } else {
            (self, None)
        }
    }

    /// Writes scale and resolution to control register 4 of the
    /// accelerometer, and remembers them; nothing unless idle.
    pub open spec fn set_scale_and_resolution(
        self,
        scale: Lsm303dlhcScale,
        high_resolution: bool,
    ) -> (Lsm303dlhcView, Option<TransferView>) {
        if self.state == State::Idle {
            Lsm303dlhcView {
                state: State::SetScaleAndResolution,
                scale,
                high_resolution,
                ..self
            }.issue(
                self.i2c_accelerometer,
                Operation::Write { len: 2 },
                seq![CTRL_REG4, scale_byte(scale, high_resolution) as u8],
            )
        } else {
            (self, None)
        }
    }

    /// Reads six bytes from the first acceleration register on, with the
    /// register address stepping; nothing unless idle.
    pub open spec fn read_acceleration_xyz(self) -> (Lsm303dlhcView, Option<TransferView>) {
        if self.state == State::Idle {
            Lsm303dlhcView { state: State::ReadAccelerationXYZ, ..self }.issue(
                self.i2c_accelerometer,
                Operation::WriteRead { write_len: 1, read_len: 6 },
                seq![0xA8u8],
            )
        } else {
            (self, None)
        }
    }

    /// Writes temperature enable and data rate to configuration register A
    /// of the magnetometer; nothing unless idle.
    pub open spec fn set_temperature_and_magneto_data_rate(
        self,
        temperature: bool,
        data_rate: Lsm303dlhcMagnetoDataRate,
    ) -> (Lsm303dlhcView, Option<TransferView>) {
        if self.state == State::Idle {
            Lsm303dlhcView { state: State::SetTemperatureDataRate, ..self }.issue(
                self.i2c_magnetometer,
                Operation::Write { len: 2 },
                seq![CRA_REG_M, data_rate_byte(temperature, data_rate) as u8],
            )
        } else {
            (self, None)
        }
    }

    /// Writes the range to configuration register B of the magnetometer,
    /// followed by a zero, and remembers it; nothing unless idle.
    pub open spec fn set_range(self, range: Lsm303dlhcRange) -> (
        Lsm303dlhcView,
        Option<TransferView>,
    ) {
        if self.state == State::Idle {
            Lsm303dlhcView { state: State::SetRange, range, ..self }.issue(
                self.i2c_magnetometer,
                Operation::Write { len: 3 },
                seq![CRB_REG_M, range_byte(range) as u8, 0u8],
            )
        } else {
            (self, None)
        }
    }

    /// Reads the two temperature registers. The driver waits for the reply
    /// in the state of an acceleration reading, and decodes it as one.
    pub open spec fn read_temperature(self) -> (Lsm303dlhcView, Option<TransferView>) {
        if self.state == State::Idle {
            Lsm303dlhcView { state: State::ReadAccelerationXYZ, ..self }.issue(
                self.i2c_magnetometer,
                Operation::WriteRead { write_len: 1, read_len: 2 },
                seq![TEMP_OUT_H_M],
            )
        } else {
            (self, None)
        }
    }

    /// Reads six bytes from the first magnetometer register on; nothing
    /// unless idle.
    pub open spec fn read_magnetometer_xyz(self) -> (Lsm303dlhcView, Option<TransferView>) {
        if self.state == State::Idle {
            Lsm303dlhcView { state: State::ReadMagnetometerXYZ, ..self }.issue(
                self.i2c_magnetometer,
                Operation::WriteRead { write_len: 1, read_len: 6 },
                seq![OUT_X_H_M],
            )
        } else {
            (self, None)
        }
    }

    /// A step of the driver together with the answer to the application.
    pub open spec fn answer(step: (Lsm303dlhcView, Option<TransferView>), code: ReturnCode) -> (
        Lsm303dlhcView,
        ReturnCode,
        Option<TransferView>,
    ) {
        (step.0, code, step.1)
    }

    /// What a command of an application does, by its number.
    ///
    /// 0 asks whether the driver exists; 1 checks that the sensor answers;
    /// 2 sets the power mode from `data1` (rate) and `data2` (low power);
    /// 3 sets the scale from `data1` and the resolution from `data2`;
    /// 4 sets the temperature enable from `data1` and the magnetometer data
    /// rate from `data2`; 5 sets the range from `data1`; 6, 7 and 8 read
    /// acceleration, temperature and magnetic field.
    ///
    /// A number above 8 is `ENOSUPPORT`. Commands 1 to 8 but 4 are `EBUSY`
    /// unless the driver is idle, and `EINVAL` if a parameter stands for
    /// nothing. Command 4 is `EBUSY` unless a data rate is being set, and
    /// then changes nothing.
    pub open spec fn command(self, command_num: usize, data1: usize, data2: usize) -> (
        Lsm303dlhcView,
        ReturnCode,
        Option<TransferView>,
    ) {
        if command_num == 0 {
            (self, ReturnCode::SUCCESS, None)
        } else if command_num > 8 {
            (self, ReturnCode::ENOSUPPORT, None)
        } else if command_num == 4 {
            if self.state != State::SetTemperatureDataRate {
                (self, ReturnCode::EBUSY, None)
            } else if Lsm303dlhcMagnetoDataRate::spec_from_usize(data2) is None {
                (self, ReturnCode::EINVAL, None)
            } else {
                (self, ReturnCode::SUCCESS, None)
            }
        } else if self.state != State::Idle {
            (self, ReturnCode::EBUSY, None)
        } else if command_num == 1 {
            Self::answer(self.is_present(), ReturnCode::SUCCESS)
        } else if command_num == 2 {
            match Lsm303dlhcAccelDataRate::spec_from_usize(data1) {
                Some(data_rate) => Self::answer(
                    self.set_power_mode(data_rate, data2 != 0),
                    ReturnCode::SUCCESS,
                ),
                None => (self, ReturnCode::EINVAL, None),
            }
        } else if command_num == 3 {
            match Lsm303dlhcScale::spec_from_usize(data1) {
                Some(scale) => Self::answer(
                    self.set_scale_and_resolution(scale, data2 != 0),
                    ReturnCode::SUCCESS,
                ),
                None => (self, ReturnCode::EINVAL, None),
            }
        } else if command_num == 5 {
            match Lsm303dlhcRange::spec_from_usize(data1) {
                Some(range) => Self::answer(self.set_range(range), ReturnCode::SUCCESS),
                None => (self, ReturnCode::EINVAL, None),
            }
        } else if command_num == 6 {
            Self::answer(self.read_acceleration_xyz(), ReturnCode::SUCCESS)
        } else if command_num == 7 {
            Self::answer(self.read_temperature(), ReturnCode::SUCCESS)
        } else {
            Self::answer(self.read_magnetometer_xyz(), ReturnCode::SUCCESS)
        }
    }

    /// The driver after the transfer that it waited for has completed and
    /// brought `buffer` back.
    pub open spec fn command_complete(self, buffer: Seq<u8>) -> Lsm303dlhcView {
        Lsm303dlhcView { state: State::Idle, buffer: Some(buffer), ..self }
    }
}

/// The three values that the completion of a transfer yields for the
/// application, by what the driver was waiting for; nothing when it was not
/// waiting.
///
/// A command that only writes yields 1 if the transfer succeeded and 0 if
/// not. The presence check yields 1 if it succeeded and the identification
/// register read 60. A reading yields its values, and zeros if the transfer
/// failed: the acceleration as three little-endian words x, y, z; the
/// magnetic field as three big-endian words that arrive in the order x, z, y;
/// the temperature as one big-endian word divided by eight.
pub open spec fn completion_values(state: State, buffer: Seq<u8>, status: BusStatus) -> Option<
    (int, int, int),
> {
    let ok = status == BusStatus::CommandComplete;
    match state {
        State::Idle => None,
        State::IsPresent => Some(
            (
                if ok && buffer[0] == IRA_REG_M_VALUE {
                    1int
                } else {
                    0int
                },
                0int,
                0int,
            ),
        ),
        State::ReadAccelerationXYZ => if ok {
            Some(
                (
                    as_word(signed16(buffer[0], buffer[1])),
                    as_word(signed16(buffer[2], buffer[3])),
                    as_word(signed16(buffer[4], buffer[5])),
                ),
            )
        } else {
            Some((0int, 0int, 0int))
        },
        State::ReadTemperature => if ok {
            Some((as_word(signed16(buffer[1], buffer[0]) / 8), 0int, 0int))
        } else {
            Some((0int, 0int, 0int))
        },
        State::ReadMagnetometerXYZ => if ok {
            Some(
                (
                    as_word(signed16(buffer[1], buffer[0])),
                    as_word(signed16(buffer[5], buffer[4])),
                    as_word(signed16(buffer[3], buffer[2])),
                ),
            )
        } else {
            Some((0int, 0int, 0int))
        },
        _ => Some(
            (
                if ok {
                    1int
                } else {
                    0int
                },
                0int,
                0int,
            ),
        ),
    }
}

/// The call of the subscribed callback that a completion leads to: none
/// without a callback, none where nothing was waited for.
pub open spec fn completion_upcall(
    callback: Option<usize>,
    state: State,
    buffer: Seq<u8>,
    status: BusStatus,
) -> Option<Upcall> {
    match (callback, completion_values(state, buffer, status)) {
        (Some(callback), Some((r0, r1, r2))) => Some(
            Upcall { callback, r0: r0 as usize, r1: r1 as usize, r2: r2 as usize },
        ),
        _ => None,
    }
}

impl Lsm303dlhc {
    /// A driver on the two endpoints of the sensor, idle, with `buffer` for
    /// its transfers.
    pub fn new(i2c_accelerometer: I2CDevice, i2c_magnetometer: I2CDevice, buffer: Vec<u8>) -> (driver:
        Lsm303dlhc)
        requires
            buffer.len() >= BUFFER_LEN,
        ensures
            driver@ == (Lsm303dlhcView {
                i2c_accelerometer,
                i2c_magnetometer,
                callback: None,
                state: State::Idle,
                scale: Lsm303dlhcScale::Scale2G,
                range: Lsm303dlhcRange::Range1G,
                high_resolution: false,
                buffer: Some(buffer@),
            }),
            driver@.wf(),
    {
        Lsm303dlhc {
            i2c_accelerometer,
            i2c_magnetometer,
            callback: None,
            state: State::Idle,
            scale: Lsm303dlhcScale::Scale2G,
            range: Lsm303dlhcRange::Range1G,
            high_resolution: false,
            buffer: Some(buffer),
        }
    }

    fn issue(&mut self, device: I2CDevice, op: Operation, head: Vec<u8>) -> (transfer: Option<
        Transfer,
    >)
        requires
            old(self)@.wf(),
            head.len() <= BUFFER_LEN,
        ensures
            (final(self)@, transfer_view(transfer)) == old(self)@.issue(device, op, head@),
            final(self)@.wf(),
    {
        match self.buffer.take() {
            Some(mut buffer) => {
                let ghost before = buffer@;
                let mut i: usize = 0;
                while i < head.len()
                    invariant
                        0 <= i <= head.len() <= BUFFER_LEN <= before.len(),
                        buffer@ == head@.take(i as int) + before.skip(i as int),
                    decreases head.len() - i,
                {
                    buffer.set(i, head[i]);
                    i += 1;
                }
                assert(head@.take(head.len() as int) == head@);
                Some(Transfer { device, op, buffer })
            },
            None => None,
        }
    }

    /// Checks that the sensor answers: reads the identification register of
    /// the magnetometer, whatever the driver was doing.
    pub fn is_present(&mut self) -> (transfer: Option<Transfer>)
        requires
            old(self)@.wf(),
        ensures
            (final(self)@, transfer_view(transfer)) == old(self)@.is_present(),
            final(self)@.wf(),
    {
        self.state = State::IsPresent;
        let device = self.i2c_magnetometer;
        let head = vec![IRA_REG_M];
        assert(head@ =~= seq![IRA_REG_M]);
        self.issue(device, Operation::WriteRead { write_len: 1, read_len: 1 }, head)
    }

    /// Sets data rate and power mode of the accelerometer. Does nothing
    /// unless the driver is idle.
    pub fn set_power_mode(&mut self, data_rate: Lsm303dlhcAccelDataRate, low_power: bool) -> (transfer:
        Option<Transfer>)
        requires
            old(self)@.wf(),
        ensures
            (final(self)@, transfer_view(transfer)) == old(self)@.set_power_mode(
                data_rate,
                low_power,
            ),
            final(self)@.wf(),
    {
        if self.state == State::Idle {
            self.state = State::SetPowerMode;
            let device = self.i2c_accelerometer;
            let byte = encode_power_mode(data_rate, low_power);
            self.issue(device, Operation::Write { len: 2 }, vec![CTRL_REG1, byte])
        } else {
            None
        }
    }

    /// Sets scale and resolution of the accelerometer, and remembers them.
    /// Does nothing unless the driver is idle.
    pub fn set_scale_and_resolution(&mut self, scale: Lsm303dlhcScale, high_resolution: bool) -> (transfer:
        Option<Transfer>)
        requires
            old(self)@.wf(),
        ensures
            (final(self)@, transfer_view(transfer)) == old(self)@.set_scale_and_resolution(
                scale,
                high_resolution,
            ),
            final(self)@.wf(),
    {
        if self.state == State::Idle {
            self.state = State::SetScaleAndResolution;
            self.scale = scale;
            self.high_resolution = high_resolution;
            let device = self.i2c_accelerometer;
            let byte = encode_scale(scale, high_resolution);
            self.issue(device, Operation::Write { len: 2 }, vec![CTRL_REG4, byte])
        } else {
            None
        }
    }

    /// Reads the six acceleration registers in one transfer. Does nothing
    /// unless the driver is idle.
    pub fn read_acceleration_xyz(&mut self) -> (transfer: Option<Transfer>)
        requires
            old(self)@.wf(),
        ensures
            (final(self)@, transfer_view(transfer)) == old(self)@.read_acceleration_xyz(),
            final(self)@.wf(),
    {
        if self.state == State::Idle {
            self.state = State::ReadAccelerationXYZ;
            let device = self.i2c_accelerometer;
            let register = OUT_X_L_A | REGISTER_AUTO_INCREMENT;
            assert(0x28u8 | 0x80u8 == 0xA8u8) by (bit_vector);
            let head = vec![register];
            assert(head@ =~= seq![0xA8u8]);
            self.issue(device, Operation::WriteRead { write_len: 1, read_len: 6 }, head)
        } else {
            None
        }
    }

    /// Switches the temperature sensor of the magnetometer on or off and
    /// sets its data rate. Does nothing unless the driver is idle.
    pub fn set_temperature_and_magneto_data_rate(
        &mut self,
        temperature: bool,
        data_rate: Lsm303dlhcMagnetoDataRate,
    ) -> (transfer: Option<Transfer>)
        requires
            old(self)@.wf(),
        ensures
            (final(self)@, transfer_view(transfer))
                == old(self)@.set_temperature_and_magneto_data_rate(temperature, data_rate),
            final(self)@.wf(),
    {
        if self.state == State::Idle {
            self.state = State::SetTemperatureDataRate;
            let device = self.i2c_magnetometer;
            let byte = encode_data_rate(temperature, data_rate);
            self.issue(device, Operation::Write { len: 2 }, vec![CRA_REG_M, byte])
        } else {
            None
        }
    }

    /// Sets the range of the magnetometer, and remembers it. Does nothing
    /// unless the driver is idle.
    pub fn set_range(&mut self, range: Lsm303dlhcRange) -> (transfer: Option<Transfer>)
        requires
            old(self)@.wf(),
        ensures
            (final(self)@, transfer_view(transfer)) == old(self)@.set_range(range),
            final(self)@.wf(),
    {
        if self.state == State::Idle {
            self.state = State::SetRange;
            self.range = range;
            let device = self.i2c_magnetometer;
            let byte = encode_range(range);
            self.issue(device, Operation::Write { len: 3 }, vec![CRB_REG_M, byte, 0])
        } else {
            None
        }
    }

    /// Reads the two temperature registers. Does nothing unless the driver
    /// is idle.
    pub fn read_temperature(&mut self) -> (transfer: Option<Transfer>)
        requires
            old(self)@.wf(),
        ensures
            (final(self)@, transfer_view(transfer)) == old(self)@.read_temperature(),
            final(self)@.wf(),
    {
        if self.state == State::Idle {
            self.state = State::ReadAccelerationXYZ;
            let device = self.i2c_magnetometer;
            let head = vec![TEMP_OUT_H_M];
            assert(head@ =~= seq![TEMP_OUT_H_M]);
            self.issue(device, Operation::WriteRead { write_len: 1, read_len: 2 }, head)
        } else {
            None
        }
    }

    /// Reads the six magnetometer registers in one transfer. Does nothing
    /// unless the driver is idle.
    pub fn read_magnetometer_xyz(&mut self) -> (transfer: Option<Transfer>)
        requires
            old(self)@.wf(),
        ensures
            (final(self)@, transfer_view(transfer)) == old(self)@.read_magnetometer_xyz(),
            final(self)@.wf(),
    {
        if self.state == State::Idle {
            self.state = State::ReadMagnetometerXYZ;
            let device = self.i2c_magnetometer;
            let head = vec![OUT_X_H_M];
            assert(head@ =~= seq![OUT_X_H_M]);
            self.issue(device, Operation::WriteRead { write_len: 1, read_len: 6 }, head)
        } else {
            None
        }
    }

    /// Takes the completion of the transfer that the driver waited for.
    ///
    /// The buffer returns to the driver and the driver becomes idle. The
    /// result is the call to make on the subscribed callback, with the values
    /// of [`completion_values`]; there is none without a callback or where
    /// the driver was not waiting.
    pub fn command_complete(&mut self, buffer: Vec<u8>, error: BusStatus) -> (upcall: Option<
        Upcall,
    >)
        requires
            buffer.len() >= BUFFER_LEN,
        ensures
            final(self)@ == old(self)@.command_complete(buffer@),
            upcall == completion_upcall(old(self).callback, old(self).state, buffer@, error),
            final(self)@.wf(),
    {
        let ok = error == BusStatus::CommandComplete;
        let values: Option<(usize, usize, usize)> = match self.state {
            State::IsPresent => {
                let present = ok && buffer[0] == IRA_REG_M_VALUE;
                Some(
                    (
                        if present {
                            1
                        } else {
                            0
                        },
                        0,
                        0,
                    ),
                )
            },
            State::SetPowerMode
            | State::SetScaleAndResolution
            | State::SetTemperatureDataRate
            | State::SetRange => {
                Some(
                    (
                        if ok {
                            1
                        } else {
                            0
                        },
                        0,
                        0,
                    ),
                )
            },
            State::ReadAccelerationXYZ => {
                if ok {
                    let x = word_from_bytes(buffer[0], buffer[1]);
                    let y = word_from_bytes(buffer[2], buffer[3]);
                    let z = word_from_bytes(buffer[4], buffer[5]);
                    Some((x, y, z))
                } else {
                    Some((0, 0, 0))
                }
            },
            State::ReadTemperature => {
                if ok {
                    let temp = word_from_bytes_shifted(buffer[1], buffer[0]);
                    Some((temp, 0, 0))
                } else {
                    Some((0, 0, 0))
                }
            },
            State::ReadMagnetometerXYZ => {
                if ok {
                    let x = word_from_bytes(buffer[1], buffer[0]);
                    let z = word_from_bytes(buffer[3], buffer[2]);
                    let y = word_from_bytes(buffer[5], buffer[4]);
                    Some((x, y, z))
                } else {
                    Some((0, 0, 0))
                }
            },
            State::Idle => None,
        };
        let upcall = match (self.callback, values) {
            (Some(callback), Some((r0, r1, r2))) => Some(Upcall { callback, r0, r1, r2 }),
            _ => None,
        };
        self.buffer = Some(buffer);
        self.state = State::Idle;
        upcall
    }

    /// Carries out a command of an application; see
    /// [`Lsm303dlhcView::command`] for the commands and the answers.
    pub fn command(&mut self, command_num: usize, data1: usize, data2: usize) -> (result: (
        ReturnCode,
        Option<Transfer>,
    ))
        requires
            old(self)@.wf(),
        ensures
            (final(self)@, result.0, transfer_view(result.1)) == old(self)@.command(
                command_num,
                data1,
                data2,
            ),
            final(self)@.wf(),
    {
        match command_num {
            0 => (ReturnCode::SUCCESS, None),
            1 => {
                if self.state == State::Idle {
                    let transfer = self.is_present();
                    (ReturnCode::SUCCESS, transfer)
                } else {
                    (ReturnCode::EBUSY, None)
                }
            },
            2 => {
                if self.state == State::Idle {
                    if let Some(data_rate) = Lsm303dlhcAccelDataRate::from_usize(data1) {
                        let transfer = self.set_power_mode(data_rate, data2 != 0);
                        (ReturnCode::SUCCESS, transfer)
                    } else {
                        (ReturnCode::EINVAL, None)
                    }
                } else {
                    (ReturnCode::EBUSY, None)
                }
            },
            3 => {
                if self.state == State::Idle {
                    if let Some(scale) = Lsm303dlhcScale::from_usize(data1) {
                        let transfer = self.set_scale_and_resolution(scale, data2 != 0);
                        (ReturnCode::SUCCESS, transfer)
                    } else {
                        (ReturnCode::EINVAL, None)
                    }
                } else {
                    (ReturnCode::EBUSY, None)
                }
            },
            4 => {
                if self.state == State::SetTemperatureDataRate {
                    if let Some(data_rate) = Lsm303dlhcMagnetoDataRate::from_usize(data2) {
                        let transfer = self.set_temperature_and_magneto_data_rate(
                            data1 != 0,
                            data_rate,
                        );
                        (ReturnCode::SUCCESS, transfer)
                    } else {
                        (ReturnCode::EINVAL, None)
                    }
                } else {
                    (ReturnCode::EBUSY, None)
                }
            },
            5 => {
                if self.state == State::Idle {
                    if let Some(range) = Lsm303dlhcRange::from_usize(data1) {
                        let transfer = self.set_range(range);
                        (ReturnCode::SUCCESS, transfer)
                    } else {
                        (ReturnCode::EINVAL, None)
                    }
                } else {
                    (ReturnCode::EBUSY, None)
                }
            },
            6 => {
                if self.state == State::Idle {
                    let transfer = self.read_acceleration_xyz();
                    (ReturnCode::SUCCESS, transfer)
                } else {
                    (ReturnCode::EBUSY, None)
                }
            },
            7 => {
                if self.state == State::Idle {
                    let transfer = self.read_temperature();
                    (ReturnCode::SUCCESS, transfer)
                } else {
                    (ReturnCode::EBUSY, None)
                }
            },
            8 => {
                if self.state == State::Idle {
                    let transfer = self.read_magnetometer_xyz();
                    (ReturnCode::SUCCESS, transfer)
                } else {
                    (ReturnCode::EBUSY, None)
                }
            },
            _ => (ReturnCode::ENOSUPPORT, None),
        }
    }

    /// Subscribes `callback` for the values of the commands, or with `None`
    /// removes the subscription. Only subscription number 0 exists; any other
    /// is `ENOSUPPORT` and changes nothing.
    pub fn subscribe(&mut self, subscribe_num: usize, callback: Option<usize>) -> (code: ReturnCode)
        ensures
            subscribe_num == 0 ==> code == ReturnCode::SUCCESS && final(self)@ == (Lsm303dlhcView {
                callback,
                ..old(self)@
            }),
            subscribe_num != 0 ==> code == ReturnCode::ENOSUPPORT && final(self)@ == old(self)@,
    {
        match subscribe_num {
            0 => {
                self.callback = callback;
                ReturnCode::SUCCESS
            },
            _ => ReturnCode::ENOSUPPORT,
        }
    }
}

} // verus!
