//! Verified models of a shared I2C bus and of the peripherals around it.
//!
//! The centre of the crate is [`virtual_i2c`]: a multiplexer that lets any
//! number of device endpoints share one physical I2C master, with at most one
//! transaction on the wire, first-come-first-served dispatch of the requests
//! that had to wait, and every completion handed to the endpoint that asked.
//!
//! Around it stand the builders of the bus ([`components`]), two drivers for
//! devices on it ([`lsm303dlhc`], [`ft6206`]), and models of other parts of a
//! board: a Wi-Fi module on SPI ([`nina_w102`]), a temperature sensor
//! ([`temperature_rp2040`]), a UART ([`uart`]), a clock controller ([`ccm`])
//! and a parallel bus controller ([`fsmc`]).
//!
//! Nothing here touches hardware. Each entry point takes the current state and
//! an event and returns what has to be done; the caller owns the hardware and
//! performs it. Registers are worked on as plain values that the caller has
//! read and will write back.

pub mod virtual_i2c;
pub mod components;
pub mod errorcode;
pub mod bits;
pub mod registers;
pub mod ccm;
pub mod temperature_rp2040;
pub mod lsm303dlhc;
pub mod ft6206;
pub mod fsmc;
pub mod uart;
pub mod nina_w102;
