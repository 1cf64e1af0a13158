//! Builders for the shared I2C bus: first the multiplexer, then one endpoint
//! per device.

use vstd::prelude::*;
use crate::virtual_i2c::device::I2CDevice;
use crate::virtual_i2c::mux::MuxI2C;

verus! {

/// Builds an endpoint on a multiplexer for the device at a fixed address.
///
/// The builder borrows the multiplexer until it is finalized; the endpoint
/// that comes out is a plain handle and borrows nothing.
pub struct I2CComponent<'a> {
    /// The multiplexer that the endpoint will belong to.
    pub i2c_mux: &'a mut MuxI2C,
    /// The bus address that the endpoint will be bound to.
    pub address: u8,
}

impl<'a> I2CComponent<'a> {
    /// A builder for an endpoint of `mux` at `address`. The multiplexer is
    /// not touched yet.
    pub fn new(mux: &'a mut MuxI2C, address: u8) -> (component: Self)
        ensures
            component.address == address,
            *component.i2c_mux == *old(mux),
            *final(component.i2c_mux) == *final(mux),
    {
        I2CComponent { i2c_mux: mux, address }
    }

    /// Attaches the endpoint to the multiplexer and returns its handle. The
    /// new endpoint comes last in the registry, has no client yet and
    /// nothing outstanding; bus and queue are as they were.
    pub fn finalize(self) -> (device: I2CDevice)
        requires
            old(self.i2c_mux)@.wf(),
        ensures
            final(self.i2c_mux)@ == old(self.i2c_mux)@.attach(self.address),
            final(self.i2c_mux)@.wf(),
            device.spec_handle() == old(self.i2c_mux)@.endpoints.len(),
            device.spec_address() == self.address,
            device.bound_to(final(self.i2c_mux)@),
            !final(self.i2c_mux)@.outstanding(device.spec_handle()),
    {
        I2CDevice::new(self.i2c_mux, self.address)
    }
}

} // verus!
