//! The endpoint: what one driver sees of the shared bus.

use vstd::prelude::*;
use super::model::MuxView;
use super::mux::MuxI2C;
use super::types::{command_view, BusCommand, Operation, RequestError, RequestView};

verus! {

/// Handle of a driver on one device of the shared bus.
///
/// An endpoint is bound to one bus address for its whole life. To its driver
/// it looks like a bus of its own: the driver issues one operation at a time
/// and gets its buffer back with the completion.
#[derive(Clone, Copy, Debug, PartialEq, Eq, Structural)]
pub struct I2CDevice {
    index: usize,
    address: u8,
}

/// What an endpoint operation answers: on acceptance the transaction that the
/// caller has to start on the bus now, if the bus was idle; on refusal the
/// reason and the untouched buffer.
///
/// `answered(before, after, request, answer)` holds when `answer` and the
/// state `after` are what an endpoint makes of `request` in state `before`.
pub open spec fn answered(
    before: MuxView,
    after: MuxView,
    request: RequestView,
    answer: Result<Option<BusCommand>, (RequestError, Vec<u8>)>,
) -> bool {
    &&& after == before.submit(request)
    &&& match answer {
        Ok(command) => {
            &&& before.verdict(request) is None
            &&& command_view(command) == before.submit_command(request)
        },
        Err((error, returned)) => {
            &&& before.verdict(request) == Some(error)
            &&& returned@ == request.buffer
        },
    }
}

impl I2CDevice {
    /// Position of the endpoint in the registry of its multiplexer.
    pub closed spec fn spec_handle(&self) -> usize {
        self.index
    }

    /// Bus address that the endpoint was created with.
    pub closed spec fn spec_address(&self) -> u8 {
        self.address
    }

    /// The endpoint belongs to the multiplexer `mux`: it is registered there
    /// under its handle and with its address.
    pub open spec fn bound_to(self, mux: MuxView) -> bool {
        &&& mux.registered(self.spec_handle())
        &&& mux.endpoints[self.spec_handle() as int].address == self.spec_address()
    }

    /// The request that the endpoint makes of an operation and a buffer.
    pub open spec fn request(self, op: Operation, buffer: Seq<u8>) -> RequestView {
        RequestView { endpoint: self.spec_handle(), op, buffer }
    }

    /// Creates an endpoint bound to `address` and attaches it to `mux`.
    pub fn new(mux: &mut MuxI2C, address: u8) -> (device: I2CDevice)
        requires
            old(mux)@.wf(),
        ensures
            final(mux)@ == old(mux)@.attach(address),
            final(mux)@.wf(),
            device.spec_handle() == old(mux)@.endpoints.len(),
            device.spec_address() == address,
            device.bound_to(final(mux)@),
            !final(mux)@.outstanding(device.spec_handle()),
    {
        let index = mux.attach(address);
        proof {
            let before = old(mux)@;
            if mux@.queued(index) {
                let i = choose|i: int|
                    0 <= i < mux@.pending.len() && (#[trigger] mux@.pending[i]).endpoint == index;
                assert(before.registered(before.pending[i].endpoint));
            }
        }
        I2CDevice { index, address }
    }

    /// Position of the endpoint in the registry of its multiplexer.
    #[verifier::when_used_as_spec(spec_handle)]
    pub fn handle(&self) -> (index: usize)
        ensures
            index == self.spec_handle(),
    {
        self.index
    }

    /// Bus address that the endpoint was created with.
    #[verifier::when_used_as_spec(spec_address)]
    pub fn address(&self) -> (address: u8)
        ensures
            address == self.spec_address(),
    {
        self.address
    }

    /// Registers `client` as the target of this endpoint's completions.
    /// Nothing is checked and nothing else changes.
    pub fn set_client(&self, mux: &mut MuxI2C, client: usize)
        requires
            old(mux)@.wf(),
            self.bound_to(old(mux)@),
        ensures
            final(mux)@ == old(mux)@.set_client(self.spec_handle(), client),
            final(mux)@.wf(),
            self.bound_to(final(mux)@),
    {
        mux.set_client(self.index, client);
    }

    fn submit(&self, mux: &mut MuxI2C, op: Operation, buffer: Vec<u8>) -> (answer: Result<
        Option<BusCommand>,
        (RequestError, Vec<u8>),
    >)
        requires
            old(mux)@.wf(),
            self.bound_to(old(mux)@),
        ensures
            answered(old(mux)@, final(mux)@, self.request(op, buffer@), answer),
            final(mux)@.wf(),
            self.bound_to(final(mux)@),
    {
        if mux.is_outstanding(self.index) {
            Err((RequestError::Busy, buffer))
        } else if !op.fits_in(buffer.len()) {
            Err((RequestError::InvalidLength, buffer))
        } else {
            Ok(mux.enqueue(self.index, op, buffer))
        }
    }

    /// Writes the first `len` bytes of `buffer` to the device.
    ///
    /// Refused with `Busy` while an earlier operation of this endpoint has not
    /// completed, else with `InvalidLength` if `len` exceeds the buffer; a
    /// refusal hands the buffer back and changes nothing. An accepted request
    /// is forwarded to the multiplexer.
    pub fn write(&self, mux: &mut MuxI2C, buffer: Vec<u8>, len: usize) -> (answer: Result<
        Option<BusCommand>,
        (RequestError, Vec<u8>),
    >)
        requires
            old(mux)@.wf(),
            self.bound_to(old(mux)@),
        ensures
            answered(
                old(mux)@,
                final(mux)@,
                self.request(Operation::Write { len }, buffer@),
                answer,
            ),
            final(mux)@.wf(),
            self.bound_to(final(mux)@),
    {
        self.submit(mux, Operation::Write { len }, buffer)
    }

    /// Reads `len` bytes from the device into the front of `buffer`.
    ///
    /// Refused and accepted as [`I2CDevice::write`] is.
    pub fn read(&self, mux: &mut MuxI2C, buffer: Vec<u8>, len: usize) -> (answer: Result<
        Option<BusCommand>,
        (RequestError, Vec<u8>),
    >)
        requires
            old(mux)@.wf(),
            self.bound_to(old(mux)@),
        ensures
            answered(
                old(mux)@,
                final(mux)@,
                self.request(Operation::Read { len }, buffer@),
                answer,
            ),
            final(mux)@.wf(),
            self.bound_to(final(mux)@),
    {
        self.submit(mux, Operation::Read { len }, buffer)
    }

    /// Writes the first `write_len` bytes of `buffer`, then reads `read_len`
    /// bytes in the same transaction.
    ///
    /// The two counts together must fit the buffer; otherwise refused and
    /// accepted as [`I2CDevice::write`] is.
    pub fn write_then_read(
        &self,
        mux: &mut MuxI2C,
        buffer: Vec<u8>,
        write_len: usize,
        read_len: usize,
    ) -> (answer: Result<Option<BusCommand>, (RequestError, Vec<u8>)>)
        requires
            old(mux)@.wf(),
            self.bound_to(old(mux)@),
        ensures
            answered(
                old(mux)@,
                final(mux)@,
                self.request(Operation::WriteRead { write_len, read_len }, buffer@),
                answer,
            ),
            final(mux)@.wf(),
            self.bound_to(final(mux)@),
    {
        self.submit(mux, Operation::WriteRead { write_len, read_len }, buffer)
    }
}

} // verus!
