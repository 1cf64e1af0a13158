//! Values that travel between drivers, endpoints, the multiplexer and the bus.

use vstd::prelude::*;

verus! {

/// How a transaction ended, as the physical master reports it.
///
/// The multiplexer never looks inside: whatever the controller reports is
/// what the driver receives.
#[derive(Clone, Copy, Debug, PartialEq, Eq, Structural)]
pub enum BusStatus {
    /// Every requested byte was transferred.
    CommandComplete,
    /// The controller detected a fault on the bus.
    BusError,
    /// No device acknowledged the address.
    AddressNak,
    /// The device stopped acknowledging during the data phase.
    DataNak,
    /// Another master won the bus.
    ArbitrationLost,
}

/// Why an endpoint turned a request down before anything was started.
#[derive(Clone, Copy, Debug, PartialEq, Eq, Structural)]
pub enum RequestError {
    /// The byte count is larger than the buffer that came with it.
    InvalidLength,
    /// The endpoint already has a request that has not completed.
    Busy,
}

/// The kind of a transaction together with its byte counts.
#[derive(Clone, Copy, Debug, PartialEq, Eq, Structural)]
pub enum Operation {
    Write { len: usize },
    Read { len: usize },
    WriteRead { write_len: usize, read_len: usize },
}

impl Operation {
    /// Number of buffer bytes that the transaction touches.
    pub open spec fn span(self) -> int {
        match self {
            Operation::Write { len } => len as int,
            Operation::Read { len } => len as int,
            Operation::WriteRead { write_len, read_len } => write_len + read_len,
        }
    }

    /// Whether a buffer of `capacity` bytes is large enough.
    pub open spec fn fits(self, capacity: int) -> bool {
        self.span() <= capacity
    }

    /// Decides [`Operation::fits`] without overflowing on the sum of the two
    /// phases of a write-then-read.
    pub fn fits_in(&self, capacity: usize) -> (ok: bool)
        ensures
            ok == self.fits(capacity as int),
    {
        match *self {
            Operation::Write { len } => len <= capacity,
            Operation::Read { len } => len <= capacity,
            Operation::WriteRead { write_len, read_len } => {
                write_len <= capacity && read_len <= capacity - write_len
            },
        }
    }
}

/// A request as the multiplexer keeps it while it waits for the bus.
#[derive(Debug)]
pub struct Request {
    /// Handle of the endpoint that asked.
    pub endpoint: usize,
    pub op: Operation,
    /// The driver's buffer, held until the completion hands it back.
    pub buffer: Vec<u8>,
}

/// Mathematical value of a [`Request`].
pub struct RequestView {
    pub endpoint: usize,
    pub op: Operation,
    pub buffer: Seq<u8>,
}

impl View for Request {
    type V = RequestView;

    open spec fn view(&self) -> RequestView {
        RequestView { endpoint: self.endpoint, op: self.op, buffer: self.buffer@ }
    }
}

/// A transaction to start on the physical master.
#[derive(Debug)]
pub struct BusCommand {
    /// Bus address to send in the address phase.
    pub address: u8,
    pub op: Operation,
    pub buffer: Vec<u8>,
}

/// Mathematical value of a [`BusCommand`].
pub struct BusCommandView {
    pub address: u8,
    pub op: Operation,
    pub buffer: Seq<u8>,
}

impl View for BusCommand {
    type V = BusCommandView;

    open spec fn view(&self) -> BusCommandView {
        BusCommandView { address: self.address, op: self.op, buffer: self.buffer@ }
    }
}

/// Mathematical value of a command that may be absent.
pub open spec fn command_view(command: Option<BusCommand>) -> Option<BusCommandView> {
    match command {
        Some(c) => Some(c@),
        None => None,
    }
}

/// What an endpoint hands to its registered client when its transaction ends.
#[derive(Debug)]
pub struct Callback {
    /// Token under which the client was registered.
    pub client: usize,
    pub buffer: Vec<u8>,
    pub status: BusStatus,
}

/// Mathematical value of a [`Callback`].
pub struct CallbackView {
    pub client: usize,
    pub buffer: Seq<u8>,
    pub status: BusStatus,
}

impl View for Callback {
    type V = CallbackView;

    open spec fn view(&self) -> CallbackView {
        CallbackView { client: self.client, buffer: self.buffer@, status: self.status }
    }
}

} // verus!
