//! Result codes that drivers hand to their callers.

use vstd::prelude::*;

verus! {

/// Why a driver operation was not carried out.
#[derive(Clone, Copy, Debug, PartialEq, Eq, Structural)]
pub enum ErrorCode {
    /// Generic failure.
    FAIL,
    /// The driver is in the middle of another operation.
    BUSY,
    /// A buffer that the operation needs is not at hand.
    NOMEM,
    /// A parameter or a received frame is not valid.
    INVAL,
    /// A length is out of bounds.
    SIZE,
    /// The peer did not answer.
    NOACK,
}

/// Answer of a driver to a command of an application.
#[derive(Clone, Copy, Debug, PartialEq, Eq, Structural)]
pub enum ReturnCode {
    /// The command was accepted.
    SUCCESS,
    /// Generic failure.
    FAIL,
    /// The driver is in the middle of another operation.
    EBUSY,
    /// A parameter is not valid.
    EINVAL,
    /// A length is out of bounds.
    ESIZE,
    /// A buffer is too small for what was asked.
    ENOMEM,
    /// The command or the mode is not supported.
    ENOSUPPORT,
}

} // verus!
