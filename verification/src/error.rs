//! The error model: an OS-level error as the protocol logic reads it.

use vstd::prelude::*;

verus! {

/// The classes of OS error that the protocol logic distinguishes.
///
/// Only `WouldBlock` changes a decision: it is the transient "cannot complete
/// without waiting" condition, converted into a suspension and never surfaced
/// as a failure.  Every other class is carried to the caller unchanged.
#[derive(Clone, Copy, Debug, PartialEq, Eq, Structural)]
pub enum IoErrorKind {
    /// The operation would have to wait; transient, never a real failure.
    WouldBlock,
    /// No object exists under the given name.
    NotFound,
    /// Access to the object was denied.
    PermissionDenied,
    /// The other end of the pipe is gone.
    BrokenPipe,
    /// Any other OS error.
    Other,
}

/// An OS-level error, carried verbatim: its class and the raw OS error code.
#[derive(Clone, Copy, Debug, PartialEq, Eq, Structural)]
pub struct IoError {
    pub kind: IoErrorKind,
    pub code: u32,
}

impl IoError {
    /// The one transient condition that must never surface as an error.
    pub open spec fn is_would_block(self) -> bool {
        self.kind == IoErrorKind::WouldBlock
    }

    /// Whether this error reports the transient would-block condition.
    pub fn would_block(&self) -> (r: bool)
        ensures
            r == self.is_would_block(),
    {
        matches!(self.kind, IoErrorKind::WouldBlock)
    }
}

} // verus!
