//! Pipe-instance handles as the protocol logic sees them.

use vstd::prelude::*;

verus! {

/// One OS handle to a pipe instance, reduced to what the protocol reads:
/// its raw identity.  The OS guarantees that a handle it hands out is
/// distinct from every handle still open in the process, which is what the
/// listener's re-arm step relies on.
#[derive(Clone, Copy, Debug, PartialEq, Eq, Structural)]
pub struct PipeHandle {
    pub id: u64,
}

} // verus!
