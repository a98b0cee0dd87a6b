//! Readiness polls: the reactor's answer when asked whether a pipe handle
//! is ready in some direction.

use vstd::prelude::*;
use crate::error::IoError;

verus! {

/// The outcome of asking the reactor for readiness in one direction.
///
/// `NotReady` means interest has been registered and the caller will be
/// woken when the OS signals activity; `Ready` means the direction is
/// usable now; `Failed` carries an error from the readiness machinery.
#[derive(Clone, Copy, Debug, PartialEq, Eq, Structural)]
pub enum ReadyPoll {
    NotReady,
    Ready,
    Failed(IoError),
}

} // verus!
