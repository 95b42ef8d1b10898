//! The ways in which an operation on a dialog is refused.
use vstd::prelude::*;

verus! {

/// Why an operation was refused. A refused operation changes nothing and
/// asks for no native call.
#[derive(Clone, Copy, Debug, PartialEq, Eq, Structural)]
pub enum DialogError {
    /// The native widget could not be allocated.
    AllocationFailed,
    /// The native handle has already been given up for destruction.
    HandleDestroyed,
    /// The dialog is closed, and the operation needs an open one.
    NotOpen,
    /// The dialog is open, and the operation needs a closed one.
    AlreadyOpen,
    /// The dialog has finished; it takes no further frames until it is
    /// closed and opened again.
    AlreadyFinished,
    /// A frame result was reported though no frame had been started.
    NotRendering,
    /// The dialog has not been confirmed, so it has no selection.
    NotConfirmed,
}

} // verus!
