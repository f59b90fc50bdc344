//! Errors reported by the library.
use vstd::prelude::*;

verus! {

/// What went wrong.
#[derive(Debug, Clone, Copy, PartialEq, Eq, Structural)]
pub enum Error {
    /// The operating system refused a call on the device; holds its error number.
    LibcError(i32),
    /// A malformed trap configuration or driver block.
    InvalidArgument,
    /// A trap is already armed on this handle.
    AlreadyArmed,
    /// No trap is armed on this handle.
    NotArmed,
}

} // verus!
