//! The conditions that halt the machine.

use vstd::prelude::*;

verus! {

/// A fatal condition met while executing. A faulting operation leaves the
/// machine exactly as it found it.
#[derive(Clone, Copy, Debug, PartialEq, Eq, Structural)]
pub enum Fault {
    /// The fetched word matches no instruction encoding. Carries the word.
    Decode(u16),
    /// A call was made with the call stack at its maximum depth.
    StackOverflow,
    /// A return was made with no active call frame.
    StackUnderflow,
    /// A memory access would fall outside the address space, or a store
    /// would overwrite the built-in font.
    AddressViolation,
}

} // verus!
