//! The failures that the engine reports to its host.

use vstd::prelude::*;

verus! {

/// Why an image was not loaded.
#[derive(Debug, Clone, Copy, PartialEq, Eq)]
pub enum LoadError {
    /// The image would reach past the end of memory or, for the interpreter
    /// image, past the region reserved for it.
    ImageTooLarge,
}

/// Why one instruction was not executed. The machine is left as it was.
#[derive(Debug, Clone, Copy, PartialEq, Eq)]
pub enum ExecError {
    /// The fetched word is no instruction of the machine.
    UnknownOpcode,
    /// A call with all stack levels in use.
    StackOverflow,
    /// A return with no call outstanding.
    StackUnderflow,
    /// A sprite that reaches past the right or bottom edge of the display.
    DisplayOutOfBounds,
}

} // verus!
