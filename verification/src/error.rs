//! Errors reported by the control pipe, the descriptor writers and classes.

use vstd::prelude::*;

verus! {

/// A failure that a caller is expected to handle; none of them is fatal to
/// the stack.
#[derive(Clone, Copy, Debug, PartialEq, Eq, Structural)]
pub enum UsbError {
    /// The addressed interface does not belong to the class that was asked.
    /// A dispatcher treats it as "ask the next class".
    InvalidInterface,
    /// The interface belongs to the class, but it has no such alternate
    /// setting. The control transfer that asked for it is to be stalled.
    InvalidAlternateSetting,
    /// More bytes were supplied than the receiving buffer can hold. Nothing
    /// was written and nothing changed state.
    BufferOverflow,
}

impl UsbError {
    /// Whether a class answered "not mine", so that the next class is asked.
    pub open spec fn passes_on(self) -> bool {
        self == UsbError::InvalidInterface
    }

    /// Whether this error means "not my interface": the one error after which
    /// a single-responder walk goes on to the next class.
    pub fn is_pass_through(&self) -> (pass: bool)
        ensures
            pass == self.passes_on(),
    {
        match self {
            UsbError::InvalidInterface => true,
            UsbError::InvalidAlternateSetting => false,
            UsbError::BufferOverflow => false,
        }
    }
}

} // verus!
