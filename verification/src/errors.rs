//! The error taxonomy of the propagation library.

use vstd::prelude::*;

verus! {

/// Every failure the library can report.
///
/// `IntegratingError` means the stepper could not advance (an invalid step
/// size or interval); `FileWritingError` means the output collaborator
/// failed, which includes asking for results before a successful
/// propagation; `EnvVariableError` means a configuration value was missing
/// or malformed; `InputError` means the initial state was malformed.
#[derive(Debug, PartialEq)]
pub enum PropagatorError {
    IntegratingError(String),
    FileWritingError(String),
    EnvVariableError(String),
    InputError(String),
}

impl PropagatorError {
    /// The human-readable message carried by the error, whichever kind it is.
    pub open spec fn spec_message(self) -> Seq<char> {
        match self {
            PropagatorError::IntegratingError(s) => s@,
            PropagatorError::FileWritingError(s) => s@,
            PropagatorError::EnvVariableError(s) => s@,
            PropagatorError::InputError(s) => s@,
        }
    }

    /// Returns the carried message.
    pub fn message(&self) -> (r: &String)
        ensures
            r@ == self.spec_message(),
    {
        match self {
            PropagatorError::IntegratingError(s) => s,
            PropagatorError::FileWritingError(s) => s,
            PropagatorError::EnvVariableError(s) => s,
            PropagatorError::InputError(s) => s,
        }
    }
}

} // verus!
