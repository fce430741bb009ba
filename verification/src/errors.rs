//! The failure taxonomy of the automation core.

use vstd::prelude::*;

verus! {

/// Which argument an `InvalidArgument` failure complains about; each site
/// carries its own human-readable reason.
#[derive(Clone, Copy, Debug, PartialEq, Eq, Structural)]
pub enum InvalidInput {
    /// A mouse toggle was asked for a state outside `"down"` / `"up"`.
    MouseToggleState,
    /// A key toggle was asked for a state outside `"down"` / `"up"`.
    KeyToggleState,
    /// A unicode tap was asked to send the first character of an empty
    /// string.
    UnicodeInput,
}

/// A typed failure. Every operation either succeeds or returns one of these
/// to its immediate caller; nothing is retried or swallowed.
#[derive(Clone, Copy, Debug, PartialEq, Eq, Structural)]
pub enum RobotError {
    /// A malformed toggle-state string or empty unicode input, detected
    /// before any backend call is planned.
    InvalidArgument(InvalidInput),
    /// A sampled coordinate outside the captured buffer's extent.
    OutOfBounds,
    /// Display enumeration or capture failed at the OS boundary, or a frame
    /// came back with the wrong byte count.
    BackendUnavailable,
}

/// The reason string carried by each failure.
pub open spec fn spec_reason(e: RobotError) -> Seq<char> {
    match e {
        RobotError::InvalidArgument(InvalidInput::MouseToggleState) => {
            "Invalid mouse button state specified."@
        },
        RobotError::InvalidArgument(InvalidInput::KeyToggleState) => {
            "Invalid key state specified."@
        },
        RobotError::InvalidArgument(InvalidInput::UnicodeInput) => "Invalid unicode character"@,
        RobotError::OutOfBounds => "Coordinates out of bounds"@,
        RobotError::BackendUnavailable => "Screen backend unavailable"@,
    }
}

impl RobotError {
    /// A human-readable reason for the failure.
    pub fn reason(&self) -> (s: String)
        ensures
            s@ == spec_reason(*self),
    {
        match self {
            RobotError::InvalidArgument(InvalidInput::MouseToggleState) => {
                "Invalid mouse button state specified.".to_owned()
            },
            RobotError::InvalidArgument(InvalidInput::KeyToggleState) => {
                "Invalid key state specified.".to_owned()
            },
            RobotError::InvalidArgument(InvalidInput::UnicodeInput) => {
                "Invalid unicode character".to_owned()
            },
            RobotError::OutOfBounds => "Coordinates out of bounds".to_owned(),
            RobotError::BackendUnavailable => "Screen backend unavailable".to_owned(),
        }
    }
}

} // verus!
