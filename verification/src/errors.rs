//! Error taxonomy of the pipeline. Nothing on the enqueue-to-flush path ever
//! panics: failures degrade to a drop plus a diagnostic, and state errors are
//! surfaced as values.

use vstd::prelude::*;

verus! {

/// Why an event type string was rejected. Callers can distinguish the
/// reasons for diagnostics; the pipeline treats them all as "drop".
#[derive(Clone, Copy, Debug, PartialEq, Eq, Structural)]
pub enum ValidationError {
    /// Shorter than the minimal `a.b` form.
    TooShort,
    /// A character that is neither an ASCII letter nor the single `.`.
    BadCharacter,
    /// More than one `.`.
    MultipleDots,
    /// No `.` at all.
    MissingDot,
    /// The `.` is the first or the last character.
    DotAtEdge,
}

/// A session lifecycle operation was invalid in the current state.
/// Surfaced as a value, never as a panic.
#[derive(Clone, Copy, Debug, PartialEq, Eq, Structural)]
pub enum SessionStateError {
    /// The process-wide session start instant was already set.
    StartInstantAlreadySet,
}

impl ValidationError {
    /// A human-readable description of the rejection.
    pub fn message(&self) -> (msg: &'static str)
        ensures
            msg@ == self.message_spec(),
    {
        proof {
            reveal_strlit("Invalid event type: too short (expected 'a.b')");
            reveal_strlit("Invalid event type: only letters and a single '.' are allowed");
            reveal_strlit("Invalid event type: multiple '.' found");
            reveal_strlit("Invalid event type: must contain one '.'");
            reveal_strlit("Invalid event type: '.' cannot be the first or last character");
        }
        match self {
            ValidationError::TooShort => "Invalid event type: too short (expected 'a.b')",
            ValidationError::BadCharacter => {
                "Invalid event type: only letters and a single '.' are allowed"
            },
            ValidationError::MultipleDots => "Invalid event type: multiple '.' found",
            ValidationError::MissingDot => "Invalid event type: must contain one '.'",
            ValidationError::DotAtEdge => {
                "Invalid event type: '.' cannot be the first or last character"
            },
        }
    }

    /// The description returned by [`ValidationError::message`].
    pub open spec fn message_spec(&self) -> Seq<char> {
        match self {
            ValidationError::TooShort => "Invalid event type: too short (expected 'a.b')"@,
            ValidationError::BadCharacter => {
                "Invalid event type: only letters and a single '.' are allowed"@
            },
            ValidationError::MultipleDots => "Invalid event type: multiple '.' found"@,
            ValidationError::MissingDot => "Invalid event type: must contain one '.'"@,
            ValidationError::DotAtEdge => {
                "Invalid event type: '.' cannot be the first or last character"@
            },
        }
    }
}

} // verus!
