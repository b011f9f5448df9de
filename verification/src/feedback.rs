//! The user-feedback payload. Collecting and presenting feedback is a
//! concern of the embedding application's UI; this is the record it hands
//! to the transport.

use vstd::prelude::*;

verus! {

/// A piece of user feedback, ready for transmission.
#[derive(Debug)]
pub struct FeedbackPayload {
    /// What the user wrote.
    pub message: String,
    /// Milliseconds elapsed since the session started.
    pub elapsed_ms: u128,
    /// The prompt the user answered, if the panel asked one.
    pub question: Option<String>,
    /// The category the user picked.
    pub category: String,
}

impl FeedbackPayload {
    /// Assembles a feedback record.
    pub fn new(
        message: String,
        elapsed_ms: u128,
        question: Option<String>,
        category: String,
    ) -> (payload: FeedbackPayload)
        ensures
            payload.message == message,
            payload.elapsed_ms == elapsed_ms,
            payload.question == question,
            payload.category == category,
    {
        FeedbackPayload { message, elapsed_ms, question, category }
    }
}

} // verus!
