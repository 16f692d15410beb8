//! Feedback messages left by visitors.

use vstd::prelude::*;

verus! {

/// A stored feedback message.
#[derive(Clone, Debug)]
pub struct Feedback {
    pub id: i32,
    pub username: String,
    pub email: String,
    pub message: String,
}

/// The insertable form of a feedback message.
#[derive(Clone, Debug)]
pub struct NewFeedback {
    pub username: String,
    pub email: String,
    pub message: String,
}

} // verus!
