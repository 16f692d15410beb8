//! Chat messages: the one shape of theirs that is plain data.

use vstd::prelude::*;

verus! {

/// The fields a chat message can be edited through.
#[derive(Clone, Debug)]
pub struct EditMessage {
    pub content: Option<String>,
}

} // verus!
