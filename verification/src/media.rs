//! Uploaded files attached to items.

use vstd::prelude::*;

verus! {

/// The file fields list pages render.
#[derive(Clone, Debug)]
pub struct SmallFile {
    pub id: i32,
    pub src: String,
    pub description: Option<String>,
}

/// A stored file: what it is attached to (`item_id` under the content-type
/// code `item_types`), its media kind `types`, and its own counters.
#[derive(Clone, Debug)]
pub struct File {
    pub id: i32,
    pub user_id: i32,
    pub item_id: i32,
    pub item_types: i16,
    pub types: i16,
    pub src: String,
    pub description: Option<String>,
    pub position: i16,
    pub view: i32,
    pub seconds: i32,
}

/// The insertable form of a file.
#[derive(Clone, Debug)]
pub struct NewFile {
    pub item_id: i32,
    pub user_id: i32,
    pub item_types: i16,
    pub types: i16,
    pub src: String,
    pub description: Option<String>,
    pub position: i16,
    pub view: i32,
    pub seconds: i32,
}

impl NewFile {
    /// A fresh attachment: no description, first position, zero counters.
    pub fn create(user_id: i32, item_id: i32, item_types: i16, types: i16, src: String) -> (r:
        Self)
        ensures
            r.user_id == user_id,
            r.item_id == item_id,
            r.item_types == item_types,
            r.types == types,
            r.src == src,
            r.description is None,
            r.position == 0,
            r.view == 0,
            r.seconds == 0,
    {
        NewFile {
            user_id,
            item_id,
            item_types,
            types,
            src,
            description: None,
            position: 0,
            view: 0,
            seconds: 0,
        }
    }
}

/// The fields a file can be edited through.
#[derive(Clone, Debug)]
pub struct EditFile {
    pub description: Option<String>,
    pub position: i16,
}

} // verus!
