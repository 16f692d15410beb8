//! Custom-service orders and their attached files.

use vstd::prelude::*;

verus! {

/// The fields an order can be edited through.
#[derive(Clone, Debug)]
pub struct EditOrder {
    pub username: String,
    pub email: String,
    pub description: Option<String>,
}

/// A file attached to an order.
#[derive(Clone, Debug)]
pub struct OrderFile {
    pub id: i32,
    pub order_id: i32,
    pub src: String,
}

/// The insertable form of an order file.
#[derive(Clone, Debug)]
pub struct NewOrderFile {
    pub order_id: i32,
    pub src: String,
}

impl NewOrderFile {
    pub fn create(order_id: i32, src: String) -> (r: Self)
        ensures
            r.order_id == order_id,
            r.src == src,
    {
        NewOrderFile { order_id, src }
    }
}

} // verus!
