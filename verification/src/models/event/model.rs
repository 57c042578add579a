//! Events: things that happen on a day, with a chat attached.

use crate::models::chat::model::{ChatType, MsgModel};
use crate::oid::Oid;
use vstd::prelude::*;

verus! {

#[allow(non_snake_case)]
pub struct EventModel {
    pub id: Oid,
    pub user: u128,
    pub title: String,
    pub complete: bool,
    /// Days from the common era (day 1 is 0001-01-01).
    pub start_date: Option<i32>,
    /// Milliseconds since the Unix epoch.
    pub due_at: Option<i64>,
    pub location: Option<String>,
    pub chat_type: ChatType,
    pub chat_msgs: Option<Vec<MsgModel>>,
    pub createdAt: i64,
    pub updatedAt: i64,
}

} // verus!
