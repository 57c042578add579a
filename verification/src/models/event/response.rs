//! What the service answers about events.

use crate::models::chat::model::{ChatType, MsgModel};
use vstd::prelude::*;

verus! {

pub struct GenericResponse {
    pub status: String,
    pub message: String,
}

#[allow(non_snake_case)]
pub struct EventResponse {
    pub id: String,
    pub user: u128,
    pub title: String,
    pub complete: bool,
    pub chat_type: ChatType,
    pub chat_msgs: Option<Vec<MsgModel>>,
    pub start_date: Option<i32>,
    pub due_at: Option<i64>,
    pub location: Option<String>,
    pub createdAt: i64,
    pub updatedAt: i64,
}

pub struct EventData {
    pub event: EventResponse,
}

pub struct SingleEventResponse {
    pub status: &'static str,
    pub data: EventData,
}

pub struct EventListResponse {
    pub status: &'static str,
    pub results: usize,
    pub events: Vec<EventResponse>,
}

} // verus!
