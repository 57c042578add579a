//! The rules of the event service that lie between its database calls.
//! Events live in the `events` collection.

use super::model::EventModel;
use super::response::{EventData, EventListResponse, EventResponse, SingleEventResponse};
use super::schema::CreateEventSchema;
use crate::clock::utc_now_millis;
use crate::models::base::{lemma_value_at_concat, lemma_value_at_empty, lemma_value_at_push, value_at, fields_view, opt_date, opt_instant, opt_text_entry, opt_value_entry, push_field, push_opt, push_opt_text, DocField, FieldValue, ValueView};
use crate::models::chat::model::{copy_msgs, same_msgs, MsgModel};
use crate::text::{clone_opt_text, opt_text_view};
use crate::models::error::Error;
use crate::oid::hex_lower;
use vstd::prelude::*;

verus! {

pub struct EventBMC;

/// The entries of a new event's document, in order: an event starts
/// incomplete, with an event chat, created and updated at `now`; then the
/// fields the client gave.
pub open spec fn new_event_fields(user: u128, body: CreateEventSchema, now: i64) -> Seq<(Seq<char>, ValueView)> {
    seq![
        ("user"@, ValueView::User(user)),
        ("complete"@, ValueView::Flag(false)),
        ("chat_type"@, ValueView::Text("Event"@)),
        ("createdAt"@, ValueView::Time(now)),
        ("updatedAt"@, ValueView::Time(now)),
        ("title"@, ValueView::Text(body.title@)),
    ]
        + opt_value_entry("start_date"@, match body.start_date { Some(d) => Some(FieldValue::Date(d)), None => None })
        + opt_value_entry("due_at"@, match body.due_at { Some(t) => Some(FieldValue::Instant(t)), None => None })
        + opt_text_entry("location"@, body.location)
}

/// A new event's document: the owner, not complete, an event chat, both
/// times as `now`, and each field the client gave under its own name with
/// its own value; a field the client left out is not written.
pub proof fn lemma_new_event_document(user: u128, body: CreateEventSchema, now: i64)
    ensures
        value_at(new_event_fields(user, body, now), "user"@) == Some(ValueView::User(user)),
        value_at(new_event_fields(user, body, now), "complete"@) == Some(ValueView::Flag(false)),
        value_at(new_event_fields(user, body, now), "chat_type"@) == Some(ValueView::Text("Event"@)),
        value_at(new_event_fields(user, body, now), "createdAt"@) == Some(ValueView::Time(now)),
        value_at(new_event_fields(user, body, now), "updatedAt"@) == Some(ValueView::Time(now)),
        value_at(new_event_fields(user, body, now), "title"@) == Some(ValueView::Text(body.title@)),
        value_at(new_event_fields(user, body, now), "start_date"@) == match body.start_date { Some(d) => Some(ValueView::Date(d)), None => None::<ValueView> },
        value_at(new_event_fields(user, body, now), "due_at"@) == match body.due_at { Some(t) => Some(ValueView::Instant(t)), None => None::<ValueView> },
        value_at(new_event_fields(user, body, now), "location"@) == match body.location { Some(l) => Some(ValueView::Text(l@)), None => None::<ValueView> },
{
    broadcast use lemma_value_at_concat, lemma_value_at_push, lemma_value_at_empty;
    reveal_strlit("user");
    reveal_strlit("complete");
    reveal_strlit("chat_type");
    reveal_strlit("createdAt");
    reveal_strlit("updatedAt");
    reveal_strlit("title");
    reveal_strlit("start_date");
    reveal_strlit("due_at");
    reveal_strlit("location");
    assert("user"@.len() == 4 && "user"@[0] == 'u' && "user"@[1] == 's');
    assert("complete"@.len() == 8 && "complete"@[0] == 'c' && "complete"@[1] == 'o');
    assert("chat_type"@.len() == 9 && "chat_type"@[0] == 'c' && "chat_type"@[1] == 'h');
    assert("createdAt"@.len() == 9 && "createdAt"@[0] == 'c' && "createdAt"@[1] == 'r');
    assert("updatedAt"@.len() == 9 && "updatedAt"@[0] == 'u' && "updatedAt"@[1] == 'p');
    assert("title"@.len() == 5 && "title"@[0] == 't' && "title"@[1] == 'i');
    assert("start_date"@.len() == 10 && "start_date"@[0] == 's' && "start_date"@[1] == 't');
    assert("due_at"@.len() == 6 && "due_at"@[0] == 'd' && "due_at"@[1] == 'u');
    assert("location"@.len() == 8 && "location"@[0] == 'l' && "location"@[1] == 'o');
    reveal_strlit("Event");
    reveal_with_fuel(value_at, 12);
}

impl EventBMC {
    pub fn coll_name() -> (r: &'static str)
        ensures
            r@ == "events"@,
    {
        "events"
    }

    /// The answer that shows a stored event: its identifier as text, and its fields.
    pub fn convert_doc_to_response(event: &EventModel) -> (r: Result<EventResponse, Error>)
        ensures
            r matches Ok(e) && {
                &&& e.id@ == hex_lower(event.id.bytes@)
                &&& e.user == event.user
                &&& e.title@ == event.title@
                &&& e.complete == event.complete
                &&& e.start_date == event.start_date
                &&& e.due_at == event.due_at
                &&& opt_text_view(e.location) == opt_text_view(event.location)
                &&& e.chat_type == event.chat_type
                &&& same_msgs(e.chat_msgs, event.chat_msgs)
                &&& e.createdAt == event.createdAt
                &&& e.updatedAt == event.updatedAt
            },
    {
        Ok(EventResponse {
            user: event.user,
            id: event.id.to_hex(),
            title: event.title.clone(),
            complete: event.complete,
            start_date: event.start_date,
            due_at: event.due_at,
            location: clone_opt_text(&event.location),
            chat_type: event.chat_type,
            chat_msgs: copy_msgs(&event.chat_msgs),
            createdAt: event.createdAt,
            updatedAt: event.updatedAt,
        })
    }

    /// The document of a new event of `user` made at time `now`.
    pub fn create_doc_at(user: u128, body: &CreateEventSchema, now: i64) -> (r: Vec<DocField>)
        ensures
            fields_view(r@) == new_event_fields(user, *body, now),
    {
        let mut r: Vec<DocField> = Vec::new();
        push_field(&mut r, "user", FieldValue::User(user));
        push_field(&mut r, "complete", FieldValue::Flag(false));
        push_field(&mut r, "chat_type", FieldValue::Text(String::from_str("Event")));
        push_field(&mut r, "createdAt", FieldValue::Time(now));
        push_field(&mut r, "updatedAt", FieldValue::Time(now));
        push_field(&mut r, "title", FieldValue::Text(body.title.clone()));
        push_opt(&mut r, "start_date", opt_date(body.start_date));
        push_opt(&mut r, "due_at", opt_instant(body.due_at));
        push_opt_text(&mut r, "location", &body.location);
        assert(fields_view(r@) =~= new_event_fields(user, *body, now));
        r
    }

    /// The document of a new event of `user`, made now.
    pub fn create_doc(user: u128, body: &CreateEventSchema) -> (r: Vec<DocField>)
        ensures
            exists|now: i64| fields_view(r@) == new_event_fields(user, *body, now),
    {
        Self::create_doc_at(user, body, utc_now_millis())
    }

    /// The chat messages of an event; an event without a chat has none.
    pub fn msgs(event: &EventModel) -> (r: Vec<MsgModel>)
        ensures
            match event.chat_msgs {
                Some(_) => same_msgs(Some(r), event.chat_msgs),
                None => r@.len() == 0,
            },
    {
        match copy_msgs(&event.chat_msgs) {
            Some(v) => v,
            None => Vec::new(),
        }
    }

    pub fn single_response(event: EventResponse) -> (r: SingleEventResponse)
        ensures
            r.status@ == "success"@,
            r.data.event == event,
    {
        SingleEventResponse { status: "success", data: EventData { event } }
    }

    pub fn list_response(events: Vec<EventResponse>) -> (r: EventListResponse)
        ensures
            r.status@ == "success"@,
            r.results == events.len(),
            r.events == events,
    {
        EventListResponse { status: "success", results: events.len(), events }
    }
}

} // verus!
