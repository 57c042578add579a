//! The rules of the habit service that lie between its database calls.
//! Habits live in the `habits` collection.

use super::model::HabitModel;
use super::response::{HabitData, HabitListResponse, HabitResponse, SingleHabitResponse};
use super::schema::CreateHabitSchema;
use crate::clock::utc_now_millis;
use crate::models::base::{lemma_value_at_concat, lemma_value_at_empty, lemma_value_at_push, value_at, fields_view, push_field, DocField, FieldValue, ValueView};
use crate::models::error::Error;
use crate::oid::hex_lower;
use vstd::prelude::*;

verus! {

pub struct HabitBMC;

/// The entries of a new habit's document, in order: a habit starts in progress.
pub open spec fn new_habit_fields(user: u128, body: CreateHabitSchema, now: i64) -> Seq<(Seq<char>, ValueView)> {
    seq![
        ("user"@, ValueView::User(user)),
        ("status"@, ValueView::Text("InProgress"@)),
        ("createdAt"@, ValueView::Time(now)),
        ("updatedAt"@, ValueView::Time(now)),
        ("name"@, ValueView::Text(body.name@)),
        ("icon"@, ValueView::Text(body.icon@)),
    ]
}

/// A new habit's document: the owner, "InProgress", both times as `now`,
/// and the client's name and icon under their own names.
pub proof fn lemma_new_habit_document(user: u128, body: CreateHabitSchema, now: i64)
    ensures
        value_at(new_habit_fields(user, body, now), "user"@) == Some(ValueView::User(user)),
        value_at(new_habit_fields(user, body, now), "status"@) == Some(ValueView::Text("InProgress"@)),
        value_at(new_habit_fields(user, body, now), "createdAt"@) == Some(ValueView::Time(now)),
        value_at(new_habit_fields(user, body, now), "updatedAt"@) == Some(ValueView::Time(now)),
        value_at(new_habit_fields(user, body, now), "name"@) == Some(ValueView::Text(body.name@)),
        value_at(new_habit_fields(user, body, now), "icon"@) == Some(ValueView::Text(body.icon@)),
{
    broadcast use lemma_value_at_concat, lemma_value_at_push, lemma_value_at_empty;
    reveal_strlit("user");
    reveal_strlit("status");
    reveal_strlit("createdAt");
    reveal_strlit("updatedAt");
    reveal_strlit("name");
    reveal_strlit("icon");
    assert("user"@.len() == 4 && "user"@[0] == 'u' && "user"@[1] == 's');
    assert("status"@.len() == 6 && "status"@[0] == 's' && "status"@[1] == 't');
    assert("createdAt"@.len() == 9 && "createdAt"@[0] == 'c' && "createdAt"@[1] == 'r');
    assert("updatedAt"@.len() == 9 && "updatedAt"@[0] == 'u' && "updatedAt"@[1] == 'p');
    assert("name"@.len() == 4 && "name"@[0] == 'n' && "name"@[1] == 'a');
    assert("icon"@.len() == 4 && "icon"@[0] == 'i' && "icon"@[1] == 'c');
    reveal_with_fuel(value_at, 12);
}

impl HabitBMC {
    pub fn coll_name() -> (r: &'static str)
        ensures
            r@ == "habits"@,
    {
        "habits"
    }

    /// The answer that shows a stored habit: its identifier as text, and its fields.
    pub fn convert_doc_to_response(habit: &HabitModel) -> (r: Result<HabitResponse, Error>)
        ensures
            r matches Ok(h) && {
                &&& h.id@ == hex_lower(habit.id.bytes@)
                &&& h.user == habit.user
                &&& h.name@ == habit.name@
                &&& h.icon@ == habit.icon@
                &&& h.status == habit.status
                &&& h.createdAt == habit.createdAt
                &&& h.updatedAt == habit.updatedAt
            },
    {
        Ok(HabitResponse {
            user: habit.user,
            id: habit.id.to_hex(),
            name: habit.name.clone(),
            icon: habit.icon.clone(),
            status: habit.status,
            createdAt: habit.createdAt,
            updatedAt: habit.updatedAt,
        })
    }

    /// The document of a new habit of `user` made at time `now`.
    pub fn create_doc_at(user: u128, body: &CreateHabitSchema, now: i64) -> (r: Vec<DocField>)
        ensures
            fields_view(r@) == new_habit_fields(user, *body, now),
    {
        let mut r: Vec<DocField> = Vec::new();
        push_field(&mut r, "user", FieldValue::User(user));
        push_field(&mut r, "status", FieldValue::Text(String::from_str("InProgress")));
        push_field(&mut r, "createdAt", FieldValue::Time(now));
        push_field(&mut r, "updatedAt", FieldValue::Time(now));
        push_field(&mut r, "name", FieldValue::Text(body.name.clone()));
        push_field(&mut r, "icon", FieldValue::Text(body.icon.clone()));
        assert(fields_view(r@) =~= new_habit_fields(user, *body, now));
        r
    }

    /// The document of a new habit of `user`, made now.
    pub fn create_doc(user: u128, body: &CreateHabitSchema) -> (r: Vec<DocField>)
        ensures
            exists|now: i64| fields_view(r@) == new_habit_fields(user, *body, now),
    {
        Self::create_doc_at(user, body, utc_now_millis())
    }

    pub fn single_response(habit: HabitResponse) -> (r: SingleHabitResponse)
        ensures
            r.status@ == "success"@,
            r.data.habit == habit,
    {
        SingleHabitResponse { status: "success", data: HabitData { habit } }
    }

    pub fn list_response(habits: Vec<HabitResponse>) -> (r: HabitListResponse)
        ensures
            r.status@ == "success"@,
            r.results == habits.len(),
            r.habits == habits,
    {
        HabitListResponse { status: "success", results: habits.len(), habits }
    }
}

} // verus!
