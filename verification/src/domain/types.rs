//! Small enumerations shared by several records.

use vstd::prelude::*;

verus! {

/// The kind of item a weekly schedule slot refers to.
#[derive(PartialEq, Eq, Structural, Clone, Copy)]
pub enum ScheduleType {
    Task,
    Event,
    Habit,
}

/// The kind of content a block of a note holds.
#[derive(PartialEq, Eq, Structural, Clone, Copy)]
pub enum BlockType {
    Text,
    Heading,
    Todo,
    Code,
    Image,
    Link,
}

/// A value given to a property of a note or task.
#[derive(PartialEq, Eq)]
pub enum PropValueType {
    Text(String),
    Number(i64),
    Flag(bool),
    /// A calendar day, counted as days from the common era.
    Date(i32),
}

impl PropValueType {
    pub fn copy(&self) -> (r: Self)
        ensures
            r == *self,
    {
        match self {
            PropValueType::Text(t) => PropValueType::Text(t.clone()),
            PropValueType::Number(n) => PropValueType::Number(*n),
            PropValueType::Flag(b) => PropValueType::Flag(*b),
            PropValueType::Date(d) => PropValueType::Date(*d),
        }
    }
}

pub fn copy_opt_value(v: &Option<PropValueType>) -> (r: Option<PropValueType>)
    ensures
        r == *v,
{
    match v {
        Some(x) => Some(x.copy()),
        None => None,
    }
}

} // verus!
