//! Requests about tags.

use crate::domain::records::TagModel;
use crate::oid::{u128_be_bytes, uuid_hyphenated, uuid_to_string};
use vstd::prelude::*;

verus! {

pub struct CreateTagReq {
    pub name: String,
}

pub struct UpdateTagReq {
    pub name: Option<String>,
}

pub struct TagRes {
    pub id: String,
    pub user: u128,
    pub name: String,
    pub groups: Option<Vec<(String, String)>>,
}

impl TagRes {
    /// What the service answers of a tag: its identifier in UUID text form, its
    /// fields, and no groups.
    pub fn from_entity(tag: &TagModel) -> (r: Self)
        ensures
            r.id@ == uuid_hyphenated(u128_be_bytes(tag.id)),
            r.user == tag.user,
            r.name@ == tag.name@,
            r.groups is None,
    {
        TagRes { id: uuid_to_string(tag.id), user: tag.user, name: tag.name.clone(), groups: None }
    }
}

/// A search among the tags of a user.
pub struct FilterTagReq {
    pub user: u128,
    pub name: Option<String>,
}

pub struct TagData {
    pub tag: TagRes,
}

pub struct SingleTagRes {
    pub status: &'static str,
    pub data: TagData,
}

pub struct TagListRes {
    pub status: &'static str,
    pub results: usize,
    pub tags: Vec<TagRes>,
}

} // verus!
