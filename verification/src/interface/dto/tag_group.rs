//! Requests about tag groups.

use crate::domain::records::TagGroupModel;
use crate::oid::{u128_be_bytes, uuid_hyphenated, uuid_to_string};
use vstd::prelude::*;

verus! {

pub struct CreateTagGroupReq {
    pub name: String,
    pub color: String,
}

pub struct UpdateTagGroupReq {
    pub name: Option<String>,
    pub color: Option<String>,
}

pub struct TagGroupRes {
    pub id: String,
    pub user: u128,
    pub name: String,
    pub color: String,
    pub tags: Option<Vec<String>>,
}

impl TagGroupRes {
    /// What the service answers of a tag group: its identifier in UUID text
    /// form, its fields, and no tags.
    pub fn from_entity(tag_group: &TagGroupModel) -> (r: Self)
        ensures
            r.id@ == uuid_hyphenated(u128_be_bytes(tag_group.id)),
            r.user == tag_group.user,
            r.name@ == tag_group.name@,
            r.color@ == tag_group.color@,
            r.tags is None,
    {
        TagGroupRes {
            id: uuid_to_string(tag_group.id),
            user: tag_group.user,
            name: tag_group.name.clone(),
            color: tag_group.color.clone(),
            tags: None,
        }
    }
}

/// A search among the tag groups of a user.
pub struct FilterTagGroupReq {
    pub user: u128,
    pub name: Option<String>,
    pub color: Option<String>,
}

pub struct TagGroupData {
    pub tag_group: TagGroupRes,
}

pub struct SingleTagGroupRes {
    pub status: &'static str,
    pub data: TagGroupData,
}

pub struct TagGroupListRes {
    pub status: &'static str,
    pub results: usize,
    pub tag_groups: Vec<TagGroupRes>,
}

} // verus!
