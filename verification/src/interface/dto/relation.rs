//! Requests that relate tags to tag groups.

use vstd::prelude::*;

verus! {

/// Puts a tag into a group (both identified by UUIDs held as 128-bit numbers).
pub struct CreateTagRelationReq {
    pub tag_id: u128,
    pub group_id: u128,
}

} // verus!
