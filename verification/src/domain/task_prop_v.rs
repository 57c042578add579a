//! The value a task or note gives to one property of its category.

use super::types::{copy_opt_value, PropValueType};
use crate::models::category::model::PropertyType;
use crate::oid::Oid;
use vstd::prelude::*;

verus! {

pub struct PropValueModel {
    pub prop_id: Oid,
    pub prop_name: String,
    pub values: Option<PropValueType>,
    pub prop_type: PropertyType,
}

impl PropValueModel {
    pub fn copy(&self) -> (r: Self)
        ensures
            r.prop_id.bytes@ == self.prop_id.bytes@,
            r.prop_name@ == self.prop_name@,
            r.values == self.values,
            r.prop_type == self.prop_type,
    {
        PropValueModel {
            prop_id: self.prop_id.copy(),
            prop_name: self.prop_name.clone(),
            values: copy_opt_value(&self.values),
            prop_type: self.prop_type,
        }
    }
}

/// Two property values hold the same content.
pub open spec fn same_prop_value(a: PropValueModel, b: PropValueModel) -> bool {
    &&& a.prop_id.bytes@ == b.prop_id.bytes@
    &&& a.prop_name@ == b.prop_name@
    &&& a.values == b.values
    &&& a.prop_type == b.prop_type
}

/// Copies a list of property values.
pub fn copy_prop_values(v: &Vec<PropValueModel>) -> (r: Vec<PropValueModel>)
    ensures
        r@.len() == v@.len(),
        forall|i: int| 0 <= i < v@.len() ==> same_prop_value(#[trigger] r@[i], v@[i]),
{
    let mut r: Vec<PropValueModel> = Vec::new();
    let mut i: usize = 0;
    while i < v.len()
        invariant
            0 <= i <= v.len(),
            r@.len() == i,
            forall|k: int| 0 <= k < i ==> same_prop_value(#[trigger] r@[k], v@[k]),
        decreases v.len() - i,
    {
        r.push(v[i].copy());
        i = i + 1;
    }
    r
}

} // verus!
