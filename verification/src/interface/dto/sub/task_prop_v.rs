//! Requests and answers about the property values of a task.

use crate::domain::task_prop_v::PropValueModel;
use crate::domain::types::{copy_opt_value, PropValueType};
use crate::models::category::model::PropertyType;
use crate::oid::hex_lower;
use vstd::prelude::*;

verus! {

pub struct CreatePropValueReq {
    pub prop_id: String,
    pub prop_name: String,
    pub value: PropValueType,
    pub prop_type: PropertyType,
}

/// A change to a property value: absent fields stay as they are.
pub struct UpdatePropValueReq {
    pub name: Option<String>,
    pub values: Option<Vec<PropValueType>>,
    pub prop_type: Option<PropertyType>,
}

pub struct PropValueRes {
    pub id: String,
    pub prop_name: String,
    pub value: Option<PropValueType>,
    pub prop_type: PropertyType,
}

impl PropValueRes {
    /// What the service answers of a property value: the property's identifier as text, and its fields.
    #[allow(non_snake_case)]
    pub fn from_model(propV: &PropValueModel) -> (r: Self)
        ensures
            r.id@ == hex_lower(propV.prop_id.bytes@),
            r.prop_name@ == propV.prop_name@,
            r.value == propV.values,
            r.prop_type == propV.prop_type,
    {
        PropValueRes {
            id: propV.prop_id.to_hex(),
            prop_name: propV.prop_name.clone(),
            value: copy_opt_value(&propV.values),
            prop_type: propV.prop_type,
        }
    }
}

#[allow(non_snake_case)]
pub struct PropValueData {
    pub propV: PropValueRes,
}

pub struct SinglePropValueRes {
    pub status: &'static str,
    pub data: PropValueData,
}

#[allow(non_snake_case)]
pub struct PropValueListRes {
    pub status: &'static str,
    pub results: usize,
    pub propVs: Vec<PropValueRes>,
}

} // verus!
