//! Requests and answers about the properties of a category.

use crate::models::category::model::{PropertyModel, PropertyType};
use crate::oid::hex_lower;
use crate::text::{clone_opt_texts, opt_texts_view};
use vstd::prelude::*;

verus! {

pub struct CreatePropertyReq {
    pub name: String,
    pub prop_type: PropertyType,
}

/// A change to a property: absent fields stay as they are.
pub struct UpdatePropertyReq {
    pub name: Option<String>,
    pub prop_type: Option<PropertyType>,
    pub options: Option<Vec<String>>,
}

pub struct FilterPropertyReq {
    pub prop_type: Option<PropertyType>,
}

pub struct PropertyRes {
    pub id: String,
    pub name: String,
    pub prop_type: PropertyType,
    pub options: Option<Vec<String>>,
}

impl PropertyRes {
    /// What the service answers of a property: its identifier as text, and its fields.
    pub fn from_model(prop: &PropertyModel) -> (r: Self)
        ensures
            r.id@ == hex_lower(prop.id.bytes@),
            r.name@ == prop.name@,
            r.prop_type == prop.prop_type,
            opt_texts_view(r.options) == opt_texts_view(prop.options),
    {
        PropertyRes {
            id: prop.id.to_hex(),
            name: prop.name.clone(),
            prop_type: prop.prop_type,
            options: clone_opt_texts(&prop.options),
        }
    }
}

pub struct PropertyData {
    pub prop: PropertyRes,
}

pub struct SinglePropertyRes {
    pub status: &'static str,
    pub data: PropertyData,
}

pub struct PropertyListRes {
    pub status: &'static str,
    pub results: usize,
    pub props: Vec<PropertyRes>,
}

} // verus!
