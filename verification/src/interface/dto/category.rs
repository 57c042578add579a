//! Requests about categories.

use crate::models::category::model::{clone_props, props_view, CategoryModel, PropertyModel, StatusType};
use crate::oid::hex_lower;
use vstd::prelude::*;

verus! {

pub struct CreateCategoryReq {
    pub name: String,
    pub color: String,
}

/// A change to a category: absent fields stay as they are.
pub struct UpdateCategoryReq {
    pub name: Option<String>,
    pub color: Option<String>,
}

#[allow(non_snake_case)]
pub struct CategoryRes {
    pub id: String,
    pub user: u128,
    pub name: String,
    pub color: String,
    pub status: StatusType,
    pub props: Vec<PropertyModel>,
    pub createdAt: i64,
    pub updatedAt: i64,
}

impl CategoryRes {
    /// What the service answers of a category: its identifier as text, and its fields.
    pub fn from_model(category: &CategoryModel) -> (r: Self)
        ensures
            r.id@ == hex_lower(category.id.bytes@),
            r.user == category.user,
            r.name@ == category.name@,
            r.color@ == category.color@,
            r.status == category.status,
            props_view(r.props@) == props_view(category.properties@),
            r.createdAt == category.createdAt,
            r.updatedAt == category.updatedAt,
    {
        CategoryRes {
            id: category.id.to_hex(),
            user: category.user,
            name: category.name.clone(),
            color: category.color.clone(),
            props: clone_props(&category.properties),
            createdAt: category.createdAt,
            updatedAt: category.updatedAt,
            status: category.status,
        }
    }
}

/// A search among the categories of a user.
pub struct FilterCategoryReq {
    pub user: u128,
    pub name: Option<String>,
}

pub struct CategoryData {
    pub category: CategoryRes,
}

pub struct SingleCategoryRes {
    pub status: &'static str,
    pub data: CategoryData,
}

pub struct CategoryListRes {
    pub status: &'static str,
    pub results: usize,
    pub categories: Vec<CategoryRes>,
}

} // verus!
