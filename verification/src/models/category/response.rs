//! What the service answers about categories.

use super::model::PropertyModel;
use vstd::prelude::*;

verus! {

pub struct GenericResponse {
    pub status: String,
    pub message: String,
}

#[allow(non_snake_case)]
pub struct CategoryResponse {
    /// The category's identifier as 24 lower-case hexadecimal digits.
    pub id: String,
    pub user: u128,
    pub name: String,
    pub color: String,
    pub properties: Vec<PropertyModel>,
    pub createdAt: i64,
    pub updatedAt: i64,
}

pub struct CategoryData {
    pub category: CategoryResponse,
}

pub struct SingleCategoryResponse {
    pub status: &'static str,
    pub data: CategoryData,
}

pub struct CategoryListResponse {
    pub status: &'static str,
    pub results: usize,
    pub categories: Vec<CategoryResponse>,
}

} // verus!
