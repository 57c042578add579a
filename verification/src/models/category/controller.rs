//! The rules of the category service that lie between its database calls.

use super::merge::{merge_spec, props_to_move};
use super::model::{clone_props, props_view, CategoryModel, PropertyModel, PropertyType, PropertyView};
use super::response::{CategoryData, CategoryListResponse, CategoryResponse, SingleCategoryResponse};
use super::schema::CreateCategorySchema;
use crate::clock::utc_now_millis;
use crate::models::base::{lemma_value_at_concat, lemma_value_at_empty, lemma_value_at_push, value_at, fields_view, push_field, DocField, FieldValue, ValueView};
use crate::models::error::Error;
use crate::oid::{hex_lower, object_id_new, Oid};
use vstd::prelude::*;

verus! {

/// The category service. Its records live in the `categories` collection.
pub struct CategoryBMC;

/// The entries of a new category's document, in order: the owner, the
/// status, the times, the default property list, then the client's fields.
pub open spec fn new_category_fields(user: u128, body: CreateCategorySchema, now: i64, tags_id: Seq<u8>) -> Seq<(Seq<char>, ValueView)> {
    seq![
        ("user"@, ValueView::User(user)),
        ("status"@, ValueView::Text("InProgress"@)),
        ("createdAt"@, ValueView::Time(now)),
        ("updatedAt"@, ValueView::Time(now)),
        ("properties"@, ValueView::Properties(seq![default_tags(tags_id)])),
        ("name"@, ValueView::Text(body.name@)),
        ("color"@, ValueView::Text(body.color@)),
    ]
}

/// The property every new category starts with: `Tags`, a multi-select
/// property without options yet.
pub open spec fn default_tags(id: Seq<u8>) -> PropertyView {
    PropertyView { id, name: "Tags"@, prop_type: PropertyType::MultiSelect, options: None }
}

/// A new category's document: the owner, "InProgress", both times as `now`,
/// the one default property (Tags, multi-select, no options, under
/// `tags_id`), and the client's name and colour under their own names.
pub proof fn lemma_new_category_document(user: u128, body: CreateCategorySchema, now: i64, tags_id: Seq<u8>)
    ensures
        value_at(new_category_fields(user, body, now, tags_id), "user"@) == Some(ValueView::User(user)),
        value_at(new_category_fields(user, body, now, tags_id), "status"@) == Some(ValueView::Text("InProgress"@)),
        value_at(new_category_fields(user, body, now, tags_id), "createdAt"@) == Some(ValueView::Time(now)),
        value_at(new_category_fields(user, body, now, tags_id), "updatedAt"@) == Some(ValueView::Time(now)),
        value_at(new_category_fields(user, body, now, tags_id), "properties"@) == Some(ValueView::Properties(seq![PropertyView { id: tags_id, name: "Tags"@, prop_type: PropertyType::MultiSelect, options: None }])),
        value_at(new_category_fields(user, body, now, tags_id), "name"@) == Some(ValueView::Text(body.name@)),
        value_at(new_category_fields(user, body, now, tags_id), "color"@) == Some(ValueView::Text(body.color@)),
{
    broadcast use lemma_value_at_concat, lemma_value_at_push, lemma_value_at_empty;
    reveal_strlit("user");
    reveal_strlit("status");
    reveal_strlit("createdAt");
    reveal_strlit("updatedAt");
    reveal_strlit("properties");
    reveal_strlit("name");
    reveal_strlit("color");
    assert("user"@.len() == 4 && "user"@[0] == 'u' && "user"@[1] == 's');
    assert("status"@.len() == 6 && "status"@[0] == 's' && "status"@[1] == 't');
    assert("createdAt"@.len() == 9 && "createdAt"@[0] == 'c' && "createdAt"@[1] == 'r');
    assert("updatedAt"@.len() == 9 && "updatedAt"@[0] == 'u' && "updatedAt"@[1] == 'p');
    assert("properties"@.len() == 10 && "properties"@[0] == 'p' && "properties"@[1] == 'r');
    assert("name"@.len() == 4 && "name"@[0] == 'n' && "name"@[1] == 'a');
    assert("color"@.len() == 5 && "color"@[0] == 'c' && "color"@[1] == 'o');
    reveal_with_fuel(value_at, 12);
}

impl CategoryBMC {
    pub fn coll_name() -> (r: &'static str)
        ensures
            r@ == "categories"@,
    {
        "categories"
    }

    /// The answer that shows a stored category: its identifier as text, and its fields.
    pub fn convert_doc_to_response(category: &CategoryModel) -> (r: Result<CategoryResponse, Error>)
        ensures
            r matches Ok(c) && {
                &&& c.id@ == hex_lower(category.id.bytes@)
                &&& c.user == category.user
                &&& c.name@ == category.name@
                &&& c.color@ == category.color@
                &&& props_view(c.properties@) == props_view(category.properties@)
                &&& c.createdAt == category.createdAt
                &&& c.updatedAt == category.updatedAt
            },
    {
        Ok(CategoryResponse {
            user: category.user,
            id: category.id.to_hex(),
            name: category.name.clone(),
            color: category.color.clone(),
            properties: clone_props(&category.properties),
            createdAt: category.createdAt,
            updatedAt: category.updatedAt,
        })
    }

    /// The document of a new category of `user` made at time `now`: a new
    /// category is in progress, and was created and updated at `now`.
    pub fn create_doc_at(user: u128, body: &CreateCategorySchema, now: i64, tags_id: Oid) -> (r: Vec<DocField>)
        ensures
            fields_view(r@) == new_category_fields(user, *body, now, tags_id.bytes@),
    {
        let ghost tid = tags_id.bytes@;
        let tags = PropertyModel::new(tags_id, String::from_str("Tags"), PropertyType::MultiSelect, None);
        let mut props: Vec<PropertyModel> = Vec::new();
        props.push(tags);
        proof {
            reveal_strlit("Tags");
            assert(props_view(props@) =~= seq![default_tags(tid)]);
        }
        let mut r: Vec<DocField> = Vec::new();
        push_field(&mut r, "user", FieldValue::User(user));
        push_field(&mut r, "status", FieldValue::Text(String::from_str("InProgress")));
        push_field(&mut r, "createdAt", FieldValue::Time(now));
        push_field(&mut r, "updatedAt", FieldValue::Time(now));
        push_field(&mut r, "properties", FieldValue::Properties(props));
        push_field(&mut r, "name", FieldValue::Text(body.name.clone()));
        push_field(&mut r, "color", FieldValue::Text(body.color.clone()));
        assert(fields_view(r@) =~= new_category_fields(user, *body, now, tid));
        r
    }

    /// The document of a new category of `user`, made now, its default
    /// property under a fresh identifier.
    pub fn create_doc(user: u128, body: &CreateCategorySchema) -> (r: Vec<DocField>)
        ensures
            exists|now: i64, tags_id: Seq<u8>| tags_id.len() == 12 && fields_view(r@) == new_category_fields(user, *body, now, tags_id),
    {
        let tags_id = object_id_new();
        Self::create_doc_at(user, body, utc_now_millis(), tags_id)
    }

    /// The answer that carries one category.
    pub fn single_response(category: CategoryResponse) -> (r: SingleCategoryResponse)
        ensures
            r.status@ == "success"@,
            r.data.category == category,
    {
        SingleCategoryResponse { status: "success", data: CategoryData { category } }
    }

    /// The answer that lists categories, with their count.
    pub fn list_response(categories: Vec<CategoryResponse>) -> (r: CategoryListResponse)
        ensures
            r.status@ == "success"@,
            r.results == categories.len(),
            r.categories == categories,
    {
        CategoryListResponse { status: "success", results: categories.len(), categories }
    }

    /// The properties that move from a category being deleted to the category
    /// that takes its place: see `merge_spec`.
    pub fn props_to_move(delete_category: &CategoryModel, target_category: &CategoryModel) -> (r: Vec<PropertyModel>)
        ensures
            props_view(r@) == merge_spec(props_view(delete_category.properties@), props_view(target_category.properties@)),
    {
        props_to_move(clone_props(&delete_category.properties), &target_category.properties)
    }
}

} // verus!
