//! The property service: properties are kept in the `properties` array of their category.

use super::model::{CategoryModel, PropertyModel};
use super::schema::{property_update_fields, UpdatePropertySchema};
use super::model::prop_type_name;
use crate::models::base::{lemma_value_at_concat, lemma_value_at_empty, lemma_value_at_push, opt_entry, opt_text_entry, value_at, ValueView};
use crate::text::texts_view;
use crate::clock::utc_now_millis;
use crate::models::base::{fields_view, DocField};
use crate::models::base_array::{elem_path, elem_update_fields, first_with_id, get_elem, lemma_elem_update, update_elem_fields, ArrayElem};
use crate::models::error::Error;
use crate::oid::{hex_lower, Oid};
use vstd::prelude::*;

verus! {

pub struct PropertyBMC;

/// Changing a property writes `updatedAt` as `now` and, under the path of
/// each field of the selected property, the value the change carries for it:
/// the new name as given, the type by its stored name, the options as given;
/// a field the change leaves out is not written.
pub proof fn lemma_property_update(u: UpdatePropertySchema, now: i64)
    ensures
        value_at(elem_update_fields("properties"@, property_update_fields(u), now), "updatedAt"@) == Some(ValueView::Time(now)),
        value_at(elem_update_fields("properties"@, property_update_fields(u), now), "properties.$[elem].name"@)
            == match u.name { Some(n) => Some(ValueView::Text(n@)), None => None::<ValueView> },
        value_at(elem_update_fields("properties"@, property_update_fields(u), now), "properties.$[elem].prop_type"@)
            == match u.prop_type { Some(t) => Some(ValueView::Text(prop_type_name(t))), None => None::<ValueView> },
        value_at(elem_update_fields("properties"@, property_update_fields(u), now), "properties.$[elem].options"@)
            == match u.options { Some(o) => Some(ValueView::Texts(texts_view(o@))), None => None::<ValueView> },
{
    broadcast use lemma_value_at_concat, lemma_value_at_push, lemma_value_at_empty;
    reveal_strlit("properties");
    reveal_strlit(".$[elem].");
    reveal_strlit("name");
    reveal_strlit("prop_type");
    reveal_strlit("options");
    reveal_strlit("properties.$[elem].name");
    reveal_strlit("properties.$[elem].prop_type");
    reveal_strlit("properties.$[elem].options");
    assert("name"@.len() == 4 && "prop_type"@.len() == 9 && "options"@.len() == 7 && "properties"@.len() == 10);
    let f = property_update_fields(u);
    lemma_elem_update("properties"@, f, now, "name"@);
    lemma_elem_update("properties"@, f, now, "prop_type"@);
    lemma_elem_update("properties"@, f, now, "options"@);
    assert(elem_path("properties"@, "name"@) =~= "properties.$[elem].name"@);
    assert(elem_path("properties"@, "prop_type"@) =~= "properties.$[elem].prop_type"@);
    assert(elem_path("properties"@, "options"@) =~= "properties.$[elem].options"@);
}

impl PropertyBMC {
    pub fn coll_name() -> (r: &'static str)
        ensures
            r@ == "categories"@,
    {
        "categories"
    }

    pub fn arr_name() -> (r: &'static str)
        ensures
            r@ == "properties"@,
    {
        "properties"
    }

    /// The property `prop_oid` of a category's properties; not found when it has none such.
    pub fn get_property(properties: Vec<PropertyModel>, prop_oid: &Oid) -> (r: Result<PropertyModel, Error>)
        ensures
            (exists|i: int| 0 <= i < properties@.len() && properties@[i].elem_id() == prop_oid.bytes@) ==>
                exists|i: int| first_with_id(properties@, prop_oid.bytes@, i) && r == Ok::<PropertyModel, Error>(properties@[i]),
            !(exists|i: int| 0 <= i < properties@.len() && properties@[i].elem_id() == prop_oid.bytes@) ==>
                (r matches Err(Error::NotFoundError(t)) && t@ == hex_lower(prop_oid.bytes@)),
    {
        get_elem(properties, prop_oid)
    }

    /// The properties of a category, as the property operations answer them.
    pub fn properties_of(category: CategoryModel) -> (r: Vec<PropertyModel>)
        ensures
            r == category.properties,
    {
        category.properties
    }

    /// The `$set` entries that change one property at time `now`.
    pub fn update_property_fields_at(new_prop: &UpdatePropertySchema, now: i64) -> (r: Vec<DocField>)
        ensures
            fields_view(r@) == elem_update_fields("properties"@, property_update_fields(*new_prop), now),
    {
        let fields = new_prop.set_fields();
        proof {
            reveal_strlit("name");
            reveal_strlit("prop_type");
            reveal_strlit("options");
            let fv = fields_view(fields@);
            let a = opt_text_entry("name"@, new_prop.name);
            let b = opt_entry("prop_type"@, match new_prop.prop_type { Some(p) => Some(ValueView::Text(prop_type_name(p))), None => None });
            let c = opt_entry("options"@, match &new_prop.options { Some(o) => Some(ValueView::Texts(texts_view(o@))), None => None });
            assert(fv == a + b + c);
            assert forall|k: int| 0 <= k < fv.len() implies
                (fv[k].0 == "name"@ && k == 0) || (fv[k].0 == "prop_type"@ && k == a.len()) || (fv[k].0 == "options"@ && k == a.len() + b.len()) by {
                if k < a.len() {
                    assert(fv[k] == a[k]);
                } else if k < a.len() + b.len() {
                    assert(fv[k] == b[k - a.len()]);
                } else {
                    assert(fv[k] == c[k - a.len() - b.len()]);
                }
            }
            assert forall|i: int, j: int| 0 <= i < j < fields@.len() implies (#[trigger] fields@[i]).key@ != (#[trigger] fields@[j]).key@ by {
                assert(fv[i].0 == fields@[i].key@);
                assert(fv[j].0 == fields@[j].key@);
            }
        }
        update_elem_fields("properties", fields, now)
    }
}

} // verus!
