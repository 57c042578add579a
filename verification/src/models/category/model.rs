//! Categories and the properties they define for the notes filed under them.

use crate::oid::Oid;
use crate::text::{clone_opt_texts, opt_texts_view};
use vstd::prelude::*;

verus! {

#[derive(PartialEq, Eq, Structural, Clone, Copy)]
pub enum StatusType {
    InProgress,
    Archived,
}

#[derive(PartialEq, Eq, Structural, Clone, Copy)]
pub enum PropertyType {
    MultiSelect,
    SingleSelect,
    Text,
    Number,
    DateTime,
    File,
    Image,
    Link,
    Email,
    Phone,
    Location,
}

/// The name under which a status is stored.
pub open spec fn status_name(s: StatusType) -> Seq<char> {
    match s {
        StatusType::InProgress => "InProgress"@,
        StatusType::Archived => "Archived"@,
    }
}

/// Different statuses are stored under different names.
pub proof fn lemma_status_names_distinct(a: StatusType, b: StatusType)
    ensures
        a != b ==> status_name(a) != status_name(b),
{
    reveal_strlit("InProgress");
    reveal_strlit("Archived");
    assert("InProgress"@.len() == 10 && "InProgress"@[0] == 'I' && "InProgress"@[1] == 'n');
    assert("Archived"@.len() == 8 && "Archived"@[0] == 'A' && "Archived"@[1] == 'r');
}

pub fn status_text(s: StatusType) -> (r: String)
    ensures
        r@ == status_name(s),
{
    match s {
        StatusType::InProgress => String::from_str("InProgress"),
        StatusType::Archived => String::from_str("Archived"),
    }
}

/// The name under which a property type is stored.
pub open spec fn prop_type_name(t: PropertyType) -> Seq<char> {
    match t {
        PropertyType::MultiSelect => "MultiSelect"@,
        PropertyType::SingleSelect => "SingleSelect"@,
        PropertyType::Text => "Text"@,
        PropertyType::Number => "Number"@,
        PropertyType::DateTime => "DateTime"@,
        PropertyType::File => "File"@,
        PropertyType::Image => "Image"@,
        PropertyType::Link => "Link"@,
        PropertyType::Email => "Email"@,
        PropertyType::Phone => "Phone"@,
        PropertyType::Location => "Location"@,
    }
}

/// Different property types are stored under different names.
pub proof fn lemma_prop_type_names_distinct(a: PropertyType, b: PropertyType)
    ensures
        a != b ==> prop_type_name(a) != prop_type_name(b),
{
    reveal_strlit("MultiSelect");
    reveal_strlit("SingleSelect");
    reveal_strlit("Text");
    reveal_strlit("Number");
    reveal_strlit("DateTime");
    reveal_strlit("File");
    reveal_strlit("Image");
    reveal_strlit("Link");
    reveal_strlit("Email");
    reveal_strlit("Phone");
    reveal_strlit("Location");
    assert("MultiSelect"@.len() == 11 && "MultiSelect"@[0] == 'M' && "MultiSelect"@[1] == 'u');
    assert("SingleSelect"@.len() == 12 && "SingleSelect"@[0] == 'S' && "SingleSelect"@[1] == 'i');
    assert("Text"@.len() == 4 && "Text"@[0] == 'T' && "Text"@[1] == 'e');
    assert("Number"@.len() == 6 && "Number"@[0] == 'N' && "Number"@[1] == 'u');
    assert("DateTime"@.len() == 8 && "DateTime"@[0] == 'D' && "DateTime"@[1] == 'a');
    assert("File"@.len() == 4 && "File"@[0] == 'F' && "File"@[1] == 'i');
    assert("Image"@.len() == 5 && "Image"@[0] == 'I' && "Image"@[1] == 'm');
    assert("Link"@.len() == 4 && "Link"@[0] == 'L' && "Link"@[1] == 'i');
    assert("Email"@.len() == 5 && "Email"@[0] == 'E' && "Email"@[1] == 'm');
    assert("Phone"@.len() == 5 && "Phone"@[0] == 'P' && "Phone"@[1] == 'h');
    assert("Location"@.len() == 8 && "Location"@[0] == 'L' && "Location"@[1] == 'o');
}

pub fn prop_type_text(t: PropertyType) -> (r: String)
    ensures
        r@ == prop_type_name(t),
{
    match t {
        PropertyType::MultiSelect => String::from_str("MultiSelect"),
        PropertyType::SingleSelect => String::from_str("SingleSelect"),
        PropertyType::Text => String::from_str("Text"),
        PropertyType::Number => String::from_str("Number"),
        PropertyType::DateTime => String::from_str("DateTime"),
        PropertyType::File => String::from_str("File"),
        PropertyType::Image => String::from_str("Image"),
        PropertyType::Link => String::from_str("Link"),
        PropertyType::Email => String::from_str("Email"),
        PropertyType::Phone => String::from_str("Phone"),
        PropertyType::Location => String::from_str("Location"),
    }
}

/// Only the select types keep a list of options.
pub open spec fn is_select(t: PropertyType) -> bool {
    t == PropertyType::MultiSelect || t == PropertyType::SingleSelect
}

pub struct PropertyModel {
    pub id: Oid,
    pub name: String,
    pub prop_type: PropertyType,
    pub options: Option<Vec<String>>,
}

/// A property as plain values.
pub struct PropertyView {
    pub id: Seq<u8>,
    pub name: Seq<char>,
    pub prop_type: PropertyType,
    pub options: Option<Seq<Seq<char>>>,
}

impl View for PropertyModel {
    type V = PropertyView;

    open spec fn view(&self) -> PropertyView {
        PropertyView {
            id: self.id.bytes@,
            name: self.name@,
            prop_type: self.prop_type,
            options: opt_texts_view(self.options),
        }
    }
}

/// The properties of a list, as plain values.
pub open spec fn props_view(ps: Seq<PropertyModel>) -> Seq<PropertyView> {
    ps.map_values(|p: PropertyModel| p@)
}

/// The options a property of type `t` keeps of the options it is given.
pub open spec fn kept_options(t: PropertyType, options: Option<Seq<Seq<char>>>) -> Option<Seq<Seq<char>>> {
    if is_select(t) {
        options
    } else {
        None
    }
}

impl PropertyModel {
    /// A property; options are kept only for the select types.
    pub fn new(id: Oid, name: String, prop_type: PropertyType, options: Option<Vec<String>>) -> (p: Self)
        ensures
            p@ == (PropertyView { id: id.bytes@, name: name@, prop_type, options: kept_options(prop_type, opt_texts_view(options)) }),
            p.options is Some ==> is_select(p.prop_type),
    {
        let options = match prop_type {
            PropertyType::MultiSelect | PropertyType::SingleSelect => options,
            _ => None,
        };
        PropertyModel { id, name, prop_type, options }
    }

    /// Renames and retypes the property; options are kept only for the select types.
    pub fn update(&mut self, name: String, prop_type: PropertyType, options: Option<Vec<String>>)
        ensures
            final(self)@ == (PropertyView { id: old(self)@.id, name: name@, prop_type, options: kept_options(prop_type, opt_texts_view(options)) }),
            final(self).options is Some ==> is_select(final(self).prop_type),
    {
        self.name = name;
        self.prop_type = prop_type;
        self.options = match prop_type {
            PropertyType::MultiSelect | PropertyType::SingleSelect => options,
            _ => None,
        };
    }

    /// A copy of the property.
    pub fn copy(&self) -> (r: Self)
        ensures
            r@ == self@,
    {
        PropertyModel {
            id: self.id.copy(),
            name: self.name.clone(),
            prop_type: self.prop_type,
            options: clone_opt_texts(&self.options),
        }
    }
}

/// Copies a list of properties.
pub fn clone_props(ps: &Vec<PropertyModel>) -> (r: Vec<PropertyModel>)
    ensures
        props_view(r@) == props_view(ps@),
{
    let mut r: Vec<PropertyModel> = Vec::new();
    let mut i: usize = 0;
    while i < ps.len()
        invariant
            0 <= i <= ps.len(),
            r.len() == i,
            props_view(r@) == props_view(ps@).take(i as int),
        decreases ps.len() - i,
    {
        let c = ps[i].copy();
        let ghost old_r = r@;
        r.push(c);
        assert(r@ == old_r.push(c));
        assert forall|k: int| 0 <= k < i + 1 implies #[trigger] props_view(r@)[k] == props_view(ps@).take(i + 1)[k] by {
            if k < i {
                assert(r@[k] == old_r[k]);
                assert(props_view(old_r)[k] == props_view(ps@).take(i as int)[k]);
            }
        }
        assert(props_view(r@) =~= props_view(ps@).take(i + 1));
        i = i + 1;
    }
    assert(props_view(ps@).take(ps.len() as int) =~= props_view(ps@));
    r
}

#[allow(non_snake_case)]
pub struct CategoryModel {
    pub id: Oid,
    pub user: u128,
    pub name: String,
    pub color: String,
    pub status: StatusType,
    pub properties: Vec<PropertyModel>,
    /// Milliseconds since the Unix epoch.
    pub createdAt: i64,
    pub updatedAt: i64,
}

} // verus!
