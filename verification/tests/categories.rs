use tootodo::models::base::{DocField, FieldValue};
use tootodo::models::category::controller::CategoryBMC;
use tootodo::models::category::merge::props_to_move;
use tootodo::models::category::model::{
    prop_type_text, status_text, CategoryModel, PropertyModel, PropertyType, StatusType,
};
use tootodo::models::category::property::PropertyBMC;
use tootodo::models::category::schema::{
    CreateCategorySchema, UpdateCategorySchema, UpdatePropertySchema,
};
use tootodo::models::error::Error;
use tootodo::oid::Oid;

fn oid(text: &str) -> Oid {
    Oid::parse(text).unwrap()
}

fn strings(v: &[&str]) -> Vec<String> {
    v.iter().map(|s| s.to_string()).collect()
}

fn keys(fields: &[DocField]) -> Vec<String> {
    fields.iter().map(|f| f.key.clone()).collect()
}

fn text_of(f: &DocField) -> String {
    match &f.value {
        FieldValue::Text(t) => t.clone(),
        _ => panic!("not text"),
    }
}

fn prop(id: &str, name: &str, t: PropertyType, options: Option<&[&str]>) -> PropertyModel {
    PropertyModel::new(oid(id), name.to_string(), t, options.map(strings))
}

fn category(id: &str, name: &str, properties: Vec<PropertyModel>) -> CategoryModel {
    CategoryModel {
        id: oid(id),
        user: 7,
        name: name.to_string(),
        color: "#ffffff".to_string(),
        status: StatusType::InProgress,
        properties,
        createdAt: 1,
        updatedAt: 2,
    }
}

#[test]
fn options_only_for_select_types() {
    let p = prop("000000000000000000000001", "Tags", PropertyType::MultiSelect, Some(&["FE", "BE"]));
    assert_eq!(p.options, Some(strings(&["FE", "BE"])));
    let p = prop("000000000000000000000001", "Due", PropertyType::DateTime, Some(&["FE"]));
    assert_eq!(p.options, None);

    let mut p = prop("000000000000000000000001", "Kind", PropertyType::SingleSelect, Some(&["a"]));
    p.update("Note".to_string(), PropertyType::Text, Some(strings(&["b"])));
    assert_eq!(p.name, "Note");
    assert!(p.prop_type == PropertyType::Text);
    assert_eq!(p.options, None);
    assert_eq!(p.id.to_hex(), "000000000000000000000001");
    p.update("Kind".to_string(), PropertyType::SingleSelect, Some(strings(&["b", "c"])));
    assert_eq!(p.options, Some(strings(&["b", "c"])));
}

#[test]
fn stored_names() {
    assert_eq!(status_text(StatusType::InProgress), "InProgress");
    assert_eq!(status_text(StatusType::Archived), "Archived");
    assert_eq!(prop_type_text(PropertyType::MultiSelect), "MultiSelect");
    assert_eq!(prop_type_text(PropertyType::DateTime), "DateTime");
    assert_eq!(prop_type_text(PropertyType::Phone), "Phone");
}

#[test]
fn merge_moves_only_what_the_target_lacks() {
    let work = category(
        "0000000000000000000000a1",
        "Work",
        vec![
            prop("000000000000000000000001", "Tags", PropertyType::MultiSelect, Some(&["FE", "BE", "OP"])),
            prop("000000000000000000000002", "Deadline", PropertyType::DateTime, None),
        ],
    );
    let personal = category(
        "0000000000000000000000a2",
        "Personal",
        vec![
            prop("000000000000000000000003", "Tags", PropertyType::MultiSelect, Some(&["FE", "BE", "OP"])),
            prop("000000000000000000000004", "Summary", PropertyType::Text, None),
        ],
    );
    let moved = CategoryBMC::props_to_move(&work, &personal);
    assert_eq!(moved.len(), 1);
    assert_eq!(moved[0].name, "Deadline");
    assert_eq!(moved[0].id.to_hex(), "000000000000000000000002");
}

#[test]
fn merge_keeps_only_new_options_of_shared_names() {
    let target = vec![
        prop("000000000000000000000003", "Tags", PropertyType::MultiSelect, Some(&["FE"])),
        prop("000000000000000000000005", "Level", PropertyType::SingleSelect, Some(&["low"])),
    ];
    let to_move = vec![
        prop("000000000000000000000001", "Tags", PropertyType::MultiSelect, Some(&["FE", "BE", "low", "OP"])),
        prop("000000000000000000000002", "Notes", PropertyType::Text, None),
        prop("000000000000000000000006", "Level", PropertyType::SingleSelect, Some(&["low"])),
    ];
    let moved = props_to_move(to_move, &target);
    assert_eq!(moved.len(), 2);
    assert_eq!(moved[0].name, "Tags");
    assert_eq!(moved[0].options, Some(strings(&["BE", "OP"])));
    assert_eq!(moved[0].id.to_hex(), "000000000000000000000001");
    assert_eq!(moved[1].name, "Notes");

    // a shared name without options is dropped
    let target = vec![prop("000000000000000000000003", "Notes", PropertyType::Text, None)];
    let to_move = vec![prop("000000000000000000000002", "Notes", PropertyType::Text, None)];
    assert!(props_to_move(to_move, &target).is_empty());
}

#[test]
fn category_answer() {
    let c = category(
        "65a0c3e2f1d2c3b4a5968778",
        "Work",
        vec![prop("000000000000000000000001", "Tags", PropertyType::MultiSelect, Some(&["FE"]))],
    );
    let r = CategoryBMC::convert_doc_to_response(&c).ok().unwrap();
    assert_eq!(r.id, "65a0c3e2f1d2c3b4a5968778");
    assert_eq!(r.user, 7);
    assert_eq!(r.name, "Work");
    assert_eq!(r.color, "#ffffff");
    assert_eq!(r.properties.len(), 1);
    assert_eq!(r.properties[0].options, Some(strings(&["FE"])));
    assert_eq!(r.createdAt, 1);
    assert_eq!(r.updatedAt, 2);

    let single = CategoryBMC::single_response(r);
    assert_eq!(single.status, "success");
    assert_eq!(single.data.category.name, "Work");

    let r2 = CategoryBMC::convert_doc_to_response(&c).ok().unwrap();
    let list = CategoryBMC::list_response(vec![r2]);
    assert_eq!(list.status, "success");
    assert_eq!(list.results, 1);
    assert_eq!(CategoryBMC::coll_name(), "categories");
}

#[test]
fn new_category_document() {
    let body = CreateCategorySchema { name: "Work".to_string(), color: "#123456".to_string() };
    let d = CategoryBMC::create_doc_at(42, &body, 1000, oid("0000000000000000000000b1"));
    assert_eq!(keys(&d), vec!["user", "status", "createdAt", "updatedAt", "properties", "name", "color"]);
    assert!(matches!(d[0].value, FieldValue::User(42)));
    assert_eq!(text_of(&d[1]), "InProgress");
    assert!(matches!(d[2].value, FieldValue::Time(1000)));
    assert!(matches!(d[3].value, FieldValue::Time(1000)));
    match &d[4].value {
        FieldValue::Properties(ps) => {
            assert_eq!(ps.len(), 1);
            assert_eq!(ps[0].id.to_hex(), "0000000000000000000000b1");
            assert_eq!(ps[0].name, "Tags");
            assert!(ps[0].prop_type == PropertyType::MultiSelect);
            assert_eq!(ps[0].options, None);
        }
        _ => panic!("not a property list"),
    }
    assert_eq!(text_of(&d[5]), "Work");
    assert_eq!(text_of(&d[6]), "#123456");

    let d = CategoryBMC::create_doc(42, &body);
    assert_eq!(d.len(), 7);
    match (&d[2].value, &d[3].value) {
        (FieldValue::Time(a), FieldValue::Time(b)) => assert_eq!(a, b),
        _ => panic!("not times"),
    }
    match &d[4].value {
        FieldValue::Properties(ps) => assert_eq!(ps[0].name, "Tags"),
        _ => panic!("not a property list"),
    }
}

#[test]
fn category_update_sets_present_fields() {
    let u = UpdateCategorySchema { name: Some("Home".to_string()), color: None, status: Some(StatusType::Archived) };
    let f = u.set_fields();
    assert_eq!(keys(&f), vec!["name", "status"]);
    assert_eq!(text_of(&f[0]), "Home");
    assert_eq!(text_of(&f[1]), "Archived");
    let u = UpdateCategorySchema { name: None, color: None, status: None };
    assert!(u.set_fields().is_empty());
}

#[test]
fn property_update_paths() {
    let u = UpdatePropertySchema {
        name: Some("Stage".to_string()),
        prop_type: Some(PropertyType::SingleSelect),
        options: Some(strings(&["todo", "done"])),
    };
    let f = u.set_fields();
    assert_eq!(keys(&f), vec!["name", "prop_type", "options"]);
    assert_eq!(text_of(&f[1]), "SingleSelect");
    match &f[2].value {
        FieldValue::Texts(v) => assert_eq!(v, &strings(&["todo", "done"])),
        _ => panic!("not texts"),
    }

    let d = PropertyBMC::update_property_fields_at(&u, 5);
    assert_eq!(
        keys(&d),
        vec!["updatedAt", "properties.$[elem].name", "properties.$[elem].prop_type", "properties.$[elem].options"]
    );
    assert!(matches!(d[0].value, FieldValue::Time(5)));
    assert_eq!(PropertyBMC::arr_name(), "properties");
}

#[test]
fn property_lookup() {
    let props = vec![
        prop("000000000000000000000001", "Tags", PropertyType::MultiSelect, Some(&["FE"])),
        prop("000000000000000000000002", "Due", PropertyType::DateTime, None),
    ];
    let p = PropertyBMC::get_property(props, &oid("000000000000000000000002")).ok().unwrap();
    assert_eq!(p.name, "Due");
    let props = vec![prop("000000000000000000000001", "Tags", PropertyType::MultiSelect, None)];
    match PropertyBMC::get_property(props, &oid("000000000000000000000009")) {
        Err(Error::NotFoundError(t)) => assert_eq!(t, "000000000000000000000009"),
        _ => panic!("expected not found"),
    }
}

#[test]
fn merging_again_moves_nothing() {
    let target = vec![prop("000000000000000000000003", "Tags", PropertyType::MultiSelect, Some(&["FE"]))];
    let to_move = vec![
        prop("000000000000000000000001", "Tags", PropertyType::MultiSelect, Some(&["FE", "BE"])),
        prop("000000000000000000000002", "Notes", PropertyType::Text, None),
    ];
    let moved = props_to_move(to_move, &target);
    assert_eq!(moved.len(), 2);
    let mut target2 = target;
    target2.extend(moved);
    let again = vec![
        prop("000000000000000000000001", "Tags", PropertyType::MultiSelect, Some(&["FE", "BE"])),
        prop("000000000000000000000002", "Notes", PropertyType::Text, None),
    ];
    assert!(props_to_move(again, &target2).is_empty());
}
