use tootodo::db_error::Error as DbError;
use tootodo::models::base::{
    classify_insert_error, delete_result, field, parse_oid, resolve_find, skip_for_page,
    stamp_updated_at, DocField, FieldValue,
};
use tootodo::models::base_array::{get_elem, update_elem_fields};
use tootodo::models::category::model::{PropertyModel, PropertyType};
use tootodo::models::error::Error;
use tootodo::oid::Oid;

fn oid(text: &str) -> Oid {
    Oid::parse(text).unwrap()
}

fn keys(fields: &[DocField]) -> Vec<String> {
    fields.iter().map(|f| f.key.clone()).collect()
}

fn time_of(f: &DocField) -> i64 {
    match f.value {
        FieldValue::Time(t) => t,
        _ => panic!("not a time"),
    }
}

#[test]
fn page_offsets() {
    assert_eq!(skip_for_page(10, 1), 0);
    assert_eq!(skip_for_page(10, 2), 10);
    assert_eq!(skip_for_page(25, 4), 75);
    assert_eq!(skip_for_page(0, 7), 0);
    // consecutive pages are `limit` records apart
    assert_eq!(skip_for_page(7, 5) - skip_for_page(7, 4), 7);
}

#[test]
fn insert_errors_are_classified_by_message() {
    let dup = "E11000 duplicate key error collection: db.categories index: name_1".to_string();
    match classify_insert_error(dup.clone()) {
        Error::MongoDuplicateError(m) => assert_eq!(m, dup),
        other => panic!("unexpected {:?}", other),
    }
    match classify_insert_error("connection reset".to_string()) {
        Error::DB(DbError::MongoQueryError(m)) => assert_eq!(m, "connection reset"),
        other => panic!("unexpected {:?}", other),
    }
}

#[test]
fn delete_outcomes() {
    match delete_result(0, "507f1f77bcf86cd799439011") {
        Err(Error::NotFoundError(id)) => assert_eq!(id, "507f1f77bcf86cd799439011"),
        other => panic!("unexpected {:?}", other),
    }
    assert!(delete_result(1, "507f1f77bcf86cd799439011").is_ok());
}

#[test]
fn find_outcomes() {
    let id = oid("507F1F77BCF86CD799439011");
    assert_eq!(resolve_find::<u32>(Ok(Some(5)), &id).unwrap(), 5);
    match resolve_find::<u32>(Ok(None), &id) {
        Err(Error::NotFoundError(t)) => assert_eq!(t, "507f1f77bcf86cd799439011"),
        other => panic!("unexpected {:?}", other),
    }
    match resolve_find::<u32>(Err("timeout".to_string()), &id) {
        Err(Error::DB(DbError::MongoQueryError(m))) => assert_eq!(m, "timeout"),
        other => panic!("unexpected {:?}", other),
    }
}

#[test]
fn identifiers_of_requests() {
    let o = parse_oid("507f1f77bcf86cd799439011").unwrap();
    assert_eq!(o.to_hex(), "507f1f77bcf86cd799439011");
    match parse_oid("not-an-id") {
        Err(Error::DB(DbError::MongoGetOidError(_))) => {}
        other => panic!("unexpected {:?}", other),
    }
}

#[test]
fn updated_at_is_added_or_replaced() {
    let fields = vec![field("name", FieldValue::Text("Work".to_string()))];
    let r = stamp_updated_at(fields, 1_700_000_000_000);
    assert_eq!(keys(&r), vec!["name", "updatedAt"]);
    assert_eq!(time_of(&r[1]), 1_700_000_000_000);

    let fields = vec![
        field("updatedAt", FieldValue::Time(1)),
        field("color", FieldValue::Text("red".to_string())),
    ];
    let r = stamp_updated_at(fields, 42);
    assert_eq!(keys(&r), vec!["updatedAt", "color"]);
    assert_eq!(time_of(&r[0]), 42);

    let r = stamp_updated_at(Vec::new(), 9);
    assert_eq!(keys(&r), vec!["updatedAt"]);
}

#[test]
fn element_update_paths() {
    let fields = vec![
        field("name", FieldValue::Text("Tags".to_string())),
        field("prop_type", FieldValue::Text("MultiSelect".to_string())),
    ];
    let r = update_elem_fields("properties", fields, 77);
    assert_eq!(
        keys(&r),
        vec!["updatedAt", "properties.$[elem].name", "properties.$[elem].prop_type"]
    );
    assert_eq!(time_of(&r[0]), 77);
    match &r[1].value {
        FieldValue::Text(t) => assert_eq!(t, "Tags"),
        _ => panic!("not text"),
    }
    let r = update_elem_fields("chat_msgs", Vec::new(), 3);
    assert_eq!(keys(&r), vec!["updatedAt"]);
}

#[test]
fn element_lookup_by_identifier() {
    let a = PropertyModel::new(oid("000000000000000000000001"), "A".to_string(), PropertyType::Text, None);
    let b = PropertyModel::new(oid("000000000000000000000002"), "B".to_string(), PropertyType::Number, None);
    let b2 = PropertyModel::new(oid("000000000000000000000002"), "B2".to_string(), PropertyType::Number, None);
    let found = get_elem(vec![a, b, b2], &oid("000000000000000000000002")).unwrap();
    assert_eq!(found.name, "B");

    let a = PropertyModel::new(oid("000000000000000000000001"), "A".to_string(), PropertyType::Text, None);
    match get_elem(vec![a], &oid("00000000000000000000000f")) {
        Err(Error::NotFoundError(t)) => assert_eq!(t, "00000000000000000000000f"),
        Ok(_) => panic!("found"),
        Err(e) => panic!("unexpected {:?}", e),
    }
}

#[test]
fn stamping_twice_keeps_the_later_time() {
    let fields = vec![field("title", FieldValue::Text("x".to_string()))];
    let once = stamp_updated_at(fields, 10);
    let twice = stamp_updated_at(once, 20);
    assert_eq!(keys(&twice), vec!["title", "updatedAt"]);
    assert_eq!(time_of(&twice[1]), 20);
}
