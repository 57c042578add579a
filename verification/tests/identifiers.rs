use tootodo::oid::{uuid_to_string, Oid};
use tootodo::text::{contains_text, same_text};

#[test]
fn oid_parses_lower_and_upper_case() {
    let a = Oid::parse("507f1f77bcf86cd799439011").unwrap();
    assert_eq!(a.bytes, [0x50, 0x7f, 0x1f, 0x77, 0xbc, 0xf8, 0x6c, 0xd7, 0x99, 0x43, 0x90, 0x11]);
    let b = Oid::parse("507F1F77BCF86CD799439011").unwrap();
    assert!(a.same(&b));
}

#[test]
fn oid_rejects_malformed_text() {
    assert!(Oid::parse("507f1f77bcf86cd79943901").is_err());
    assert!(Oid::parse("507f1f77bcf86cd7994390111").is_err());
    assert!(Oid::parse("507f1f77bcf86cd79943901g").is_err());
    assert!(Oid::parse("").is_err());
}

#[test]
fn oid_text_round_trip() {
    let a = Oid::parse("507F191E810C19729DE860EC").unwrap();
    let text = a.to_hex();
    assert_eq!(text, "507f191e810c19729de860ec");
    let b = Oid::parse(&text).unwrap();
    assert!(a.same(&b));
    let c = Oid::parse("507f1f77bcf86cd799439013").unwrap();
    assert!(!a.same(&c));
}

#[test]
fn uuid_text_is_hyphenated_lower_case() {
    assert_eq!(uuid_to_string(0), "00000000-0000-0000-0000-000000000000");
    assert_eq!(
        uuid_to_string(0xa1a2a3a4b1b2c1c2d1d2d3d4d5d6d7d8),
        "a1a2a3a4-b1b2-c1c2-d1d2-d3d4d5d6d7d8"
    );
}

#[test]
fn text_search() {
    assert!(contains_text("E11000 duplicate key error collection: db.notes", "E11000 duplicate key error collection"));
    assert!(!contains_text("E1100 duplicate key", "E11000 duplicate key error collection"));
    assert!(contains_text("abc", ""));
    assert!(contains_text("aab", "ab"));
    assert!(!contains_text("", "a"));
    assert!(same_text("updatedAt", "updatedAt"));
    assert!(!same_text("updatedAt", "updatedat"));
}
