use tootodo::db_error::Error as DbError;
use tootodo::models::error::Error;
use tootodo::models::note::error::Error as NoteError;

#[test]
fn db_error_replies() {
    let r = DbError::NotFoundError("abc".to_string()).into_response();
    assert_eq!(r.status_code, 404);
    assert_eq!(r.body.status, "fail");
    assert_eq!(r.body.message, "Note with ID: abc not found");

    let r = DbError::InvalidIDError("zz".to_string()).into_response();
    assert_eq!(r.status_code, 400);
    assert_eq!(r.body.message, "invalid ID: zz");

    let r = DbError::MongoQueryError("boom".to_string()).into_response();
    assert_eq!(r.status_code, 500);
    assert_eq!(r.body.status, "error");
    assert_eq!(r.body.message, "MongoDB error: boom");

    let r = DbError::MongoErrorKind("kind".to_string()).into_response();
    assert_eq!(r.status_code, 500);
    assert_eq!(r.body.message, "MongoDB error kind: kind");

    let r = DbError::MongoDuplicateError("dup".to_string()).into_response();
    assert_eq!(r.status_code, 409);
    assert_eq!(r.body.message, "Note with that title already exists");

    let r = DbError::MongoGetOidError("bad oid".to_string()).into_response();
    assert_eq!(r.status_code, 500);
    assert_eq!(r.body.message, "MongoDB error: bad oid");
}

#[test]
fn model_error_replies() {
    let r = Error::WrongUserAccess.into_response();
    assert_eq!(r.status_code, 403);
    assert_eq!(r.body.status, "fail");
    assert_eq!(r.body.message, "You do not have access to this note");

    let r = Error::NotFoundError("507f1f77bcf86cd799439011".to_string()).into_response();
    assert_eq!(r.status_code, 404);
    assert_eq!(r.body.message, "Note with ID: 507f1f77bcf86cd799439011 not found");

    let r = Error::MongoDuplicateError("E11000".to_string()).into_response();
    assert_eq!(r.status_code, 409);

    let r = Error::DB(DbError::MongoDataError("missing".to_string())).into_response();
    assert_eq!(r.status_code, 500);
    assert_eq!(r.body.message, "MongoDB error: missing");
}

#[test]
fn note_error_replies() {
    let r = NoteError::InvalidIDError("xyz".to_string()).into_response();
    assert_eq!(r.status_code, 400);
    assert_eq!(r.body.status, "fail");
    assert_eq!(r.body.message, "invalid ID: xyz");

    let r = NoteError::WrongUserAccess.into_response();
    assert_eq!(r.status_code, 403);

    let r = NoteError::DB(DbError::MongoSerializeBsonError("ser".to_string())).into_response();
    assert_eq!(r.status_code, 500);
    assert_eq!(r.body.message, "MongoDB error: ser");
}

#[test]
fn status_text_follows_the_code() {
    let replies = vec![
        DbError::MongoError("a".to_string()).into_response(),
        DbError::MongoDeserializeBsonError("b".to_string()).into_response(),
        DbError::InvalidIDError("c".to_string()).into_response(),
        DbError::NotFoundError("d".to_string()).into_response(),
        Error::MongoDuplicateError("e".to_string()).into_response(),
        Error::WrongUserAccess.into_response(),
        NoteError::MongoDuplicateError("f".to_string()).into_response(),
        NoteError::NotFoundError("g".to_string()).into_response(),
        NoteError::DB(DbError::MongoErrorKind("h".to_string())).into_response(),
    ];
    for r in replies {
        if r.status_code == 500 {
            assert_eq!(r.body.status, "error");
        } else {
            assert!(r.status_code >= 400 && r.status_code < 500);
            assert_eq!(r.body.status, "fail");
        }
    }
}
