use tootodo::db_error::Error as DbError;
use tootodo::models::base::{DocField, FieldValue};
use tootodo::models::category::model::StatusType;
use tootodo::models::chat::controller::ChatMsgBMC;
use tootodo::models::chat::model::{
    chat_type_text, copy_msgs, msg_type_text, msgs_or_default, ChatModel, ChatType, MsgModel,
    MsgType,
};
use tootodo::models::chat::schema::UpdateMsgSchema;
use tootodo::models::event::controller::EventBMC;
use tootodo::models::event::model::EventModel;
use tootodo::models::event::schema::{CreateEventSchema, UpdateEventSchema};
use tootodo::models::habit::controller::HabitBMC;
use tootodo::models::habit::model::HabitModel;
use tootodo::models::habit::schema::{CreateHabitSchema, UpdateHabitSchema};
use tootodo::models::note::controller::MemoBMC;
use tootodo::models::note::error::Error as NoteError;
use tootodo::models::note::model::{CreateNoteSchema, NoteModel, UpdateNoteSchema};
use tootodo::oid::Oid;

fn oid(text: &str) -> Oid {
    Oid::parse(text).unwrap()
}

fn keys(fields: &[DocField]) -> Vec<String> {
    fields.iter().map(|f| f.key.clone()).collect()
}

fn text_of(f: &DocField) -> String {
    match &f.value {
        FieldValue::Text(t) => t.clone(),
        _ => panic!("not text"),
    }
}

fn msg(id: &str, content: &str, chat: Option<Vec<ChatModel>>) -> MsgModel {
    MsgModel {
        id: oid(id),
        msg_type: MsgType::Ask,
        content: content.to_string(),
        created_at: 5,
        booked: true,
        chat,
    }
}

fn note(category: &str, published: bool) -> NoteModel {
    NoteModel {
        id: oid("65a0c3e2f1d2c3b4a5968778"),
        user: 3,
        title: "Plan".to_string(),
        content: "body".to_string(),
        category: Some(category.to_string()),
        published: Some(published),
        createdAt: 10,
        updatedAt: 11,
    }
}

#[test]
fn message_update_paths() {
    let u = UpdateMsgSchema { msg_type: Some(MsgType::Answer), content: Some("hi".to_string()), booked: Some(false) };
    let f = ChatMsgBMC::update_msg_fields_at(&u, 99);
    assert_eq!(
        keys(&f),
        vec!["updatedAt", "chat_msgs.$[msg].msg_type", "chat_msgs.$[msg].content", "chat_msgs.$[msg].booked"]
    );
    assert!(matches!(f[0].value, FieldValue::Time(99)));
    assert_eq!(text_of(&f[1]), "Answer");
    assert_eq!(text_of(&f[2]), "hi");
    assert!(matches!(f[3].value, FieldValue::Flag(false)));

    let u = UpdateMsgSchema { msg_type: None, content: Some("x".to_string()), booked: None };
    let f = ChatMsgBMC::update_msg_fields(&u);
    assert_eq!(keys(&f), vec!["updatedAt", "chat_msgs.$[msg].content"]);
}

#[test]
fn chats_and_messages() {
    let c = ChatMsgBMC::new_ask_chat();
    assert!(c.src_type == ChatType::Ask);
    assert!(c.msgs.is_none());
    assert_eq!(chat_type_text(ChatType::Event), "Event");
    assert_eq!(msg_type_text(MsgType::Video), "Video");

    let inner = ChatModel { src_type: ChatType::Ask, msgs: Some(vec![msg("000000000000000000000002", "why?", None)]) };
    let msgs = Some(vec![msg("000000000000000000000001", "hello", Some(vec![inner]))]);
    let copy = copy_msgs(&msgs).unwrap();
    assert_eq!(copy.len(), 1);
    assert_eq!(copy[0].content, "hello");
    let chats = copy[0].chat.as_ref().unwrap();
    assert_eq!(chats[0].msgs.as_ref().unwrap()[0].content, "why?");
    assert!(copy_msgs(&None).is_none());

    assert!(msgs_or_default(None).is_empty());
    assert_eq!(msgs_or_default(msgs).len(), 1);
}

#[test]
fn event_documents() {
    let body = CreateEventSchema {
        title: "Dentist".to_string(),
        start_date: Some(738_000),
        due_at: None,
        location: Some("Seoul".to_string()),
    };
    let d = EventBMC::create_doc_at(9, &body, 500);
    assert_eq!(
        keys(&d),
        vec!["user", "complete", "chat_type", "createdAt", "updatedAt", "title", "start_date", "location"]
    );
    assert!(matches!(d[1].value, FieldValue::Flag(false)));
    assert_eq!(text_of(&d[2]), "Event");
    assert!(matches!(d[6].value, FieldValue::Date(738_000)));
    assert_eq!(text_of(&d[7]), "Seoul");
    assert_eq!(EventBMC::coll_name(), "events");

    let u = UpdateEventSchema {
        title: None,
        complete: Some(true),
        start_date: None,
        due_at: Some(1_700_000_000_000),
        location: None,
        chat_type: Some(ChatType::Task),
    };
    let f = u.set_fields();
    assert_eq!(keys(&f), vec!["complete", "due_at", "chat_type"]);
    assert!(matches!(f[1].value, FieldValue::Instant(1_700_000_000_000)));
    assert_eq!(text_of(&f[2]), "Task");
}

#[test]
fn event_answers() {
    let e = EventModel {
        id: oid("65a0c3e2f1d2c3b4a5968779"),
        user: 9,
        title: "Dentist".to_string(),
        complete: false,
        start_date: Some(738_000),
        due_at: Some(12),
        location: None,
        chat_type: ChatType::Event,
        chat_msgs: Some(vec![msg("000000000000000000000001", "note", None)]),
        createdAt: 1,
        updatedAt: 2,
    };
    let r = EventBMC::convert_doc_to_response(&e).ok().unwrap();
    assert_eq!(r.id, "65a0c3e2f1d2c3b4a5968779");
    assert_eq!(r.title, "Dentist");
    assert_eq!(r.start_date, Some(738_000));
    assert_eq!(r.due_at, Some(12));
    assert!(r.location.is_none());
    assert_eq!(r.chat_msgs.as_ref().unwrap()[0].content, "note");
    let msgs = EventBMC::msgs(&e);
    assert_eq!(msgs.len(), 1);
    let single = EventBMC::single_response(r);
    assert_eq!(single.status, "success");
    let list = EventBMC::list_response(Vec::new());
    assert_eq!(list.results, 0);

    let e2 = EventModel { chat_msgs: None, ..e };
    assert!(EventBMC::msgs(&e2).is_empty());
}

#[test]
fn habits() {
    let body = CreateHabitSchema { name: "Run".to_string(), icon: "R".to_string() };
    let d = HabitBMC::create_doc_at(4, &body, 8);
    assert_eq!(keys(&d), vec!["user", "status", "createdAt", "updatedAt", "name", "icon"]);
    assert_eq!(text_of(&d[1]), "InProgress");
    assert_eq!(text_of(&d[5]), "R");

    let u = UpdateHabitSchema { name: None, icon: Some("*".to_string()), status: Some(StatusType::Archived) };
    let f = u.set_fields();
    assert_eq!(keys(&f), vec!["icon", "status"]);
    assert_eq!(text_of(&f[1]), "Archived");

    let h = HabitModel {
        id: oid("65a0c3e2f1d2c3b4a596877a"),
        user: 4,
        name: "Run".to_string(),
        icon: "R".to_string(),
        status: StatusType::InProgress,
        createdAt: 1,
        updatedAt: 1,
    };
    let r = HabitBMC::convert_doc_to_response(&h).ok().unwrap();
    assert_eq!(r.id, "65a0c3e2f1d2c3b4a596877a");
    assert!(r.status == StatusType::InProgress);
    let list = HabitBMC::list_response(vec![r]);
    assert_eq!(list.results, 1);
    assert_eq!(HabitBMC::coll_name(), "habits");
}

#[test]
fn note_documents() {
    let body = CreateNoteSchema {
        user: 12,
        title: "Plan".to_string(),
        content: "body".to_string(),
        category: None,
        published: None,
    };
    let d = MemoBMC::create_note_document_at(&body, 70);
    assert_eq!(keys(&d), vec!["user", "createdAt", "updatedAt", "published", "category", "title", "content"]);
    assert!(matches!(d[0].value, FieldValue::User(12)));
    assert!(matches!(d[3].value, FieldValue::Flag(false)));
    assert_eq!(text_of(&d[4]), "");

    let body = CreateNoteSchema { category: Some("Work".to_string()), published: Some(true), ..body };
    let d = MemoBMC::create_note_document(&body);
    assert!(matches!(d[3].value, FieldValue::Flag(true)));
    assert_eq!(text_of(&d[4]), "Work");

    let u = UpdateNoteSchema { user: 12, title: Some("New".to_string()), content: None, category: None, published: Some(false) };
    let f = u.set_fields();
    assert_eq!(keys(&f), vec!["user", "title", "published"]);
}

#[test]
fn note_answers() {
    let r = MemoBMC::doc_to_note(&note("Work", true)).ok().unwrap();
    assert_eq!(r.id, "65a0c3e2f1d2c3b4a5968778");
    assert_eq!(r.category, "Work");
    assert!(r.published);

    let s = MemoBMC::resolve_note(Ok(Some(note("Home", false))), "65a0c3e2f1d2c3b4a5968778").ok().unwrap();
    assert_eq!(s.status, "success");
    assert_eq!(s.data.note.category, "Home");
    match MemoBMC::resolve_note(Ok(None), "65a0c3e2f1d2c3b4a5968778") {
        Err(NoteError::NotFoundError(t)) => assert_eq!(t, "65a0c3e2f1d2c3b4a5968778"),
        _ => panic!("expected not found"),
    }
    match MemoBMC::resolve_note(Err("down".to_string()), "x") {
        Err(NoteError::DB(DbError::MongoQueryError(m))) => assert_eq!(m, "down"),
        _ => panic!("expected query error"),
    }
    let list = MemoBMC::list_response(vec![r]);
    assert_eq!(list.results, 1);
}

#[test]
fn note_identifiers_and_failures() {
    assert_eq!(MemoBMC::parse_id("65a0c3e2f1d2c3b4a5968778").unwrap().to_hex(), "65a0c3e2f1d2c3b4a5968778");
    match MemoBMC::parse_id("abc") {
        Err(NoteError::InvalidIDError(t)) => assert_eq!(t, "abc"),
        other => panic!("unexpected {:?}", other),
    }
    match MemoBMC::classify_insert_error("E11000 duplicate key error collection: notes".to_string()) {
        NoteError::MongoDuplicateError(_) => {}
        other => panic!("unexpected {:?}", other),
    }
    match MemoBMC::classify_insert_error("other".to_string()) {
        NoteError::DB(DbError::MongoQueryError(m)) => assert_eq!(m, "other"),
        other => panic!("unexpected {:?}", other),
    }
    match MemoBMC::delete_result(0, "id1") {
        Err(NoteError::NotFoundError(t)) => assert_eq!(t, "id1"),
        other => panic!("unexpected {:?}", other),
    }
    assert!(MemoBMC::delete_result(3, "id1").is_ok());
}
