use tootodo::domain::daily_item::{DailyHabitModel, DailyTaskModel, TimerResultModel};
use tootodo::domain::records::{MemoModel, TagGroupModel, TagModel};
use tootodo::domain::schedule_item::{ScheduledAt, ScheduledEvent, ScheduledHabit, ScheduledTask, Weekday};
use tootodo::domain::task::TaskModel;
use tootodo::domain::task_block::BlockModel;
use tootodo::domain::task_prop_v::PropValueModel;
use tootodo::domain::types::{BlockType, PropValueType, ScheduleType};
use tootodo::interface::dto::category::{CategoryRes, UpdateCategoryReq};
use tootodo::interface::dto::event::EventFetchOptions;
use tootodo::interface::dto::habit::HabitRes;
use tootodo::interface::dto::memo::MemoRes;
use tootodo::interface::dto::note::NoteFetchOptions;
use tootodo::interface::dto::sub::daily_item::{DailyHabitRes, DailyTaskRes, TimerResultRes};
use tootodo::interface::dto::sub::property::UpdatePropertyReq;
use tootodo::interface::dto::sub::schedule_item::{
    ScheduledAtRes, ScheduledEventRes, ScheduledHabitRes, ScheduledTaskRes,
};
use tootodo::interface::dto::sub::task_block::BlockRes;
use tootodo::interface::dto::sub::task_prop_v::PropValueRes;
use tootodo::interface::dto::tag::TagRes;
use tootodo::interface::dto::tag_group::TagGroupRes;
use tootodo::interface::dto::task::{TaskFetchOptions, TaskRes};
use tootodo::interface::dto::FilterOptions;
use tootodo::interface::handler::common::{category_change, page_params, property_change};
use tootodo::interface::te::TaskFetchRes;
use tootodo::models::base::{DocField, FieldValue};
use tootodo::models::category::model::{CategoryModel, PropertyModel, PropertyType, StatusType};
use tootodo::models::habit::model::HabitModel;
use tootodo::oid::Oid;

fn oid(text: &str) -> Oid {
    Oid::parse(text).unwrap()
}

fn keys(fields: &[DocField]) -> Vec<String> {
    fields.iter().map(|f| f.key.clone()).collect()
}

fn prop_value(id: &str, name: &str, v: Option<PropValueType>) -> PropValueModel {
    PropValueModel { prop_id: oid(id), prop_name: name.to_string(), values: v, prop_type: PropertyType::Number }
}

fn fetched(id: &str, subtasks: Vec<TaskFetchRes>) -> TaskFetchRes {
    TaskFetchRes {
        id: id.to_string(),
        user: 1,
        title: format!("t{}", id),
        start_date: None,
        due_at: None,
        category_id: "c".to_string(),
        prop_values: vec![prop_value("0000000000000000000000c1", "Points", Some(PropValueType::Number(3)))],
        subtasks,
        createdAt: 0,
        updatedAt: 0,
    }
}

fn task_model() -> TaskModel {
    TaskModel {
        id: oid("65a0c3e2f1d2c3b4a5968700"),
        user: 2,
        title: "Write".to_string(),
        parent_id: Some(oid("65a0c3e2f1d2c3b4a59687ff")),
        progress_rate: 40,
        milestone: true,
        chat_type: None,
        chat_msgs: None,
        start_date: Some(100),
        end_date: Some(105),
        due_at: Some(9),
        category_id: oid("65a0c3e2f1d2c3b4a5968701"),
        prop_values: vec![prop_value("0000000000000000000000c1", "Points", Some(PropValueType::Text("x".to_string())))],
        subtasks: vec![fetched("s1", vec![fetched("s2", Vec::new())])],
        createdAt: 3,
        updatedAt: 4,
    }
}

#[test]
fn listing_page_parameters() {
    assert_eq!(page_params(&FilterOptions { page: None, limit: None }, 10), (10, 1));
    assert_eq!(page_params(&FilterOptions { page: Some(3), limit: Some(25) }, 10), (25, 3));
    assert_eq!(page_params(&FilterOptions { page: Some(2), limit: None }, 50), (50, 2));
}

#[test]
fn changes_passed_on_to_notes() {
    let both = UpdateCategoryReq { name: Some("A".to_string()), color: Some("red".to_string()) };
    assert_eq!(category_change(&both), Some(("A".to_string(), "red".to_string())));
    let one = UpdateCategoryReq { name: Some("A".to_string()), color: None };
    assert_eq!(category_change(&one), None);

    let req = UpdatePropertyReq { name: Some("P".to_string()), prop_type: Some(PropertyType::Link), options: None };
    match property_change(&req) {
        Some((n, t)) => {
            assert_eq!(n, "P");
            assert!(t == PropertyType::Link);
        }
        None => panic!("expected a change"),
    }
    let req = UpdatePropertyReq { name: None, prop_type: Some(PropertyType::Link), options: None };
    assert!(property_change(&req).is_none());
}

#[test]
fn projections() {
    assert_eq!(
        keys(&TaskFetchOptions::build_projection()),
        vec!["_id", "user", "title", "parent_id", "progress_rate", "milestone", "start_date", "end_date", "due_at", "createdAt", "updatedAt"]
    );
    let p = EventFetchOptions::build_projection();
    assert_eq!(keys(&p)[0], "_id");
    assert_eq!(p.len(), 10);
    assert!(p.iter().all(|f| matches!(f.value, FieldValue::Int(1))));
    let p = NoteFetchOptions::build_projection();
    assert_eq!(
        keys(&p),
        vec!["_id", "user", "title", "category_id", "prop_values", "pages", "parent_id", "createdAt", "updatedAt"]
    );
}

#[test]
fn task_answers() {
    let t = task_model();
    let r = TaskRes::from_model(&t);
    assert_eq!(r.id, "65a0c3e2f1d2c3b4a5968700");
    assert_eq!(r.parent_id, Some("65a0c3e2f1d2c3b4a59687ff".to_string()));
    assert_eq!(r.progress_rate, 40);
    assert!(r.milestone);
    assert_eq!(r.end_date, Some(105));
    let t2 = TaskModel { parent_id: None, ..task_model() };
    assert_eq!(TaskRes::from_model(&t2).parent_id, None);

    let f = TaskFetchRes::from_model(&t);
    assert_eq!(f.id, "65a0c3e2f1d2c3b4a5968700");
    assert_eq!(f.category_id, "65a0c3e2f1d2c3b4a5968701");
    assert_eq!(f.prop_values.len(), 1);
    assert!(f.prop_values[0].values == Some(PropValueType::Text("x".to_string())));
    assert_eq!(f.subtasks.len(), 1);
    assert_eq!(f.subtasks[0].id, "s1");
    assert_eq!(f.subtasks[0].subtasks[0].id, "s2");
    let c = f.copy();
    assert_eq!(c.subtasks[0].subtasks[0].title, "ts2");
}

#[test]
fn record_answers() {
    let cat = CategoryModel {
        id: oid("65a0c3e2f1d2c3b4a5968702"),
        user: 5,
        name: "Work".to_string(),
        color: "blue".to_string(),
        status: StatusType::Archived,
        properties: vec![PropertyModel::new(oid("000000000000000000000001"), "Due".to_string(), PropertyType::DateTime, None)],
        createdAt: 1,
        updatedAt: 2,
    };
    let r = CategoryRes::from_model(&cat);
    assert_eq!(r.id, "65a0c3e2f1d2c3b4a5968702");
    assert!(r.status == StatusType::Archived);
    assert_eq!(r.props[0].name, "Due");

    let h = HabitModel {
        id: oid("65a0c3e2f1d2c3b4a5968703"),
        user: 5,
        name: "Read".to_string(),
        icon: "B".to_string(),
        status: StatusType::InProgress,
        createdAt: 1,
        updatedAt: 2,
    };
    assert_eq!(HabitRes::from_model(&h).name, "Read");

    let m = MemoModel {
        id: oid("65a0c3e2f1d2c3b4a5968704"),
        user: 5,
        title: "Memo".to_string(),
        content: "text".to_string(),
        color: "pink".to_string(),
        createdAt: 1,
        updatedAt: 2,
    };
    let r = MemoRes::from_model(&m);
    assert_eq!(r.id, "65a0c3e2f1d2c3b4a5968704");
    assert_eq!(r.color, "pink");

    let tag = TagModel { id: 0x0123456789abcdef0123456789abcdef, user: 5, name: "urgent".to_string() };
    let r = TagRes::from_entity(&tag);
    assert_eq!(r.id, "01234567-89ab-cdef-0123-456789abcdef");
    assert!(r.groups.is_none());
    let g = TagGroupModel { id: 1, user: 5, name: "g".to_string(), color: "c".to_string() };
    let r = TagGroupRes::from_entity(&g);
    assert_eq!(r.id, "00000000-0000-0000-0000-000000000001");
    assert!(r.tags.is_none());
}

#[test]
fn schedule_and_daily_answers() {
    let st = ScheduledTask {
        task_id: oid("65a0c3e2f1d2c3b4a5968705"),
        title: "T".to_string(),
        category_id: oid("65a0c3e2f1d2c3b4a5968706"),
        category_color: "green".to_string(),
    };
    let r = ScheduledTaskRes::from_model(&st);
    assert_eq!(r.task_id, "65a0c3e2f1d2c3b4a5968705");
    assert_eq!(r.category_id, "65a0c3e2f1d2c3b4a5968706");

    let sh = ScheduledHabit { habit_id: oid("65a0c3e2f1d2c3b4a5968707"), name: "H".to_string(), icon: "i".to_string() };
    assert_eq!(ScheduledHabitRes::from_model(&sh).habit_id, "65a0c3e2f1d2c3b4a5968707");

    let se = ScheduledEvent { event_id: oid("65a0c3e2f1d2c3b4a5968708"), title: "E".to_string(), start_date: Some(1), due_at: None };
    let r = ScheduledEventRes::from_model(&se);
    assert_eq!(r.start_date, Some(1));
    assert_eq!(r.due_at, None);

    let at = ScheduledAt {
        item_id: oid("65a0c3e2f1d2c3b4a5968709"),
        item_type: ScheduleType::Habit,
        weekday: Weekday::Fri,
        startAt: Some(3600),
        endAt: None,
    };
    let r = ScheduledAtRes::from_model(&at);
    assert_eq!(r.item_id, "65a0c3e2f1d2c3b4a5968709");
    assert!(r.item_type == ScheduleType::Habit);
    assert!(r.weekday == Weekday::Fri);
    assert_eq!(r.startAt, Some(3600));

    let dt = DailyTaskModel { task_id: oid("65a0c3e2f1d2c3b4a596870a"), title: "d".to_string(), done: true, doneAt: Some(7) };
    let r = DailyTaskRes::from_model(&dt);
    assert!(r.done);
    assert_eq!(r.doneAt, Some(7));
    let dh = DailyHabitModel { habit_id: oid("65a0c3e2f1d2c3b4a596870b"), icon: "i".to_string(), name: "n".to_string(), done: false, doneAt: None };
    assert_eq!(DailyHabitRes::from_model(&dh).habit_id, "65a0c3e2f1d2c3b4a596870b");
    let tr = TimerResultModel {
        category_id: oid("65a0c3e2f1d2c3b4a596870c"),
        category_color: "red".to_string(),
        startAt: 10,
        endAt: 20,
        focus_time: "10s".to_string(),
    };
    let r = TimerResultRes::from_model(&tr);
    assert_eq!(r.category_id, "65a0c3e2f1d2c3b4a596870c");
    assert_eq!(r.endAt, 20);
}

#[test]
fn block_and_value_answers() {
    let b = BlockModel {
        id: oid("65a0c3e2f1d2c3b4a596870d"),
        src_task_id: oid("65a0c3e2f1d2c3b4a596870e"),
        block_type: BlockType::Todo,
        body: "- [ ] item".to_string(),
    };
    let r = BlockRes::from_model(&b);
    assert_eq!(r.id, "65a0c3e2f1d2c3b4a596870d");
    assert_eq!(r.src_task_id, "65a0c3e2f1d2c3b4a596870e");
    assert!(r.block_type == BlockType::Todo);
    assert_eq!(r.body, "- [ ] item");

    let v = prop_value("65a0c3e2f1d2c3b4a596870f", "Score", Some(PropValueType::Flag(true)));
    let r = PropValueRes::from_model(&v);
    assert_eq!(r.id, "65a0c3e2f1d2c3b4a596870f");
    assert_eq!(r.prop_name, "Score");
    assert!(r.value == Some(PropValueType::Flag(true)));
    assert!(r.prop_type == PropertyType::Number);
}
