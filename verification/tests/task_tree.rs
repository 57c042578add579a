use tootodo::interface::dto::task::TaskRes;
use tootodo::interface::handler::task::{
    sort_tree, task_goes_before, tree_list_response, TaskTreeBuilder, TaskTreeItem,
};

fn task(id: &str, parent: Option<&str>, start: Option<i32>, end: Option<i32>) -> TaskRes {
    TaskRes {
        id: id.to_string(),
        user: 1,
        title: format!("task {}", id),
        parent_id: parent.map(|p| p.to_string()),
        progress_rate: 0,
        milestone: false,
        chat_type: None,
        chat_msgs: None,
        start_date: start,
        end_date: end,
        due_at: None,
        createdAt: 0,
        updatedAt: 0,
    }
}

fn item(id: &str, start: Option<i32>, end: Option<i32>) -> TaskTreeItem {
    TaskTreeItem { task: task(id, None, start, end), subtasks: Vec::new() }
}

fn ids(items: &[TaskTreeItem]) -> Vec<String> {
    items.iter().map(|i| i.task.id.clone()).collect()
}

#[test]
fn tree_order() {
    let a = item("a", Some(10), Some(12));
    let b = item("b", Some(10), Some(20));
    let c = item("c", None, Some(5));
    let d = item("d", Some(3), None);
    let e = item("e", Some(10), None);
    assert!(task_goes_before(&b, &a));
    assert!(!task_goes_before(&a, &b));
    assert!(task_goes_before(&c, &d));
    assert!(task_goes_before(&a, &e));
    assert!(!task_goes_before(&a, &a));
    let sorted = sort_tree(vec![a, b, c, d, e]);
    assert_eq!(ids(&sorted), vec!["c", "d", "b", "a", "e"]);
    assert!(sort_tree(Vec::new()).is_empty());
}

#[test]
fn children_join_their_parents() {
    let mut b = TaskTreeBuilder::new();
    assert!(b.add_task(task("p1", None, Some(2), None)).is_ok());
    assert!(b.add_task(task("p0", Some(""), Some(1), None)).is_ok());
    assert!(b.add_task(task("c1", Some("p1"), Some(9), None)).is_ok());
    assert!(b.add_task(task("c2", Some("p1"), Some(8), None)).is_ok());
    assert!(b.contains_key("p0"));
    assert!(b.contains_key("p1"));
    assert!(!b.contains_key("c1"));

    // a child whose parent was not listed comes back for the caller to fetch
    match b.add_task(task("c3", Some("px"), Some(4), None)) {
        Err((t, parent)) => {
            assert_eq!(parent, "px");
            assert_eq!(t.id, "c3");
            b.add_parent(parent, task("px", None, Some(0), None));
            assert!(b.add_task(t).is_ok());
        }
        Ok(()) => panic!("parent should be missing"),
    }

    let tree = b.finish();
    assert_eq!(ids(&tree), vec!["px", "p0", "p1"]);
    assert_eq!(ids(&tree[0].subtasks), vec!["c3"]);
    assert!(tree[1].subtasks.is_empty());
    assert_eq!(ids(&tree[2].subtasks), vec!["c1", "c2"]);
    // five listed tasks and one fetched parent, each held once
    let held: usize = tree.iter().map(|e| 1 + e.subtasks.len()).sum();
    assert_eq!(held, 6);

    let res = tree_list_response(tree);
    assert_eq!(res.status, "success");
    assert_eq!(res.results, 3);
}

#[test]
fn a_repeated_top_level_task_replaces_its_entry() {
    let mut b = TaskTreeBuilder::new();
    assert!(b.add_task(task("p", None, Some(1), None)).is_ok());
    assert!(b.add_task(task("c", Some("p"), None, None)).is_ok());
    assert!(b.add_task(task("p", None, Some(6), None)).is_ok());
    let tree = b.finish();
    assert_eq!(tree.len(), 1);
    assert_eq!(tree[0].task.start_date, Some(6));
    assert!(tree[0].subtasks.is_empty());
}

#[test]
fn empty_tree() {
    let b = TaskTreeBuilder::new();
    assert!(!b.contains_key("a"));
    assert!(b.finish().is_empty());
}
