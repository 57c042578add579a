//! Grouping listed tasks into a tree of top-level tasks and their subtasks.
//!
//! A listing holds the tasks of a date window; a subtask's parent may lie
//! outside the window. The grouping therefore runs as a conversation: the
//! builder takes the tasks one by one, and when a task's parent is neither in
//! the tree yet nor among the tasks seen, it hands the parent's identifier
//! back; the caller fetches that task, hands it over with `add_parent`, and
//! offers the child again.

use crate::interface::dto::task::TaskRes;
use vstd::prelude::*;
use vstd::multiset::Multiset;

verus! {

/// A task with the subtasks grouped under it.
pub struct TaskTreeItem {
    pub task: TaskRes,
    pub subtasks: Vec<TaskTreeItem>,
}

pub struct TaskListTreeRes {
    pub status: &'static str,
    pub results: usize,
    pub tasks: Vec<TaskTreeItem>,
}

/// The identifier of the task's parent, when it has a non-empty one.
pub open spec fn parent_key(t: TaskRes) -> Option<Seq<char>> {
    match t.parent_id {
        Some(p) => if p@.len() > 0 { Some(p@) } else { None },
        None => None,
    }
}

/// A sort key for an optional day: no day comes before every day.
pub open spec fn day_key(d: Option<i32>) -> int {
    match d {
        Some(x) => x as int,
        None => i32::MIN as int - 1,
    }
}

/// `a` goes strictly before `b`: by start day (earlier first, no day first),
/// then by end day (later first, no day last).
pub open spec fn goes_before(a: TaskTreeItem, b: TaskTreeItem) -> bool {
    ||| day_key(a.task.start_date) < day_key(b.task.start_date)
    ||| (day_key(a.task.start_date) == day_key(b.task.start_date) && day_key(a.task.end_date) > day_key(b.task.end_date))
}

/// No item goes strictly before an item earlier in the list.
pub open spec fn sorted_tree(s: Seq<TaskTreeItem>) -> bool {
    forall|i: int, j: int| 0 <= i < j < s.len() ==> !goes_before(#[trigger] s[j], #[trigger] s[i])
}

/// `a` starts strictly before `b` on the calendar: an entry without a start
/// day comes before every entry with one.
pub open spec fn starts_before(a: Option<i32>, b: Option<i32>) -> bool {
    match (a, b) {
        (None, Some(_)) => true,
        (Some(x), Some(y)) => x < y,
        _ => false,
    }
}

/// The order of the tree is the calendar's: an entry goes before another
/// exactly when it starts on an earlier day (no day first), or both start on
/// the same day and it ends on a later day (no end day last).
pub proof fn lemma_goes_before_calendar(a: TaskTreeItem, b: TaskTreeItem)
    ensures
        goes_before(a, b) <==> (starts_before(a.task.start_date, b.task.start_date)
            || (a.task.start_date == b.task.start_date && starts_before(b.task.end_date, a.task.end_date))),
{
}

/// In a sorted tree, start days never decrease along the list (entries with
/// no start day first), and among entries starting on the same day end days
/// never increase (entries with no end day last).
pub proof fn lemma_sorted_tree_calendar(s: Seq<TaskTreeItem>)
    requires
        sorted_tree(s),
    ensures
        forall|i: int, j: int| 0 <= i < j < s.len() && s[i].task.start_date is Some && s[j].task.start_date is Some
            ==> s[i].task.start_date->0 <= s[j].task.start_date->0,
        forall|i: int, j: int| 0 <= i < j < s.len() && s[j].task.start_date is None ==> s[i].task.start_date is None,
        forall|i: int, j: int| 0 <= i < j < s.len() && s[i].task.start_date == s[j].task.start_date
            && s[i].task.end_date is Some && s[j].task.end_date is Some
            ==> s[i].task.end_date->0 >= s[j].task.end_date->0,
        forall|i: int, j: int| 0 <= i < j < s.len() && s[i].task.start_date == s[j].task.start_date
            && s[i].task.end_date is None ==> s[j].task.end_date is None,
{
    assert forall|i: int, j: int| 0 <= i < j < s.len() implies !goes_before(s[j], s[i]) by {}
}

fn day_key_lt(a: Option<i32>, b: Option<i32>) -> (r: bool)
    ensures
        r == (day_key(a) < day_key(b)),
{
    match (a, b) {
        (None, Some(_)) => true,
        (Some(x), Some(y)) => x < y,
        _ => false,
    }
}

fn day_key_eq(a: Option<i32>, b: Option<i32>) -> (r: bool)
    ensures
        r == (day_key(a) == day_key(b)),
{
    match (a, b) {
        (None, None) => true,
        (Some(x), Some(y)) => x == y,
        _ => false,
    }
}

/// Whether `a` goes strictly before `b` in the order of the tree.
pub fn task_goes_before(a: &TaskTreeItem, b: &TaskTreeItem) -> (r: bool)
    ensures
        r == goes_before(*a, *b),
{
    day_key_lt(a.task.start_date, b.task.start_date)
        || (day_key_eq(a.task.start_date, b.task.start_date) && day_key_lt(b.task.end_date, a.task.end_date))
}

/// Sorts items into the order of the tree; items that tie keep no particular order.
pub fn sort_tree(items: Vec<TaskTreeItem>) -> (r: Vec<TaskTreeItem>)
    ensures
        sorted_tree(r@),
        r@.to_multiset() == items@.to_multiset(),
{
    broadcast use vstd::seq_lib::group_to_multiset_ensures, vstd::multiset::group_multiset_axioms;
    let ghost orig = items@;
    let mut rest = items;
    let mut r: Vec<TaskTreeItem> = Vec::new();
    assert(r@.to_multiset().len() == 0);
    assert(r@.to_multiset() =~= Multiset::empty());
    while rest.len() > 0
        invariant
            sorted_tree(r@),
            r@.to_multiset().add(rest@.to_multiset()) == orig.to_multiset(),
        decreases rest.len(),
    {
        let ghost before_rest = rest@;
        let x = rest.pop().unwrap();
        assert(before_rest == rest@.push(x));
        let mut p: usize = 0;
        while p < r.len() && !task_goes_before(&x, &r[p])
            invariant
                0 <= p <= r.len(),
                forall|k: int| 0 <= k < p ==> !goes_before(x, #[trigger] r@[k]),
            decreases r.len() - p,
        {
            p = p + 1;
        }
        let ghost old_r = r@;
        assert(p < old_r.len() ==> goes_before(x, old_r[p as int]));
        r.insert(p, x);
        assert(r@ == old_r.insert(p as int, x));
        assert forall|i: int, j: int| 0 <= i < j < r@.len() implies !goes_before(#[trigger] r@[j], #[trigger] r@[i]) by {
            if j < p {
                assert(r@[i] == old_r[i] && r@[j] == old_r[j]);
            } else if j == p {
                assert(r@[i] == old_r[i]);
            } else if i < p {
                assert(r@[i] == old_r[i] && r@[j] == old_r[j - 1]);
            } else if i == p {
                assert(r@[j] == old_r[j - 1]);
                assert(goes_before(x, old_r[p as int]));
                if j - 1 > p {
                    assert(!goes_before(old_r[j - 1], old_r[p as int]));
                }
            } else {
                assert(r@[i] == old_r[i - 1] && r@[j] == old_r[j - 1]);
            }
        }
        proof {
            vstd::seq_lib::to_multiset_insert(old_r, p as int, x);
            vstd::seq_lib::to_multiset_build(rest@, x);
        }
        assert(r@.to_multiset() == old_r.to_multiset().insert(x));
        assert(before_rest.to_multiset() == rest@.to_multiset().insert(x));
        assert(r@.to_multiset().add(rest@.to_multiset()) =~= old_r.to_multiset().add(before_rest.to_multiset()));
    }
    assert(rest@.to_multiset().len() == 0);
    assert(rest@.to_multiset() =~= Multiset::empty());
    assert(r@.to_multiset() =~= r@.to_multiset().add(rest@.to_multiset()));
    r
}

/// The tasks an entry holds: its own and its subtasks'.
pub open spec fn entry_size(e: TaskTreeItem) -> int {
    e.subtasks@.len() + 1int
}

/// The number of tasks held by a list of entries.
pub open spec fn tree_size(s: Seq<TaskTreeItem>) -> int
    decreases s.len(),
{
    if s.len() == 0 {
        0
    } else {
        tree_size(s.drop_last()) + entry_size(s.last())
    }
}

/// Replacing one entry changes the count by the difference of the two entries.
proof fn lemma_tree_size_update(s: Seq<TaskTreeItem>, i: int, x: TaskTreeItem)
    requires
        0 <= i < s.len(),
    ensures
        tree_size(s.update(i, x)) == tree_size(s) - entry_size(s[i]) + entry_size(x),
    decreases s.len(),
{
    let u = s.update(i, x);
    if i == s.len() - 1 {
        assert(u.drop_last() =~= s.drop_last());
    } else {
        lemma_tree_size_update(s.drop_last(), i, x);
        assert(u.drop_last() =~= s.drop_last().update(i, x));
    }
}

/// Taking one entry out lowers the count by that entry's tasks.
proof fn lemma_tree_size_remove(s: Seq<TaskTreeItem>, k: int)
    requires
        0 <= k < s.len(),
    ensures
        tree_size(s) == tree_size(s.remove(k)) + entry_size(s[k]),
    decreases s.len(),
{
    if k == s.len() - 1 {
        assert(s.remove(k) =~= s.drop_last());
    } else {
        lemma_tree_size_remove(s.drop_last(), k);
        assert(s.remove(k).drop_last() =~= s.drop_last().remove(k));
        assert(s.remove(k).last() == s.last());
    }
}

/// Reordering the entries keeps the count.
proof fn lemma_tree_size_reorder(a: Seq<TaskTreeItem>, b: Seq<TaskTreeItem>)
    requires
        a.to_multiset() == b.to_multiset(),
    ensures
        tree_size(a) == tree_size(b),
    decreases a.len(),
{
    broadcast use vstd::seq_lib::group_to_multiset_ensures, vstd::multiset::group_multiset_axioms;
    if a.len() == 0 {
        assert(b.to_multiset().len() == 0);
    } else {
        let x = a.last();
        let init = a.drop_last();
        assert(init.push(x) =~= a);
        assert(a.to_multiset() =~= init.to_multiset().insert(x));
        assert(b.to_multiset().count(x) > 0);
        assert(b.contains(x));
        let k = choose|k: int| 0 <= k < b.len() && b[k] == x;
        assert(b.remove(k).to_multiset() == b.to_multiset().remove(x));
        assert(init.to_multiset().insert(x).remove(x) =~= init.to_multiset());
        lemma_tree_size_reorder(init, b.remove(k));
        lemma_tree_size_remove(b, k);
    }
}

/// The tree under construction as plain values: the keys, the task of each
/// entry, and the tasks of each entry's subtasks.
pub struct TreeModel {
    pub keys: Seq<Seq<char>>,
    pub tops: Seq<TaskRes>,
    pub subs: Seq<Seq<TaskRes>>,
}

/// The tasks of an entry's subtasks.
pub open spec fn subtask_tasks(e: TaskTreeItem) -> Seq<TaskRes> {
    e.subtasks@.map_values(|s: TaskTreeItem| s.task)
}

/// The position of key `k` among `keys`.
pub open spec fn key_index(keys: Seq<Seq<char>>, k: Seq<char>) -> int {
    choose|i: int| 0 <= i < keys.len() && keys[i] == k
}

/// What offering task `t` does to the tree: a child joins the subtasks of
/// its parent's entry (`None` when the parent has no entry); a task without
/// a parent becomes the entry under its identifier, replacing any there.
pub open spec fn offer(m: TreeModel, t: TaskRes) -> Option<TreeModel> {
    match parent_key(t) {
        Some(p) => if m.keys.contains(p) {
            let i = key_index(m.keys, p);
            Some(TreeModel { keys: m.keys, tops: m.tops, subs: m.subs.update(i, m.subs[i].push(t)) })
        } else {
            None
        },
        None => if m.keys.contains(t.id@) {
            let i = key_index(m.keys, t.id@);
            Some(TreeModel { keys: m.keys, tops: m.tops.update(i, t), subs: m.subs.update(i, seq![]) })
        } else {
            Some(TreeModel { keys: m.keys.push(t.id@), tops: m.tops.push(t), subs: m.subs.push(seq![]) })
        },
    }
}

/// The tree after offering `t`: unchanged when the offer is refused.
pub open spec fn after_offer(m: TreeModel, t: TaskRes) -> TreeModel {
    match offer(m, t) {
        Some(n) => n,
        None => m,
    }
}

/// The tree with a fetched parent added as the entry under `p`.
pub open spec fn adopt(m: TreeModel, p: Seq<char>, parent: TaskRes) -> TreeModel {
    TreeModel { keys: m.keys.push(p), tops: m.tops.push(parent), subs: m.subs.push(seq![]) }
}

/// The tree a listing builds from `tasks`: each task is offered in turn; when
/// the offer is refused, the parent `fetch(p)` is added under the missing
/// parent identifier `p` and the task is offered again.
pub open spec fn listing_tree(tasks: Seq<TaskRes>, fetch: spec_fn(Seq<char>) -> TaskRes) -> TreeModel
    decreases tasks.len(),
{
    if tasks.len() == 0 {
        TreeModel { keys: seq![], tops: seq![], subs: seq![] }
    } else {
        let m = listing_tree(tasks.drop_last(), fetch);
        let t = tasks.last();
        match offer(m, t) {
            Some(n) => n,
            None => after_offer(adopt(m, parent_key(t)->0, fetch(parent_key(t)->0)), t),
        }
    }
}

/// The tasks of `s` whose parent is `k`, in order.
pub open spec fn children(s: Seq<TaskRes>, k: Seq<char>) -> Seq<TaskRes>
    decreases s.len(),
{
    if s.len() == 0 {
        seq![]
    } else if parent_key(s.last()) == Some(k) {
        children(s.drop_last(), k).push(s.last())
    } else {
        children(s.drop_last(), k)
    }
}

/// The last task of `s` without a parent whose identifier is `k`.
pub open spec fn top_with_id(s: Seq<TaskRes>, k: Seq<char>) -> Option<TaskRes>
    decreases s.len(),
{
    if s.len() == 0 {
        None
    } else if parent_key(s.last()) is None && s.last().id@ == k {
        Some(s.last())
    } else {
        top_with_id(s.drop_last(), k)
    }
}

/// What the tree built from `tasks` holds: distinct keys; under each key,
/// the task without a parent that carries that identifier (or the fetched
/// parent where the listing has none) and, as subtasks, the listed tasks
/// whose parent it is, in listing order; and a key exactly for each
/// identifier of a task without a parent and each parent identifier.
pub open spec fn listing_holds(tasks: Seq<TaskRes>, fetch: spec_fn(Seq<char>) -> TaskRes, m: TreeModel) -> bool {
    &&& m.keys.len() == m.tops.len()
    &&& m.keys.len() == m.subs.len()
    &&& forall|a: int, b: int| 0 <= a < b < m.keys.len() ==> m.keys[a] != m.keys[b]
    &&& forall|k: int| 0 <= k < m.keys.len() ==> #[trigger] m.subs[k] == children(tasks, m.keys[k])
    &&& forall|k: int| 0 <= k < m.keys.len() ==> #[trigger] m.tops[k] == match top_with_id(tasks, m.keys[k]) {
        Some(t) => t,
        None => fetch(m.keys[k]),
    }
    &&& forall|key: Seq<char>| #![trigger m.keys.contains(key)] #![trigger top_with_id(tasks, key)] #![trigger children(tasks, key)]
        m.keys.contains(key) <==> (top_with_id(tasks, key) is Some || children(tasks, key).len() > 0)
}

proof fn lemma_key_index(keys: Seq<Seq<char>>, i: int)
    requires
        0 <= i < keys.len(),
        forall|a: int, b: int| 0 <= a < b < keys.len() ==> keys[a] != keys[b],
    ensures
        key_index(keys, keys[i]) == i,
{
    let j = key_index(keys, keys[i]);
    assert(0 <= j < keys.len() && keys[j] == keys[i]);
}

proof fn lemma_top_with_id_in(s: Seq<TaskRes>, k: Seq<char>)
    requires
        top_with_id(s, k) is Some,
    ensures
        exists|i: int| 0 <= i < s.len() && s[i] == top_with_id(s, k)->0 && parent_key(s[i]) is None && s[i].id@ == k,
    decreases s.len(),
{
    if !(parent_key(s.last()) is None && s.last().id@ == k) {
        lemma_top_with_id_in(s.drop_last(), k);
        let i = choose|i: int| 0 <= i < s.drop_last().len() && s.drop_last()[i] == top_with_id(s.drop_last(), k)->0
            && parent_key(s.drop_last()[i]) is None && s.drop_last()[i].id@ == k;
        assert(s[i] == s.drop_last()[i]);
    } else {
        assert(s[s.len() - 1] == s.last());
    }
}

proof fn lemma_children_in(s: Seq<TaskRes>, k: Seq<char>)
    requires
        children(s, k).len() > 0,
    ensures
        exists|i: int| 0 <= i < s.len() && parent_key(s[i]) == Some(k),
    decreases s.len(),
{
    if parent_key(s.last()) == Some(k) {
        assert(s[s.len() - 1] == s.last());
    } else {
        lemma_children_in(s.drop_last(), k);
        let i = choose|i: int| 0 <= i < s.drop_last().len() && parent_key(s.drop_last()[i]) == Some(k);
        assert(s[i] == s.drop_last()[i]);
    }
}

/// The tree a listing builds holds every listed task once: each task without
/// a parent as the entry under its identifier, each other task as a subtask
/// of its parent's entry in listing order, and each parent that the listing
/// lacks as an entry of its own, fetched once. This holds where identifiers
/// are distinct and a listed parent comes before its children.
pub proof fn lemma_listing_tree(tasks: Seq<TaskRes>, fetch: spec_fn(Seq<char>) -> TaskRes)
    requires
        forall|i: int, j: int| 0 <= i < j < tasks.len() ==> tasks[i].id@ != tasks[j].id@,
        forall|i: int, j: int| 0 <= i < tasks.len() && 0 <= j < tasks.len() && parent_key(tasks[j]) == Some(tasks[i].id@) ==> i < j,
    ensures
        listing_holds(tasks, fetch, listing_tree(tasks, fetch)),
    decreases tasks.len(),
{
    if tasks.len() > 0 {
        let pre = tasks.drop_last();
        let t = tasks.last();
        let last = tasks.len() - 1;
        assert(tasks[last] == t);
        assert forall|i: int, j: int| 0 <= i < j < pre.len() implies pre[i].id@ != pre[j].id@ by {
            assert(pre[i] == tasks[i] && pre[j] == tasks[j]);
        }
        assert forall|i: int, j: int| 0 <= i < pre.len() && 0 <= j < pre.len() && parent_key(pre[j]) == Some(pre[i].id@) implies i < j by {
            assert(pre[i] == tasks[i] && pre[j] == tasks[j]);
        }
        lemma_listing_tree(pre, fetch);
        let m = listing_tree(pre, fetch);
        let r = listing_tree(tasks, fetch);
        match parent_key(t) {
            Some(p) => {
                assert forall|key: Seq<char>| key != p implies children(tasks, key) == children(pre, key) by {}
                assert(children(tasks, p) == children(pre, p).push(t));
                assert forall|key: Seq<char>| top_with_id(tasks, key) == top_with_id(pre, key) by {}
                if m.keys.contains(p) {
                    let i = choose|i: int| 0 <= i < m.keys.len() && m.keys[i] == p;
                    lemma_key_index(m.keys, i);
                    assert(r == TreeModel { keys: m.keys, tops: m.tops, subs: m.subs.update(i, m.subs[i].push(t)) });
                    assert forall|k: int| 0 <= k < r.keys.len() implies #[trigger] r.subs[k] == children(tasks, r.keys[k]) by {
                        if k == i {
                        } else {
                            assert(r.subs[k] == m.subs[k]);
                            assert(m.keys[k] != p);
                        }
                    }
                    assert forall|key: Seq<char>| #![trigger r.keys.contains(key)] r.keys.contains(key) <==> (top_with_id(tasks, key) is Some || children(tasks, key).len() > 0) by {
                        if key != p {
                            assert(m.keys.contains(key) <==> (top_with_id(pre, key) is Some || children(pre, key).len() > 0));
                        }
                    }
                } else {
                    assert(!(top_with_id(pre, p) is Some || children(pre, p).len() > 0));
                    assert(children(pre, p) =~= seq![]);
                    let a = adopt(m, p, fetch(p));
                    let n = m.keys.len() as int;
                    assert(a.keys[n] == p);
                    assert forall|x: int, y: int| 0 <= x < y < a.keys.len() implies a.keys[x] != a.keys[y] by {
                        if y == n {
                            assert(m.keys.contains(m.keys[x]));
                        }
                    }
                    lemma_key_index(a.keys, n);
                    assert(a.keys.contains(p));
                    assert(r == TreeModel { keys: a.keys, tops: a.tops, subs: a.subs.update(n, a.subs[n].push(t)) });
                    assert forall|k: int| 0 <= k < r.keys.len() implies #[trigger] r.subs[k] == children(tasks, r.keys[k]) by {
                        if k == n {
                            assert(r.subs[k] =~= seq![t]);
                            assert(children(tasks, p) =~= seq![t]);
                        } else {
                            assert(r.subs[k] == m.subs[k]);
                            assert(m.keys.contains(m.keys[k]));
                        }
                    }
                    assert forall|k: int| 0 <= k < r.keys.len() implies #[trigger] r.tops[k] == match top_with_id(tasks, r.keys[k]) {
                        Some(u) => u,
                        None => fetch(r.keys[k]),
                    } by {
                        if k < n {
                            assert(r.tops[k] == m.tops[k]);
                        }
                    }
                    assert forall|key: Seq<char>| #![trigger r.keys.contains(key)] r.keys.contains(key) <==> (top_with_id(tasks, key) is Some || children(tasks, key).len() > 0) by {
                        if key != p {
                            assert(m.keys.contains(key) <==> (top_with_id(pre, key) is Some || children(pre, key).len() > 0));
                            if r.keys.contains(key) {
                                let w = choose|w: int| 0 <= w < r.keys.len() && r.keys[w] == key;
                                assert(w < n);
                                assert(m.keys[w] == key);
                            }
                            if m.keys.contains(key) {
                                let w = choose|w: int| 0 <= w < m.keys.len() && m.keys[w] == key;
                                assert(r.keys[w] == key);
                            }
                        } else {
                            assert(r.keys[n] == p);
                        }
                    }
                }
            },
            None => {
                let x = t.id@;
                assert forall|key: Seq<char>| children(tasks, key) == children(pre, key) by {}
                assert forall|key: Seq<char>| key != x implies top_with_id(tasks, key) == top_with_id(pre, key) by {}
                assert(top_with_id(tasks, x) == Some(t));
                assert(top_with_id(pre, x) is None) by {
                    if top_with_id(pre, x) is Some {
                        lemma_top_with_id_in(pre, x);
                        let i = choose|i: int| 0 <= i < pre.len() && pre[i] == top_with_id(pre, x)->0 && parent_key(pre[i]) is None && pre[i].id@ == x;
                        assert(tasks[i] == pre[i]);
                    }
                }
                assert(children(pre, x).len() == 0) by {
                    if children(pre, x).len() > 0 {
                        lemma_children_in(pre, x);
                        let i = choose|i: int| 0 <= i < pre.len() && parent_key(pre[i]) == Some(x);
                        assert(tasks[i] == pre[i]);
                        assert(parent_key(tasks[i]) == Some(tasks[last].id@));
                    }
                }
                assert(!m.keys.contains(x));
                let n = m.keys.len() as int;
                assert(r == TreeModel { keys: m.keys.push(x), tops: m.tops.push(t), subs: m.subs.push(seq![]) });
                assert forall|a: int, b: int| 0 <= a < b < r.keys.len() implies r.keys[a] != r.keys[b] by {
                    if b == n {
                        assert(m.keys.contains(m.keys[a]));
                    }
                }
                assert forall|k: int| 0 <= k < r.keys.len() implies #[trigger] r.subs[k] == children(tasks, r.keys[k]) by {
                    if k == n {
                        assert(children(pre, x) =~= seq![]);
                    } else {
                        assert(r.subs[k] == m.subs[k]);
                    }
                }
                assert forall|k: int| 0 <= k < r.keys.len() implies #[trigger] r.tops[k] == match top_with_id(tasks, r.keys[k]) {
                    Some(u) => u,
                    None => fetch(r.keys[k]),
                } by {
                    if k < n {
                        assert(r.tops[k] == m.tops[k]);
                        assert(m.keys.contains(m.keys[k]));
                        assert(m.keys[k] != x);
                    }
                }
                assert forall|key: Seq<char>| #![trigger r.keys.contains(key)] r.keys.contains(key) <==> (top_with_id(tasks, key) is Some || children(tasks, key).len() > 0) by {
                    if key != x {
                        assert(m.keys.contains(key) <==> (top_with_id(pre, key) is Some || children(pre, key).len() > 0));
                        if r.keys.contains(key) {
                            let w = choose|w: int| 0 <= w < r.keys.len() && r.keys[w] == key;
                            assert(w < n);
                            assert(m.keys[w] == key);
                        }
                        if m.keys.contains(key) {
                            let w = choose|w: int| 0 <= w < m.keys.len() && m.keys[w] == key;
                            assert(r.keys[w] == key);
                        }
                    } else {
                        assert(r.keys[n] == x);
                    }
                }
            },
        }
    }
}

/// The tree under construction: top-level entries, each under a key (the
/// identifier of its task), the keys all distinct.
pub struct TaskTreeBuilder {
    keys: Vec<String>,
    items: Vec<TaskTreeItem>,
}

impl TaskTreeBuilder {
    /// The keys of the entries, in order.
    pub closed spec fn keys_view(&self) -> Seq<Seq<char>> {
        self.keys@.map_values(|k: String| k@)
    }

    /// The entries, in order.
    pub closed spec fn items_view(&self) -> Seq<TaskTreeItem> {
        self.items@
    }

    /// Every entry has one key, no two keys are equal, and every subtask is
    /// childless.
    pub open spec fn wf(&self) -> bool {
        &&& self.keys_view().len() == self.items_view().len()
        &&& forall|i: int, j: int| 0 <= i < j < self.keys_view().len() ==> self.keys_view()[i] != self.keys_view()[j]
        &&& forall|i: int, j: int| 0 <= i < self.items_view().len() && 0 <= j < self.items_view()[i].subtasks@.len()
            ==> (#[trigger] self.items_view()[i].subtasks@[j]).subtasks@.len() == 0
    }

    /// The tree as plain values.
    pub open spec fn model(&self) -> TreeModel {
        TreeModel {
            keys: self.keys_view(),
            tops: self.items_view().map_values(|e: TaskTreeItem| e.task),
            subs: self.items_view().map_values(|e: TaskTreeItem| subtask_tasks(e)),
        }
    }

    pub open spec fn has_key(&self, k: Seq<char>) -> bool {
        self.keys_view().contains(k)
    }

    /// An empty tree.
    pub fn new() -> (b: Self)
        ensures
            b.wf(),
            b.keys_view().len() == 0,
            b.items_view().len() == 0,
            b.model() == (TreeModel { keys: seq![], tops: seq![], subs: seq![] }),
    {
        let b = TaskTreeBuilder { keys: Vec::new(), items: Vec::new() };
        assert(b.keys_view() =~= Seq::empty());
        assert(b.model().tops =~= seq![]);
        assert(b.model().subs =~= seq![]);
        b
    }

    /// The position of the entry under key `k`, if there is one.
    pub fn find_key(&self, k: &str) -> (r: Option<usize>)
        requires
            self.wf(),
        ensures
            r matches Some(i) ==> i < self.keys_view().len() && self.keys_view()[i as int] == k@,
            r is None ==> !self.has_key(k@),
    {
        let mut i: usize = 0;
        while i < self.keys.len()
            invariant
                0 <= i <= self.keys.len(),
                self.keys_view().len() == self.keys.len(),
                forall|j: int| 0 <= j < i ==> self.keys_view()[j] != k@,
            decreases self.keys.len() - i,
        {
            if crate::text::same_text(self.keys[i].as_str(), k) {
                assert(self.keys_view()[i as int] == self.keys@[i as int]@);
                return Some(i);
            }
            assert(self.keys_view()[i as int] == self.keys@[i as int]@);
            i = i + 1;
        }
        assert forall|j: int| 0 <= j < self.keys_view().len() implies self.keys_view()[j] != k@ by {}
        None
    }

    /// Whether an entry is kept under key `k`.
    pub fn contains_key(&self, k: &str) -> (r: bool)
        requires
            self.wf(),
        ensures
            r == self.has_key(k@),
    {
        match self.find_key(k) {
            Some(i) => {
                assert(self.keys_view()[i as int] == k@);
                true
            },
            None => false,
        }
    }

    /// Offers one listed task to the tree.
    /// - A task with a (non-empty) parent identifier joins the subtasks of the
    ///   entry under that identifier; when there is no such entry, nothing
    ///   changes and the task comes back with its parent's identifier, for the
    ///   caller to fetch the parent (see `add_parent`).
    /// - A task without a parent becomes the entry under its own identifier,
    ///   replacing any entry already there.
    ///
    /// No accepted task is lost: the tree holds one task more than before,
    /// except where an entry is replaced, which takes its subtasks with it.
    pub fn add_task(&mut self, task: TaskRes) -> (r: Result<(), (TaskRes, String)>)
        requires
            old(self).wf(),
        ensures
            final(self).wf(),
            final(self).model() == after_offer(old(self).model(), task),
            r is Ok <==> offer(old(self).model(), task) is Some,
            match parent_key(task) {
                Some(p) => if old(self).has_key(p) {
                    &&& r is Ok
                    &&& final(self).keys_view() == old(self).keys_view()
                    &&& final(self).items_view().len() == old(self).items_view().len()
                    &&& tree_size(final(self).items_view()) == tree_size(old(self).items_view()) + 1
                    &&& exists|i: int| 0 <= i < old(self).keys_view().len() && old(self).keys_view()[i] == p && {
                        let e = final(self).items_view()[i];
                        &&& e.task == old(self).items_view()[i].task
                        &&& e.subtasks@.len() == old(self).items_view()[i].subtasks@.len() + 1
                        &&& e.subtasks@.drop_last() == old(self).items_view()[i].subtasks@
                        &&& e.subtasks@.last().task == task
                        &&& e.subtasks@.last().subtasks@.len() == 0
                        &&& forall|j: int| 0 <= j < final(self).items_view().len() && j != i ==> final(self).items_view()[j] == old(self).items_view()[j]
                    }
                } else {
                    &&& r matches Err((t, q)) && t == task && q@ == p
                    &&& final(self).keys_view() == old(self).keys_view()
                    &&& final(self).items_view() == old(self).items_view()
                },
                None => {
                    &&& r is Ok
                    &&& if old(self).has_key(task.id@) {
                        &&& final(self).keys_view() == old(self).keys_view()
                        &&& final(self).items_view().len() == old(self).items_view().len()
                        &&& exists|i: int| 0 <= i < old(self).keys_view().len() && old(self).keys_view()[i] == task.id@ && {
                            &&& tree_size(final(self).items_view()) == tree_size(old(self).items_view()) - entry_size(old(self).items_view()[i]) + 1
                            &&& final(self).items_view()[i].task == task
                            &&& final(self).items_view()[i].subtasks@.len() == 0
                            &&& forall|j: int| 0 <= j < final(self).items_view().len() && j != i ==> final(self).items_view()[j] == old(self).items_view()[j]
                        }
                    } else {
                        &&& final(self).keys_view() == old(self).keys_view().push(task.id@)
                        &&& final(self).items_view().drop_last() == old(self).items_view()
                        &&& final(self).items_view().len() == old(self).items_view().len() + 1
                        &&& tree_size(final(self).items_view()) == tree_size(old(self).items_view()) + 1
                        &&& final(self).items_view().last().task == task
                        &&& final(self).items_view().last().subtasks@.len() == 0
                    }
                },
            },
    {
        let ghost old_items = self.items@;
        let ghost old_keys = self.keys_view();
        let ghost om = self.model();
        let ghost tk = task;
        let parent: Option<String> = match &task.parent_id {
            Some(p) => if p.as_str().is_empty() { None } else { Some(p.clone()) },
            None => None,
        };
        let r = match parent {
            Some(p) => {
                match self.find_key(p.as_str()) {
                    Some(i) => {
                        let mut entry = self.items.remove(i);
                        let child = TaskTreeItem { task, subtasks: Vec::new() };
                        entry.subtasks.push(child);
                        self.items.insert(i, entry);
                        assert(self.items@ =~= old_items.update(i as int, entry));
                        assert(entry.subtasks@.drop_last() =~= old_items[i as int].subtasks@);
                        proof {
                            lemma_tree_size_update(old_items, i as int, entry);
                            lemma_key_index(old_keys, i as int);
                            assert(om.keys[i as int] == p@);
                            assert(subtask_tasks(entry) =~= om.subs[i as int].push(tk));
                            assert(self.model().subs =~= om.subs.update(i as int, om.subs[i as int].push(tk)));
                            assert(self.model().tops =~= om.tops);
                        }
                        assert(self.keys_view() == old_keys);
                        assert(offer(om, tk) == Some(TreeModel { keys: om.keys, tops: om.tops, subs: om.subs.update(i as int, om.subs[i as int].push(tk)) }));
                        assert(self.model() == TreeModel { keys: om.keys, tops: om.tops, subs: om.subs.update(i as int, om.subs[i as int].push(tk)) });
                        assert(after_offer(om, tk) == self.model());
                        Ok(())
                    },
                    None => {
                        assert(!om.keys.contains(p@));
                        assert(offer(om, tk) is None);
                        assert(self.model() == om);
                        assert(after_offer(om, tk) == self.model());
                        Err((task, p))
                    },
                }
            },
            None => {
                match self.find_key(task.id.as_str()) {
                    Some(i) => {
                        let item = TaskTreeItem { task, subtasks: Vec::new() };
                        self.items.set(i, item);
                        assert(self.items@ =~= old_items.update(i as int, item));
                        proof {
                            lemma_tree_size_update(old_items, i as int, item);
                            lemma_key_index(old_keys, i as int);
                            assert(subtask_tasks(item) =~= seq![]);
                            assert(self.model().tops =~= om.tops.update(i as int, tk));
                            assert(self.model().subs =~= om.subs.update(i as int, seq![]));
                            assert(self.model() == after_offer(om, tk));
                        }
                        Ok(())
                    },
                    None => {
                        let k = task.id.clone();
                        let ghost kv = k@;
                        self.keys.push(k);
                        self.items.push(TaskTreeItem { task, subtasks: Vec::new() });
                        assert(self.keys_view() =~= old_keys.push(kv));
                        assert(self.items@.drop_last() =~= old_items);
                        assert forall|i: int, j: int| 0 <= i < j < self.keys_view().len() implies self.keys_view()[i] != self.keys_view()[j] by {
                            if j == old_keys.len() {
                                assert(old_keys[i] == self.keys_view()[i]);
                            }
                        }
                        assert(subtask_tasks(self.items@.last()) =~= seq![]);
                        assert(self.model().tops =~= om.tops.push(tk));
                        assert(self.model().subs =~= om.subs.push(seq![]));
                        assert(self.model() == after_offer(om, tk));
                        Ok(())
                    },
                }
            },
        };
        assert(self.model() == after_offer(om, tk));
        r
    }

    /// Adds a fetched parent task as the entry under `parent_id`, with no subtasks yet.
    pub fn add_parent(&mut self, parent_id: String, parent: TaskRes)
        requires
            old(self).wf(),
            !old(self).has_key(parent_id@),
        ensures
            final(self).wf(),
            final(self).model() == adopt(old(self).model(), parent_id@, parent),
            final(self).has_key(parent_id@),
            final(self).keys_view() == old(self).keys_view().push(parent_id@),
            final(self).items_view().drop_last() == old(self).items_view(),
            final(self).items_view().len() == old(self).items_view().len() + 1,
            tree_size(final(self).items_view()) == tree_size(old(self).items_view()) + 1,
            final(self).items_view().last().task == parent,
            final(self).items_view().last().subtasks@.len() == 0,
    {
        let ghost old_items = self.items@;
        let ghost old_keys = self.keys_view();
        let ghost kv = parent_id@;
        let ghost om = self.model();
        let ghost pt = parent;
        self.keys.push(parent_id);
        self.items.push(TaskTreeItem { task: parent, subtasks: Vec::new() });
        assert(self.keys_view() =~= old_keys.push(kv));
        assert(subtask_tasks(self.items@.last()) =~= seq![]);
        assert(self.model().tops =~= om.tops.push(pt));
        assert(self.model().subs =~= om.subs.push(seq![]));
        assert(self.items@.drop_last() =~= old_items);
        assert(self.keys_view()[old_keys.len() as int] == kv);
        assert forall|i: int, j: int| 0 <= i < j < self.keys_view().len() implies self.keys_view()[i] != self.keys_view()[j] by {
            if j == old_keys.len() {
                assert(old_keys[i] == self.keys_view()[i]);
            }
        }
    }

    /// The finished tree: its entries sorted by start day (earlier first, no
    /// day first), then by end day (later first).
    pub fn finish(self) -> (r: Vec<TaskTreeItem>)
        ensures
            sorted_tree(r@),
            r@.to_multiset() == self.items_view().to_multiset(),
            tree_size(r@) == tree_size(self.items_view()),
    {
        let r = sort_tree(self.items);
        proof { lemma_tree_size_reorder(r@, self.items_view()); }
        r
    }
}

/// The answer that lists a tree of tasks, with the number of its entries.
pub fn tree_list_response(tasks: Vec<TaskTreeItem>) -> (r: TaskListTreeRes)
    ensures
        r.status@ == "success"@,
        r.results == tasks.len(),
        r.tasks == tasks,
{
    TaskListTreeRes { status: "success", results: tasks.len(), tasks }
}

} // verus!
