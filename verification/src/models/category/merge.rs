//! Which properties of a deleted category move over to the category that
//! takes its place.

use super::model::{props_view, PropertyModel, PropertyView};
use crate::text::{opt_texts_view, texts_view};
use vstd::prelude::*;

verus! {

/// Some property of `target` is named `name`.
pub open spec fn has_name(target: Seq<PropertyView>, name: Seq<char>) -> bool {
    exists|i: int| 0 <= i < target.len() && (#[trigger] target[i]).name == name
}

/// `o` is an option of `p`.
pub open spec fn prop_has_option(p: PropertyView, o: Seq<char>) -> bool {
    p.options matches Some(opts) && opts.contains(o)
}

/// Some property of `target` offers the option `o`.
pub open spec fn has_option(target: Seq<PropertyView>, o: Seq<char>) -> bool {
    exists|i: int| 0 <= i < target.len() && prop_has_option(#[trigger] target[i], o)
}

/// The options of `opts`, in order, that no property of `target` offers.
pub open spec fn fresh_options(opts: Seq<Seq<char>>, target: Seq<PropertyView>) -> Seq<Seq<char>>
    decreases opts.len(),
{
    if opts.len() == 0 {
        seq![]
    } else {
        let rest = fresh_options(opts.drop_last(), target);
        if has_option(target, opts.last()) {
            rest
        } else {
            rest.push(opts.last())
        }
    }
}

/// What becomes of a property `p` of the deleted category: a property whose
/// name `target` lacks moves unchanged; one whose name `target` has moves only
/// if it has options that `target` lacks, and then with those options alone.
pub open spec fn moved(p: PropertyView, target: Seq<PropertyView>) -> Option<PropertyView> {
    if has_name(target, p.name) {
        match p.options {
            Some(opts) => {
                let f = fresh_options(opts, target);
                if f.len() > 0 {
                    Some(PropertyView { options: Some(f), ..p })
                } else {
                    None
                }
            },
            None => None,
        }
    } else {
        Some(p)
    }
}

/// The properties that move from `to_move` to `target`, in their order in `to_move`.
pub open spec fn merge_spec(to_move: Seq<PropertyView>, target: Seq<PropertyView>) -> Seq<PropertyView>
    decreases to_move.len(),
{
    if to_move.len() == 0 {
        seq![]
    } else {
        let rest = merge_spec(to_move.drop_last(), target);
        match moved(to_move.last(), target) {
            Some(p) => rest.push(p),
            None => rest,
        }
    }
}

/// Every option that survives is one that `target` lacks, and it came from `opts`.
pub proof fn lemma_fresh_options(opts: Seq<Seq<char>>, target: Seq<PropertyView>)
    ensures
        fresh_options(opts, target).len() <= opts.len(),
        forall|x: int| 0 <= x < fresh_options(opts, target).len() ==>
            !has_option(target, #[trigger] fresh_options(opts, target)[x]) && opts.contains(fresh_options(opts, target)[x]),
    decreases opts.len(),
{
    if opts.len() > 0 {
        lemma_fresh_options(opts.drop_last(), target);
        let rest = fresh_options(opts.drop_last(), target);
        assert forall|x: int| 0 <= x < fresh_options(opts, target).len() implies
            !has_option(target, #[trigger] fresh_options(opts, target)[x]) && opts.contains(fresh_options(opts, target)[x]) by {
            if x < rest.len() {
                assert(fresh_options(opts, target)[x] == rest[x]);
                let k = choose|k: int| 0 <= k < opts.drop_last().len() && opts.drop_last()[k] == rest[x];
                assert(opts[k] == rest[x]);
            } else {
                assert(opts[opts.len() - 1] == opts.last());
            }
        }
    }
}

/// What moving properties into a category guarantees:
/// - no more properties move than the deleted category had;
/// - a moved property whose name the target already has brings at least one
///   option, and only options that the target offers nowhere;
/// - every property whose name the target lacks moves unchanged;
/// - every moved property keeps the identifier, name and type of a property
///   of the deleted category.
pub proof fn lemma_merge_properties(to_move: Seq<PropertyView>, target: Seq<PropertyView>)
    ensures
        merge_spec(to_move, target).len() <= to_move.len(),
        forall|j: int| 0 <= j < merge_spec(to_move, target).len() && has_name(target, (#[trigger] merge_spec(to_move, target)[j]).name) ==> {
            &&& merge_spec(to_move, target)[j].options matches Some(o)
            &&& o.len() > 0
            &&& forall|x: int| 0 <= x < o.len() ==> !has_option(target, #[trigger] o[x])
        },
        forall|k: int| 0 <= k < to_move.len() && !has_name(target, (#[trigger] to_move[k]).name) ==> merge_spec(to_move, target).contains(to_move[k]),
        forall|j: int| 0 <= j < merge_spec(to_move, target).len() ==> exists|k: int| 0 <= k < to_move.len() && {
            &&& (#[trigger] to_move[k]).id == (#[trigger] merge_spec(to_move, target)[j]).id
            &&& to_move[k].name == merge_spec(to_move, target)[j].name
            &&& to_move[k].prop_type == merge_spec(to_move, target)[j].prop_type
        },
    decreases to_move.len(),
{
    if to_move.len() > 0 {
        let init = to_move.drop_last();
        let p = to_move.last();
        lemma_merge_properties(init, target);
        let rest = merge_spec(init, target);
        let m = merge_spec(to_move, target);
        if let Some(opts) = p.options {
            lemma_fresh_options(opts, target);
        }
        assert forall|j: int| 0 <= j < m.len() && has_name(target, (#[trigger] m[j]).name) implies {
            &&& m[j].options matches Some(o)
            &&& o.len() > 0
            &&& forall|x: int| 0 <= x < o.len() ==> !has_option(target, #[trigger] o[x])
        } by {
            if j < rest.len() {
                assert(m[j] == rest[j]);
            }
        }
        assert forall|k: int| 0 <= k < to_move.len() && !has_name(target, (#[trigger] to_move[k]).name) implies m.contains(to_move[k]) by {
            if k < init.len() {
                assert(init[k] == to_move[k]);
                let jj = choose|jj: int| 0 <= jj < rest.len() && rest[jj] == init[k];
                assert(m[jj] == rest[jj]);
            } else {
                assert(to_move[k] == p);
                assert(m[m.len() - 1] == p);
            }
        }
        assert forall|j: int| 0 <= j < m.len() implies exists|k: int| 0 <= k < to_move.len() && {
            &&& (#[trigger] to_move[k]).id == (#[trigger] m[j]).id
            &&& to_move[k].name == m[j].name
            &&& to_move[k].prop_type == m[j].prop_type
        } by {
            if j < rest.len() {
                assert(m[j] == rest[j]);
                let k = choose|k: int| 0 <= k < init.len() && {
                    &&& (#[trigger] init[k]).id == (#[trigger] rest[j]).id
                    &&& init[k].name == rest[j].name
                    &&& init[k].prop_type == rest[j].prop_type
                };
                assert(to_move[k] == init[k]);
            } else {
                assert(to_move[to_move.len() - 1] == p);
            }
        }
    }
}

/// No option of `opts` is fresh where each of them is already taken.
proof fn lemma_no_fresh_options(opts: Seq<Seq<char>>, target: Seq<PropertyView>)
    requires
        forall|i: int| 0 <= i < opts.len() ==> has_option(target, #[trigger] opts[i]),
    ensures
        fresh_options(opts, target).len() == 0,
    decreases opts.len(),
{
    if opts.len() > 0 {
        let init = opts.drop_last();
        assert forall|i: int| 0 <= i < init.len() implies has_option(target, #[trigger] init[i]) by {
            assert(init[i] == opts[i]);
        }
        lemma_no_fresh_options(init, target);
        assert(has_option(target, opts[opts.len() - 1]));
    }
}

/// Each option is either taken already or fresh.
proof fn lemma_taken_or_fresh(opts: Seq<Seq<char>>, target: Seq<PropertyView>)
    ensures
        forall|i: int| 0 <= i < opts.len() ==> has_option(target, #[trigger] opts[i]) || fresh_options(opts, target).contains(opts[i]),
    decreases opts.len(),
{
    if opts.len() > 0 {
        let init = opts.drop_last();
        lemma_taken_or_fresh(init, target);
        let rest = fresh_options(init, target);
        assert forall|i: int| 0 <= i < opts.len() implies has_option(target, #[trigger] opts[i]) || fresh_options(opts, target).contains(opts[i]) by {
            if i < init.len() {
                assert(init[i] == opts[i]);
                if !has_option(target, opts[i]) {
                    let w = choose|w: int| 0 <= w < rest.len() && rest[w] == init[i];
                    if !has_option(target, opts.last()) {
                        assert(fresh_options(opts, target)[w] == rest[w]);
                    }
                }
            } else if !has_option(target, opts[i]) {
                assert(fresh_options(opts, target) == rest.push(opts.last()));
                assert(fresh_options(opts, target)[rest.len() as int] == opts[i]);
            }
        }
    }
}

/// Whatever `moved` makes of a property is among the properties that move.
proof fn lemma_moved_is_merged(to_move: Seq<PropertyView>, target: Seq<PropertyView>, k: int)
    requires
        0 <= k < to_move.len(),
        moved(to_move[k], target) is Some,
    ensures
        merge_spec(to_move, target).contains(moved(to_move[k], target)->0),
    decreases to_move.len(),
{
    let init = to_move.drop_last();
    let rest = merge_spec(init, target);
    if k < init.len() {
        assert(init[k] == to_move[k]);
        lemma_moved_is_merged(init, target, k);
        let w = choose|w: int| 0 <= w < rest.len() && rest[w] == moved(init[k], target)->0;
        assert(merge_spec(to_move, target)[w] == rest[w]);
    } else {
        assert(to_move[k] == to_move.last());
        assert(merge_spec(to_move, target)[rest.len() as int] == moved(to_move.last(), target)->0);
    }
}

/// Nothing moves where no single property would.
proof fn lemma_nothing_moves(to_move: Seq<PropertyView>, target: Seq<PropertyView>)
    requires
        forall|k: int| 0 <= k < to_move.len() ==> moved(#[trigger] to_move[k], target) is None,
    ensures
        merge_spec(to_move, target).len() == 0,
    decreases to_move.len(),
{
    if to_move.len() > 0 {
        let init = to_move.drop_last();
        assert forall|k: int| 0 <= k < init.len() implies moved(#[trigger] init[k], target) is None by {
            assert(init[k] == to_move[k]);
        }
        lemma_nothing_moves(init, target);
        assert(moved(to_move[to_move.len() - 1], target) is None);
    }
}

/// Moving the same properties a second time, into the category that already
/// took them in, moves nothing: every name and every option is then taken.
pub proof fn lemma_merge_twice(to_move: Seq<PropertyView>, target: Seq<PropertyView>)
    ensures
        merge_spec(to_move, target + merge_spec(to_move, target)).len() == 0,
{
    let m = merge_spec(to_move, target);
    let t2 = target + m;
    assert forall|k: int| 0 <= k < to_move.len() implies moved(#[trigger] to_move[k], t2) is None by {
        let p = to_move[k];
        if let Some(opts) = p.options {
            lemma_taken_or_fresh(opts, target);
            let f = fresh_options(opts, target);
            if has_name(target, p.name) {
                let w = choose|w: int| 0 <= w < target.len() && (#[trigger] target[w]).name == p.name;
                assert(t2[w] == target[w]);
                assert(has_name(t2, p.name));
            }
            if !has_name(target, p.name) || f.len() > 0 {
                lemma_moved_is_merged(to_move, target, k);
                let q = moved(p, target)->0;
                let j = choose|j: int| 0 <= j < m.len() && m[j] == q;
                assert(t2[target.len() + j] == q);
                assert(has_name(t2, p.name));
            }
            assert forall|i: int| 0 <= i < opts.len() implies has_option(t2, #[trigger] opts[i]) by {
                if has_option(target, opts[i]) {
                    let w = choose|w: int| 0 <= w < target.len() && prop_has_option(#[trigger] target[w], opts[i]);
                    assert(t2[w] == target[w]);
                } else {
                    let q = moved(p, target)->0;
                    let j = choose|j: int| 0 <= j < m.len() && m[j] == q;
                    assert(t2[target.len() + j] == q);
                    if has_name(target, p.name) {
                        assert(f.contains(opts[i]));
                        assert(q.options == Some(f));
                        assert(prop_has_option(t2[target.len() + j], opts[i]));
                    } else {
                        assert(opts.contains(opts[i]));
                        assert(prop_has_option(t2[target.len() + j], opts[i]));
                    }
                }
            }
            lemma_no_fresh_options(opts, t2);
        } else {
            if has_name(target, p.name) {
                let w = choose|w: int| 0 <= w < target.len() && (#[trigger] target[w]).name == p.name;
                assert(t2[w] == target[w]);
            } else {
                lemma_moved_is_merged(to_move, target, k);
                let j = choose|j: int| 0 <= j < m.len() && m[j] == p;
                assert(t2[target.len() + j] == p);
            }
            assert(has_name(t2, p.name));
        }
    }
    lemma_nothing_moves(to_move, t2);
}

fn name_taken(target: &Vec<PropertyModel>, name: &String) -> (r: bool)
    ensures
        r == has_name(props_view(target@), name@),
{
    let ghost tv = props_view(target@);
    let mut i: usize = 0;
    while i < target.len()
        invariant
            0 <= i <= target.len(),
            tv == props_view(target@),
            forall|k: int| 0 <= k < i ==> tv[k].name != name@,
        decreases target.len() - i,
    {
        if target[i].name == *name {
            assert(tv[i as int].name == name@);
            return true;
        }
        i = i + 1;
    }
    false
}

fn option_in_prop(p: &PropertyModel, o: &String) -> (r: bool)
    ensures
        r == prop_has_option(p@, o@),
{
    match &p.options {
        Some(opts) => {
            let ghost ov = texts_view(opts@);
            assert(p@.options == Some(ov));
            let mut j: usize = 0;
            while j < opts.len()
                invariant
                    p@.options == Some(ov),
                    0 <= j <= opts.len(),
                    ov == texts_view(opts@),
                    forall|k: int| 0 <= k < j ==> ov[k] != o@,
                decreases opts.len() - j,
            {
                if opts[j] == *o {
                    assert(ov[j as int] == o@);
                    assert(ov.contains(o@));
                    return true;
                }
                j = j + 1;
            }
            false
        },
        None => false,
    }
}

fn option_taken(target: &Vec<PropertyModel>, o: &String) -> (r: bool)
    ensures
        r == has_option(props_view(target@), o@),
{
    let ghost tv = props_view(target@);
    let mut i: usize = 0;
    while i < target.len()
        invariant
            0 <= i <= target.len(),
            tv == props_view(target@),
            forall|k: int| 0 <= k < i ==> !prop_has_option(tv[k], o@),
        decreases target.len() - i,
    {
        if option_in_prop(&target[i], o) {
            assert(prop_has_option(tv[i as int], o@));
            return true;
        }
        i = i + 1;
    }
    false
}

fn fresh_options_of(opts: &Vec<String>, target: &Vec<PropertyModel>) -> (r: Vec<String>)
    ensures
        texts_view(r@) == fresh_options(texts_view(opts@), props_view(target@)),
{
    let ghost ov = texts_view(opts@);
    let ghost tv = props_view(target@);
    let mut r: Vec<String> = Vec::new();
    let mut i: usize = 0;
    while i < opts.len()
        invariant
            0 <= i <= opts.len(),
            ov == texts_view(opts@),
            tv == props_view(target@),
            texts_view(r@) == fresh_options(ov.take(i as int), tv),
        decreases opts.len() - i,
    {
        assert(ov.take(i + 1).drop_last() =~= ov.take(i as int));
        assert(ov.take(i + 1).last() == ov[i as int]);
        if !option_taken(target, &opts[i]) {
            let c = opts[i].clone();
            let ghost old_r = r@;
            r.push(c);
            assert(texts_view(r@) =~= texts_view(old_r).push(c@));
        }
        i = i + 1;
    }
    assert(ov.take(opts.len() as int) =~= ov);
    r
}

/// The properties of a deleted category (`to_move`) that move to the category
/// `target` that takes its place, in their order.
pub fn props_to_move(to_move: Vec<PropertyModel>, target: &Vec<PropertyModel>) -> (r: Vec<PropertyModel>)
    ensures
        props_view(r@) == merge_spec(props_view(to_move@), props_view(target@)),
{
    let ghost mv = props_view(to_move@);
    let ghost tv = props_view(target@);
    let mut r: Vec<PropertyModel> = Vec::new();
    let mut i: usize = 0;
    let n = to_move.len();
    while i < n
        invariant
            n == mv.len(),
            n == to_move.len(),
            mv == props_view(to_move@),
            tv == props_view(target@),
            0 <= i <= n,
            props_view(r@) == merge_spec(mv.take(i as int), tv),
        decreases n - i,
    {
        let prop = to_move[i].copy();
        assert(prop@ == mv[i as int]);
        assert(mv.take(i + 1).drop_last() =~= mv.take(i as int));
        assert(mv.take(i + 1).last() == mv[i as int]);
        let ghost old_r = r@;
        if name_taken(target, &prop.name) {
            match &prop.options {
                Some(opts) => {
                    let new_options = fresh_options_of(opts, target);
                    if new_options.len() > 0 {
                        let updated = PropertyModel {
                            id: prop.id.copy(),
                            name: prop.name.clone(),
                            prop_type: prop.prop_type,
                            options: Some(new_options),
                        };
                        r.push(updated);
                        assert(props_view(r@) =~= props_view(old_r).push(updated@));
                    }
                },
                None => {},
            }
        } else {
            r.push(prop);
            assert(props_view(r@) =~= props_view(old_r).push(prop@));
        }
        i = i + 1;
    }
    assert(mv.take(n as int) =~= mv);
    r
}

} // verus!
