//! Records kept as an array inside another record (the properties of a
//! category, the messages of a chat): finding one by identifier, and the
//! `$set` paths that change one.

use crate::models::base::{fields_view, lemma_value_at_concat, lemma_value_at_push, value_at, DocField, FieldValue, ValueView};
use crate::models::error::Error;
use crate::oid::{hex_lower, Oid};
use crate::text::join3;
use vstd::prelude::*;

verus! {

/// An element of an array that carries its own identifier.
pub trait ArrayElem: Sized {
    spec fn elem_id(&self) -> Seq<u8>;

    fn oid(&self) -> (r: &Oid)
        ensures
            r.bytes@ == self.elem_id();
}

impl ArrayElem for crate::models::category::model::PropertyModel {
    open spec fn elem_id(&self) -> Seq<u8> {
        self.id.bytes@
    }

    fn oid(&self) -> (r: &Oid) {
        &self.id
    }
}

impl ArrayElem for crate::models::chat::model::MsgModel {
    open spec fn elem_id(&self) -> Seq<u8> {
        self.id.bytes@
    }

    fn oid(&self) -> (r: &Oid) {
        &self.id
    }
}

/// The first element of `elems` with identifier `id`, as its position.
pub open spec fn first_with_id<E: ArrayElem>(elems: Seq<E>, id: Seq<u8>, i: int) -> bool {
    &&& 0 <= i < elems.len()
    &&& elems[i].elem_id() == id
    &&& forall|k: int| 0 <= k < i ==> (#[trigger] elems[k]).elem_id() != id
}

/// The element of the array with identifier `elem_oid` (the first, should two
/// share it); not found when none has it.
pub fn get_elem<E: ArrayElem>(elems: Vec<E>, elem_oid: &Oid) -> (r: Result<E, Error>)
    ensures
        (exists|i: int| 0 <= i < elems@.len() && elems@[i].elem_id() == elem_oid.bytes@) ==>
            exists|i: int| first_with_id(elems@, elem_oid.bytes@, i) && r == Ok::<E, Error>(elems@[i]),
        !(exists|i: int| 0 <= i < elems@.len() && elems@[i].elem_id() == elem_oid.bytes@) ==>
            (r matches Err(Error::NotFoundError(t)) && t@ == hex_lower(elem_oid.bytes@)),
{
    let ghost orig = elems@;
    let mut v = elems;
    let mut i: usize = 0;
    while i < v.len()
        invariant
            v@ == orig,
            orig == elems@,
            0 <= i <= v.len(),
            forall|k: int| 0 <= k < i ==> (#[trigger] orig[k]).elem_id() != elem_oid.bytes@,
        decreases v.len() - i,
    {
        if v[i].oid().same(elem_oid) {
            let e = v.swap_remove(i);
            assert(e == orig[i as int]);
            assert(first_with_id(orig, elem_oid.bytes@, i as int));
            assert(orig[i as int].elem_id() == elem_oid.bytes@);
            return Ok(e);
        }
        i = i + 1;
    }
    Err(Error::NotFoundError(elem_oid.to_hex()))
}

/// The `$set` entries that change one element of the array `arr_name`, as of
/// time `now`: `updatedAt` first, then each entry of the change under the
/// path `<arr_name>.$[elem].<key>`.
pub open spec fn elem_update_fields(arr_name: Seq<char>, fields: Seq<(Seq<char>, ValueView)>, now: i64) -> Seq<(Seq<char>, ValueView)> {
    seq![("updatedAt"@, ValueView::Time(now))] + Seq::new(fields.len(), |i: int| (arr_name + ".$[elem]."@ + fields[i].0, fields[i].1))
}

/// The path of field `key` of the selected element of array `arr`.
pub open spec fn elem_path(arr: Seq<char>, key: Seq<char>) -> Seq<char> {
    arr + ".$[elem]."@ + key
}

/// Two fields of the same array have the same path only when they are the same field.
pub proof fn lemma_elem_path_injective(arr: Seq<char>, k1: Seq<char>, k2: Seq<char>)
    ensures
        elem_path(arr, k1) == elem_path(arr, k2) <==> k1 == k2,
{
    let pre = arr + ".$[elem]."@;
    if elem_path(arr, k1) == elem_path(arr, k2) {
        assert(elem_path(arr, k1).subrange(pre.len() as int, elem_path(arr, k1).len() as int) =~= k1);
        assert(elem_path(arr, k2).subrange(pre.len() as int, elem_path(arr, k2).len() as int) =~= k2);
    }
}

proof fn lemma_paths_value(arr: Seq<char>, fields: Seq<(Seq<char>, ValueView)>, key: Seq<char>)
    ensures
        value_at(Seq::new(fields.len(), |i: int| (arr + ".$[elem]."@ + fields[i].0, fields[i].1)), elem_path(arr, key)) == value_at(fields, key),
    decreases fields.len(),
{
    broadcast use lemma_value_at_push;
    let ps = Seq::new(fields.len(), |i: int| (arr + ".$[elem]."@ + fields[i].0, fields[i].1));
    if fields.len() == 0 {
        assert(ps =~= Seq::empty());
    } else {
        let init = fields.drop_last();
        lemma_paths_value(arr, init, key);
        let pi = Seq::new(init.len(), |i: int| (arr + ".$[elem]."@ + init[i].0, init[i].1));
        assert(ps =~= pi.push((elem_path(arr, fields.last().0), fields.last().1)));
        lemma_elem_path_injective(arr, fields.last().0, key);
    }
}

/// Changing one element of an array: the change sets `updatedAt` to `now`,
/// and writes under the path of each field of the element what the element's
/// change writes under that field; nothing else.
pub proof fn lemma_elem_update(arr: Seq<char>, fields: Seq<(Seq<char>, ValueView)>, now: i64, key: Seq<char>)
    requires
        arr.len() > 0,
    ensures
        value_at(elem_update_fields(arr, fields, now), "updatedAt"@) == Some(ValueView::Time(now)),
        value_at(elem_update_fields(arr, fields, now), elem_path(arr, key)) == value_at(fields, key),
{
    broadcast use lemma_value_at_concat, lemma_value_at_push;
    reveal_strlit("updatedAt");
    reveal_strlit(".$[elem].");
    assert("updatedAt"@.len() == 9 && ".$[elem]."@.len() == 9);
    let ps = Seq::new(fields.len(), |i: int| (arr + ".$[elem]."@ + fields[i].0, fields[i].1));
    let head = seq![("updatedAt"@, ValueView::Time(now))];
    assert(elem_update_fields(arr, fields, now) == head + ps);
    lemma_paths_value(arr, fields, key);
    assert(value_at(ps, "updatedAt"@) is None) by {
        assert forall|i: int| 0 <= i < ps.len() implies (#[trigger] ps[i]).0 != "updatedAt"@ by {
            assert(ps[i].0.len() >= 9 + arr.len());
        }
        lemma_value_at_absent(ps, "updatedAt"@);
    }
    assert(value_at(head, elem_path(arr, key)) == value_at(head, elem_path(arr, key)));
    assert(elem_path(arr, key).len() >= 9 + arr.len());
}

/// No entry under `key`: the document holds nothing there.
pub proof fn lemma_value_at_absent(fields: Seq<(Seq<char>, ValueView)>, key: Seq<char>)
    requires
        forall|i: int| 0 <= i < fields.len() ==> (#[trigger] fields[i]).0 != key,
    ensures
        value_at(fields, key) is None,
    decreases fields.len(),
{
    if fields.len() > 0 {
        assert(fields[fields.len() - 1] == fields.last());
        assert forall|i: int| 0 <= i < fields.drop_last().len() implies (#[trigger] fields.drop_last()[i]).0 != key by {
            assert(fields.drop_last()[i] == fields[i]);
        }
        lemma_value_at_absent(fields.drop_last(), key);
    }
}

/// The `$set` entries that change one element of the array `arr_name`. The
/// entries of the change have distinct keys, as those of a serialized record do.
pub fn update_elem_fields(arr_name: &str, fields: Vec<DocField>, now: i64) -> (r: Vec<DocField>)
    requires
        forall|i: int, j: int| 0 <= i < j < fields@.len() ==> (#[trigger] fields@[i]).key@ != (#[trigger] fields@[j]).key@,
    ensures
        fields_view(r@) == elem_update_fields(arr_name@, fields_view(fields@), now),
{
    let ghost fv = fields_view(fields@);
    let mut r: Vec<DocField> = Vec::new();
    r.push(DocField { key: String::from_str("updatedAt"), value: FieldValue::Time(now) });
    let mut rest = fields;
    let ghost orig = rest@;
    let mut i: usize = 0;
    let n = rest.len();
    while i < n
        invariant
            n == orig.len(),
            fv == fields_view(orig),
            0 <= i <= n,
            rest@.len() == n - i,
            forall|k: int| 0 <= k < rest@.len() ==> (#[trigger] rest@[k]) == orig[k + i],
            fields_view(r@) == elem_update_fields(arr_name@, fv.take(i as int), now),
        decreases n - i,
    {
        let f = rest.remove(0);
        assert(f == orig[i as int]);
        let ghost old_r = r@;
        let path = join3(arr_name, ".$[elem].", f.key.as_str());
        let entry = DocField { key: path, value: f.value };
        r.push(entry);
        assert(fields_view(r@) =~= fields_view(old_r).push(entry@));
        assert(fv.take(i + 1) =~= fv.take(i as int).push(fv[i as int]));
        assert(fields_view(r@) =~= elem_update_fields(arr_name@, fv.take(i + 1), now));
        i = i + 1;
    }
    assert(fv.take(n as int) =~= fv);
    r
}

} // verus!
