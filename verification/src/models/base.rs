//! What every record service shares: the fields of a document to write, the
//! page window of a listing, and how the outcome of a database call turns
//! into a result.

use crate::db_error;
use crate::models::category::model::{props_view, PropertyModel, PropertyView};
use crate::models::error::Error;
use crate::oid::{hex_lower, Oid};
use crate::text::{contains_text, seq_contains_text};
use crate::clock::utc_now_millis;
use vstd::prelude::*;

verus! {

/// A value written into a stored document.
pub enum FieldValue {
    Text(String),
    Flag(bool),
    Int(i64),
    /// A point in time, in milliseconds since the Unix epoch, stored as a BSON date-time.
    Time(i64),
    /// A calendar day, counted as days from the common era (day 1 is 0001-01-01).
    Date(i32),
    /// A point in time, in milliseconds since the Unix epoch, stored in its RFC 3339 text form.
    Instant(i64),
    /// A user identifier (a UUID as a 128-bit number).
    User(u128),
    Id(Oid),
    /// A list of texts.
    Texts(Vec<String>),
    /// A list of category properties, stored as an array of subdocuments.
    Properties(Vec<PropertyModel>),
    Null,
}

/// One `key: value` entry of a document, or one `path: value` entry of a `$set`.
pub struct DocField {
    pub key: String,
    pub value: FieldValue,
}

/// A document value as plain values.
pub enum ValueView {
    Text(Seq<char>),
    Flag(bool),
    Int(i64),
    Time(i64),
    Date(i32),
    Instant(i64),
    User(u128),
    Id(Seq<u8>),
    Texts(Seq<Seq<char>>),
    Properties(Seq<PropertyView>),
    Null,
}

impl View for FieldValue {
    type V = ValueView;

    open spec fn view(&self) -> ValueView {
        match self {
            FieldValue::Text(t) => ValueView::Text(t@),
            FieldValue::Flag(b) => ValueView::Flag(*b),
            FieldValue::Int(i) => ValueView::Int(*i),
            FieldValue::Time(t) => ValueView::Time(*t),
            FieldValue::Date(d) => ValueView::Date(*d),
            FieldValue::Instant(t) => ValueView::Instant(*t),
            FieldValue::User(u) => ValueView::User(*u),
            FieldValue::Id(o) => ValueView::Id(o.bytes@),
            FieldValue::Texts(v) => ValueView::Texts(crate::text::texts_view(v@)),
            FieldValue::Properties(v) => ValueView::Properties(props_view(v@)),
            FieldValue::Null => ValueView::Null,
        }
    }
}

impl View for DocField {
    type V = (Seq<char>, ValueView);

    open spec fn view(&self) -> (Seq<char>, ValueView) {
        (self.key@, self.value@)
    }
}

/// A list of entries as plain values.
pub open spec fn fields_view(fs: Seq<DocField>) -> Seq<(Seq<char>, ValueView)> {
    fs.map_values(|f: DocField| f@)
}

/// The value a document built from these entries holds under `key`: the
/// value of the last entry under it (a later entry replaces an earlier one),
/// none when no entry is under it.
pub open spec fn value_at(fields: Seq<(Seq<char>, ValueView)>, key: Seq<char>) -> Option<ValueView>
    decreases fields.len(),
{
    if fields.len() == 0 {
        None
    } else if fields.last().0 == key {
        Some(fields.last().1)
    } else {
        value_at(fields.drop_last(), key)
    }
}

/// Adding an entry: the document then holds its value under its key, and
/// under every other key what it held before.
pub broadcast proof fn lemma_value_at_push(fields: Seq<(Seq<char>, ValueView)>, e: (Seq<char>, ValueView), key: Seq<char>)
    ensures
        #[trigger] value_at(fields.push(e), key) == if e.0 == key { Some(e.1) } else { value_at(fields, key) },
{
    assert(fields.push(e).drop_last() =~= fields);
}

/// No entries: the document holds nothing.
pub broadcast proof fn lemma_value_at_empty(key: Seq<char>)
    ensures
        #[trigger] value_at(Seq::<(Seq<char>, ValueView)>::empty(), key) is None,
{
}

/// Joining two lists of entries: the second list's value under a key wins.
pub broadcast proof fn lemma_value_at_concat(a: Seq<(Seq<char>, ValueView)>, b: Seq<(Seq<char>, ValueView)>, key: Seq<char>)
    ensures
        #[trigger] value_at(a + b, key) == match value_at(b, key) {
            Some(v) => Some(v),
            None => value_at(a, key),
        },
    decreases b.len(),
{
    if b.len() == 0 {
        assert(a + b =~= a);
    } else {
        lemma_value_at_concat(a, b.drop_last(), key);
        assert((a + b).drop_last() =~= a + b.drop_last());
        assert((a + b).last() == b.last());
    }
}

/// One entry under `key` when the value is present, none otherwise.
pub open spec fn opt_entry(key: Seq<char>, v: Option<ValueView>) -> Seq<(Seq<char>, ValueView)> {
    match v {
        Some(x) => seq![(key, x)],
        None => seq![],
    }
}

/// The text entry of an optional text.
pub open spec fn opt_text_entry(key: Seq<char>, v: Option<String>) -> Seq<(Seq<char>, ValueView)> {
    match v {
        Some(x) => seq![(key, ValueView::Text(x@))],
        None => seq![],
    }
}

/// Adds an entry at the end of a list of entries.
pub fn push_field(fields: &mut Vec<DocField>, key: &str, value: FieldValue)
    ensures
        fields_view(final(fields)@) == fields_view(old(fields)@).push((key@, value@)),
{
    let f = field(key, value);
    fields.push(f);
    assert(fields_view(fields@) =~= fields_view(old(fields)@).push((key@, f.value@)));
}

/// Adds a text entry when the text is present.
pub fn push_opt_text(fields: &mut Vec<DocField>, key: &str, v: &Option<String>)
    ensures
        fields_view(final(fields)@) == fields_view(old(fields)@) + opt_text_entry(key@, *v),
{
    match v {
        Some(t) => {
            push_field(fields, key, FieldValue::Text(t.clone()));
        },
        None => {},
    }
    assert(fields_view(fields@) =~= fields_view(old(fields)@) + opt_text_entry(key@, *v));
}

/// The entry of an optional value, under `key`, when it is present.
pub open spec fn opt_value_entry(key: Seq<char>, v: Option<FieldValue>) -> Seq<(Seq<char>, ValueView)> {
    match v {
        Some(x) => seq![(key, x@)],
        None => seq![],
    }
}

/// Adds an entry when the value is present.
pub fn push_opt(fields: &mut Vec<DocField>, key: &str, v: Option<FieldValue>)
    ensures
        fields_view(final(fields)@) == fields_view(old(fields)@) + opt_value_entry(key@, v),
{
    match v {
        Some(x) => {
            push_field(fields, key, x);
        },
        None => {},
    }
    assert(fields_view(fields@) =~= fields_view(old(fields)@) + opt_value_entry(key@, v));
}

pub fn opt_flag(v: Option<bool>) -> (r: Option<FieldValue>)
    ensures
        r == (match v { Some(b) => Some(FieldValue::Flag(b)), None => None::<FieldValue> }),
{
    match v {
        Some(b) => Some(FieldValue::Flag(b)),
        None => None,
    }
}

pub fn opt_date(v: Option<i32>) -> (r: Option<FieldValue>)
    ensures
        r == (match v { Some(d) => Some(FieldValue::Date(d)), None => None::<FieldValue> }),
{
    match v {
        Some(d) => Some(FieldValue::Date(d)),
        None => None,
    }
}

pub fn opt_instant(v: Option<i64>) -> (r: Option<FieldValue>)
    ensures
        r == (match v { Some(t) => Some(FieldValue::Instant(t)), None => None::<FieldValue> }),
{
    match v {
        Some(t) => Some(FieldValue::Instant(t)),
        None => None,
    }
}

/// An entry of a document.
pub fn field(key: &str, value: FieldValue) -> (f: DocField)
    ensures
        f.key@ == key@,
        f.value == value,
{
    DocField { key: String::from_str(key), value }
}

/// `fields` holds no entry under `key`.
pub open spec fn lacks_key(fields: Seq<DocField>, key: Seq<char>) -> bool {
    forall|i: int| 0 <= i < fields.len() ==> (#[trigger] fields[i]).key@ != key
}

/// `r` is `fields` with `updatedAt` set to `now`: an entry already under that
/// key takes the new value in place, otherwise the entry is added last.
pub open spec fn stamped_at(fields: Seq<DocField>, r: Seq<DocField>, now: i64) -> bool {
    if lacks_key(fields, "updatedAt"@) {
        &&& r.len() == fields.len() + 1
        &&& r.drop_last() == fields
        &&& r.last().key@ == "updatedAt"@
        &&& r.last().value == FieldValue::Time(now)
    } else {
        &&& r.len() == fields.len()
        &&& forall|i: int| 0 <= i < r.len() ==>
            if (#[trigger] fields[i]).key@ == "updatedAt"@ { r[i].key == fields[i].key && r[i].value == FieldValue::Time(now) } else { r[i] == fields[i] }
    }
}

/// Stamping an update twice leaves the second time: the first stamp's entry
/// is overwritten in place.
pub proof fn lemma_restamp(fields: Seq<DocField>, r1: Seq<DocField>, r2: Seq<DocField>, t1: i64, t2: i64)
    requires
        stamped_at(fields, r1, t1),
        stamped_at(r1, r2, t2),
    ensures
        stamped_at(fields, r2, t2),
{
    if lacks_key(fields, "updatedAt"@) {
        let n = fields.len() as int;
        assert(r1[n] == r1.last());
        assert(!lacks_key(r1, "updatedAt"@));
        assert forall|i: int| 0 <= i < n implies r2[i] == fields[i] by {
            assert(r1[i] == r1.drop_last()[i]);
            assert(fields[i] == r1.drop_last()[i]);
            assert(lacks_key(fields, "updatedAt"@) ==> (#[trigger] fields[i]).key@ != "updatedAt"@);
        }
        assert(r2.drop_last() =~= fields);
    } else {
        assert(!lacks_key(r1, "updatedAt"@)) by {
            let w = choose|w: int| 0 <= w < fields.len() && (#[trigger] fields[w]).key@ == "updatedAt"@;
            assert(r1[w].key == fields[w].key);
        }
        assert forall|i: int| 0 <= i < r2.len() implies
            if (#[trigger] fields[i]).key@ == "updatedAt"@ { r2[i].key == fields[i].key && r2[i].value == FieldValue::Time(t2) } else { r2[i] == fields[i] } by {
            if fields[i].key@ == "updatedAt"@ {
                assert(r1[i].key == fields[i].key);
            } else {
                assert(r1[i] == fields[i]);
            }
        }
    }
}

/// An entry under `key`: the document holds some value there.
proof fn lemma_value_at_present(f: Seq<(Seq<char>, ValueView)>, i: int, key: Seq<char>)
    requires
        0 <= i < f.len(),
        f[i].0 == key,
    ensures
        value_at(f, key) is Some,
    decreases f.len(),
{
    if i < f.len() - 1 && f.last().0 != key {
        assert(f.drop_last()[i] == f[i]);
        lemma_value_at_present(f.drop_last(), i, key);
    }
}

/// Replacing the value of every entry under `u` by `v`, in place.
proof fn lemma_value_at_replace(a: Seq<(Seq<char>, ValueView)>, b: Seq<(Seq<char>, ValueView)>, u: Seq<char>, v: ValueView, key: Seq<char>)
    requires
        a.len() == b.len(),
        forall|i: int| 0 <= i < a.len() ==> (#[trigger] a[i]).0 == u ==> b[i] == (u, v),
        forall|i: int| 0 <= i < a.len() ==> (#[trigger] a[i]).0 != u ==> b[i] == a[i],
    ensures
        key != u ==> value_at(b, key) == value_at(a, key),
        value_at(a, u) is Some ==> value_at(b, u) == Some(v),
        value_at(a, u) is None ==> value_at(b, u) is None,
    decreases a.len(),
{
    if a.len() > 0 {
        let n = a.len() - 1;
        assert(a[n] == a.last() && b[n] == b.last());
        assert forall|i: int| 0 <= i < a.drop_last().len() implies (#[trigger] a.drop_last()[i]).0 == u ==> b.drop_last()[i] == (u, v) by {
            assert(a.drop_last()[i] == a[i] && b.drop_last()[i] == b[i]);
        }
        assert forall|i: int| 0 <= i < a.drop_last().len() implies (#[trigger] a.drop_last()[i]).0 != u ==> b.drop_last()[i] == a.drop_last()[i] by {
            assert(a.drop_last()[i] == a[i] && b.drop_last()[i] == b[i]);
        }
        lemma_value_at_replace(a.drop_last(), b.drop_last(), u, v, key);
    }
}

/// After stamping, the update's document holds `now` under `updatedAt` and,
/// under every other key, what it held before.
pub proof fn lemma_stamped_value(fields: Seq<DocField>, r: Seq<DocField>, now: i64, key: Seq<char>)
    requires
        stamped_at(fields, r, now),
    ensures
        value_at(fields_view(r), "updatedAt"@) == Some(ValueView::Time(now)),
        key != "updatedAt"@ ==> value_at(fields_view(r), key) == value_at(fields_view(fields), key),
{
    broadcast use lemma_value_at_push;
    let a = fields_view(fields);
    let b = fields_view(r);
    if lacks_key(fields, "updatedAt"@) {
        assert(b =~= a.push(("updatedAt"@, ValueView::Time(now))));
    } else {
        let w = choose|w: int| 0 <= w < fields.len() && (#[trigger] fields[w]).key@ == "updatedAt"@;
        lemma_value_at_present(a, w, "updatedAt"@);
        lemma_value_at_replace(a, b, "updatedAt"@, ValueView::Time(now), key);
    }
}

/// The entries of an update with `updatedAt` set to `now`: an entry already
/// under that key takes the new value in place, otherwise the entry is added last.
pub fn stamp_updated_at(fields: Vec<DocField>, now: i64) -> (r: Vec<DocField>)
    ensures
        stamped_at(fields@, r@, now),
{
    let mut fields = fields;
    let ghost orig = fields@;
    let key = "updatedAt";
    let mut found = false;
    let mut i: usize = 0;
    while i < fields.len()
        invariant
            fields.len() == orig.len(),
            key@ == "updatedAt"@,
            0 <= i <= fields.len(),
            found == !lacks_key(orig.take(i as int), "updatedAt"@),
            forall|k: int| 0 <= k < fields.len() ==>
                if k < i && (#[trigger] orig[k]).key@ == "updatedAt"@ { fields@[k].key == orig[k].key && fields@[k].value == FieldValue::Time(now) } else { fields@[k] == orig[k] },
        decreases fields.len() - i,
    {
        assert(fields@[i as int] == orig[i as int]);
        let is_key = crate::text::same_text(fields[i].key.as_str(), key);
        assert(is_key == (orig[i as int].key@ == "updatedAt"@));
        let ghost before = fields@;
        if is_key {
            let k = fields[i].key.clone();
            fields.set(i, DocField { key: k, value: FieldValue::Time(now) });
            found = true;
        }
        assert forall|k: int| 0 <= k < fields.len() && k != i implies fields@[k] == before[k] by {}
        let ghost t1 = orig.take(i + 1);
        assert(t1.drop_last() =~= orig.take(i as int));
        assert(t1[i as int] == orig[i as int]);
        assert(!lacks_key(t1, "updatedAt"@) == (!lacks_key(orig.take(i as int), "updatedAt"@) || orig[i as int].key@ == "updatedAt"@)) by {
            if orig[i as int].key@ == "updatedAt"@ {
                assert(t1[i as int].key@ == "updatedAt"@);
            }
            if !lacks_key(orig.take(i as int), "updatedAt"@) {
                let w = choose|w: int| 0 <= w < i && (#[trigger] orig.take(i as int)[w]).key@ == "updatedAt"@;
                assert(t1[w] == orig.take(i as int)[w]);
            }
            if !lacks_key(t1, "updatedAt"@) {
                let w = choose|w: int| 0 <= w < i + 1 && (#[trigger] t1[w]).key@ == "updatedAt"@;
                if w < i {
                    assert(orig.take(i as int)[w] == t1[w]);
                }
            }
        }
        i = i + 1;
    }
    assert(orig.take(fields.len() as int) =~= orig);
    if !found {
        fields.push(field(key, FieldValue::Time(now)));
        assert(fields@.drop_last() =~= orig);
    }
    fields
}

/// The entries of an update, with `updatedAt` set to the current time.
pub fn stamp_updated_now(fields: Vec<DocField>) -> (r: Vec<DocField>)
    ensures
        exists|now: i64| stamped_at(fields@, r@, now),
{
    stamp_updated_at(fields, utc_now_millis())
}

/// The number of records a listing skips to reach page `page` of size `limit`
/// (pages count from 1). The listing unwraps a conversion to `u64`, so a
/// negative offset is left out, as is an offset that overflows `i64`.
pub fn skip_for_page(limit: i64, page: i64) -> (r: u64)
    requires
        0 <= (page - 1) * limit <= i64::MAX,
        page - 1 >= i64::MIN,
    ensures
        r == (page - 1) * limit,
{
    ((page - 1) * limit) as u64
}

/// Consecutive pages are adjacent: page `page + 1` starts `limit` records after page `page`.
pub proof fn lemma_pages_adjacent(limit: int, page: int)
    ensures
        page * limit == (page - 1) * limit + limit,
{
    assert(page * limit == (page - 1) * limit + limit) by (nonlinear_arith);
}

/// The outcome of looking up one document, as the driver reports it:
/// `Ok(Some(doc))`, `Ok(None)` when nothing matched, or `Err` with the driver's message.
pub type FindResult<T> = Result<Option<T>, String>;

/// Turns the outcome of looking up the document with identifier `oid` into a
/// result: the document, `NotFoundError` with the identifier's text, or a
/// query error with the driver's message.
pub fn resolve_find<T>(r: FindResult<T>, oid: &Oid) -> (out: Result<T, Error>)
    ensures
        match r {
            Ok(Some(d)) => out == Ok::<T, Error>(d),
            Ok(None) => (out matches Err(Error::NotFoundError(id)) && id@ == hex_lower(oid.bytes@)),
            Err(m) => (out matches Err(Error::DB(db_error::Error::MongoQueryError(m2))) && m2 == m),
        },
{
    match r {
        Ok(Some(d)) => Ok(d),
        Ok(None) => Err(Error::NotFoundError(oid.to_hex())),
        Err(m) => Err(Error::DB(db_error::Error::MongoQueryError(m))),
    }
}

/// The message text by which MongoDB reports a violated unique index.
pub open spec fn duplicate_key_marker() -> Seq<char> {
    "E11000 duplicate key error collection"@
}

/// Classifies a failed insert by the driver's message: a duplicate key when the
/// message holds MongoDB's duplicate-key marker, a query error otherwise.
pub fn classify_insert_error(message: String) -> (e: Error)
    ensures
        seq_contains_text(message@, duplicate_key_marker()) ==> e == Error::MongoDuplicateError(message),
        !seq_contains_text(message@, duplicate_key_marker()) ==> e == Error::DB(db_error::Error::MongoQueryError(message)),
{
    let marker = "E11000 duplicate key error collection";
    if contains_text(message.as_str(), marker) {
        Error::MongoDuplicateError(message)
    } else {
        Error::DB(db_error::Error::MongoQueryError(message))
    }
}

/// The outcome of deleting the document `id`: not found when nothing was deleted.
pub fn delete_result(deleted_count: u64, id: &str) -> (r: Result<(), Error>)
    ensures
        deleted_count == 0 ==> (r matches Err(Error::NotFoundError(t)) && t@ == id@),
        deleted_count != 0 ==> r is Ok,
{
    if deleted_count == 0 {
        Err(Error::NotFoundError(String::from_str(id)))
    } else {
        Ok(())
    }
}

/// Parses a document identifier; a malformed one is a database error holding the parser's message.
pub fn parse_oid(id: &str) -> (r: Result<Oid, Error>)
    ensures
        r is Ok <==> crate::oid::is_oid_hex(id@),
        r matches Ok(o) ==> o.bytes@ == crate::oid::oid_bytes_of_hex(id@),
        r is Err ==> r matches Err(Error::DB(db_error::Error::MongoGetOidError(_))),
{
    match Oid::parse(id) {
        Ok(o) => Ok(o),
        Err(m) => Err(Error::DB(db_error::Error::MongoGetOidError(m))),
    }
}

} // verus!
