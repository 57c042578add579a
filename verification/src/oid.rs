//! MongoDB object identifiers held as plain bytes, with their hexadecimal form.

use std::str::FromStr;
use vstd::prelude::*;

verus! {

/// A 12-byte object identifier, as MongoDB assigns to every stored document.
#[derive(Debug)]
pub struct Oid {
    pub bytes: [u8; 12],
}

/// `c` is a hexadecimal digit, of either case.
pub open spec fn is_hex_char(c: char) -> bool {
    ||| (48 <= (c as u32) && (c as u32) <= 57)
    ||| (97 <= (c as u32) && (c as u32) <= 102)
    ||| (65 <= (c as u32) && (c as u32) <= 70)
}

/// The value of a hexadecimal digit.
pub open spec fn hex_val(c: char) -> int {
    if 48 <= (c as u32) && (c as u32) <= 57 {
        (c as u32) - 48
    } else if 97 <= (c as u32) && (c as u32) <= 102 {
        (c as u32) - 87
    } else {
        (c as u32) - 55
    }
}

/// The lower-case hexadecimal digit of a value below 16.
pub open spec fn hex_digit(v: int) -> char {
    if v < 10 {
        (48 + v) as char
    } else {
        (87 + v) as char
    }
}

/// `s` is the text form of an object identifier: 24 hexadecimal digits.
pub open spec fn is_oid_hex(s: Seq<char>) -> bool {
    &&& s.len() == 24
    &&& forall|i: int| 0 <= i < 24 ==> #[trigger] is_hex_char(s[i])
}

/// The 12 bytes that 24 hexadecimal digits spell, two digits per byte, high digit first.
pub open spec fn oid_bytes_of_hex(s: Seq<char>) -> Seq<u8> {
    Seq::new(12, |i: int| (hex_val(s[2 * i]) * 16 + hex_val(s[2 * i + 1])) as u8)
}

/// The lower-case hexadecimal text of a byte sequence, two digits per byte.
pub open spec fn hex_lower(b: Seq<u8>) -> Seq<char> {
    Seq::new(
        2 * b.len(),
        |j: int|
            if j % 2 == 0 {
                hex_digit((b[j / 2] / 16) as int)
            } else {
                hex_digit((b[j / 2] % 16) as int)
            },
    )
}

/// Calls `bson::oid::ObjectId::from_str` (through `mongodb::bson`), which
/// decodes the text with `hex::decode` and accepts it only when it decodes to
/// exactly 12 bytes. The contract claims that it succeeds exactly on 24
/// hexadecimal digits (either case) and then yields the bytes they spell; on
/// failure the error's text is handed back, and nothing is claimed of it.
#[verifier::external_body]
fn object_id_from_str(s: &str) -> (r: Result<Oid, String>)
    ensures
        r is Ok <==> is_oid_hex(s@),
        r matches Ok(o) ==> o.bytes@ == oid_bytes_of_hex(s@),
{
    match mongodb::bson::oid::ObjectId::from_str(s) {
        Ok(o) => Ok(Oid { bytes: o.bytes() }),
        Err(e) => Err(e.to_string()),
    }
}

/// Calls `bson::oid::ObjectId::to_hex` (also what its `Display` writes),
/// which is `hex::encode` of the 12 bytes: the contract claims the
/// lower-case hexadecimal text, two digits per byte.
#[verifier::external_body]
fn object_id_to_hex(o: &Oid) -> (s: String)
    ensures
        s@ == hex_lower(o.bytes@),
{
    mongodb::bson::oid::ObjectId::from_bytes(o.bytes).to_hex()
}

/// Calls `bson::oid::ObjectId::new()`, which makes an identifier from the
/// current time, a per-process random value and a counter. Nothing is claimed
/// of the bytes.
#[verifier::external_body]
pub(crate) fn object_id_new() -> (o: Oid) {
    Oid { bytes: mongodb::bson::oid::ObjectId::new().bytes() }
}

impl Oid {
    /// Parses the text form of an identifier; the error holds the parser's message.
    pub fn parse(s: &str) -> (r: Result<Oid, String>)
        ensures
            r is Ok <==> is_oid_hex(s@),
            r matches Ok(o) ==> o.bytes@ == oid_bytes_of_hex(s@),
    {
        object_id_from_str(s)
    }

    /// The lower-case hexadecimal text of the identifier (24 characters).
    pub fn to_hex(&self) -> (s: String)
        ensures
            s@ == hex_lower(self.bytes@),
            s@.len() == 24,
    {
        object_id_to_hex(self)
    }

    /// Two identifiers are equal exactly when their bytes are.
    pub fn same(&self, other: &Oid) -> (r: bool)
        ensures
            r == (self.bytes@ == other.bytes@),
    {
        let mut i: usize = 0;
        while i < 12
            invariant
                0 <= i <= 12,
                forall|k: int| 0 <= k < i ==> self.bytes@[k] == other.bytes@[k],
            decreases 12 - i,
        {
            if self.bytes[i] != other.bytes[i] {
                return false;
            }
            i = i + 1;
        }
        assert(self.bytes@ =~= other.bytes@);
        true
    }

    pub fn copy(&self) -> (r: Oid)
        ensures
            r.bytes@ == self.bytes@,
    {
        Oid { bytes: self.bytes }
    }
}

/// The 16 bytes of a 128-bit number, most significant first.
pub open spec fn u128_be_bytes(x: u128) -> Seq<u8> {
    Seq::new(16, |i: int| ((x >> ((8 * (15 - i)) as u128)) & 0xff) as u8)
}

/// The hyphenated lower-case text of a UUID's 16 bytes: 8-4-4-4-12 hexadecimal digits.
pub open spec fn uuid_hyphenated(b: Seq<u8>) -> Seq<char> {
    let h = hex_lower(b);
    h.subrange(0, 8) + "-"@ + h.subrange(8, 12) + "-"@ + h.subrange(12, 16) + "-"@ + h.subrange(16, 20) + "-"@ + h.subrange(20, 32)
}

/// Calls `uuid::Uuid::from_u128(x).to_string()`. `from_u128` takes the
/// number's bytes most significant first, and `Display` writes the
/// hyphenated lower-case form; the contract claims exactly that text.
#[verifier::external_body]
fn uuid_text(x: u128) -> (s: String)
    ensures
        s@ == uuid_hyphenated(u128_be_bytes(x)),
{
    uuid::Uuid::from_u128(x).to_string()
}

/// The text form of a UUID held as a 128-bit number (hyphenated, lower case).
pub fn uuid_to_string(x: u128) -> (s: String)
    ensures
        s@ == uuid_hyphenated(u128_be_bytes(x)),
{
    uuid_text(x)
}

/// A hexadecimal digit in lower case.
pub open spec fn hex_char_lower(c: char) -> char {
    if 65 <= (c as u32) && (c as u32) <= 70 {
        ((c as u32) + 32) as char
    } else {
        c
    }
}

/// Writing out a parsed identifier gives the text it was read from, in lower case.
pub proof fn lemma_to_hex_parse(s: Seq<char>)
    requires
        is_oid_hex(s),
    ensures
        hex_lower(oid_bytes_of_hex(s)) == s.map_values(|c: char| hex_char_lower(c)),
{
    let b = oid_bytes_of_hex(s);
    let h = hex_lower(b);
    let l = s.map_values(|c: char| hex_char_lower(c));
    assert forall|j: int| 0 <= j < 24 implies #[trigger] h[j] == l[j] by {
        let i = j / 2;
        assert(0 <= i < 12);
        assert(is_hex_char(s[2 * i]) && is_hex_char(s[2 * i + 1]));
        let hi = hex_val(s[2 * i]);
        let lo = hex_val(s[2 * i + 1]);
        assert(0 <= hi < 16 && 0 <= lo < 16);
        assert(b[i] == (hi * 16 + lo) as u8);
        assert((hi * 16 + lo) / 16 == hi && (hi * 16 + lo) % 16 == lo) by (nonlinear_arith)
            requires 0 <= hi < 16, 0 <= lo < 16;
        let c = s[j];
        let v = hex_val(c);
        if j % 2 == 0 {
            assert(j == 2 * i);
            assert(h[j] == hex_digit(hi));
        } else {
            assert(j == 2 * i + 1);
            assert(h[j] == hex_digit(lo));
        }
        assert(h[j] == hex_digit(v));
        assert(is_hex_char(c));
        assert(l[j] == hex_char_lower(c));
    }
    assert(h =~= l);
}

/// Reading back the text form of an identifier gives the identifier again.
pub proof fn lemma_parse_to_hex(b: Seq<u8>)
    requires
        b.len() == 12,
    ensures
        is_oid_hex(hex_lower(b)),
        oid_bytes_of_hex(hex_lower(b)) == b,
{
    let s = hex_lower(b);
    assert forall|j: int| 0 <= j < 24 implies is_hex_char(#[trigger] s[j]) && hex_val(s[j]) == (if j % 2 == 0 { b[j / 2] / 16 } else { b[j / 2] % 16 }) as int by {
        let v: int = if j % 2 == 0 { (b[j / 2] / 16) as int } else { (b[j / 2] % 16) as int };
        assert(0 <= v < 16);
        assert(s[j] == hex_digit(v));
    }
    assert forall|i: int| 0 <= i < 12 implies #[trigger] oid_bytes_of_hex(s)[i] == b[i] by {
        assert((2 * i) % 2 == 0);
        assert((2 * i + 1) % 2 == 1);
        assert((2 * i) / 2 == i);
        assert((2 * i + 1) / 2 == i);
        let x = b[i];
        assert((x / 16) * 16 + x % 16 == x);
    }
    assert(oid_bytes_of_hex(s) =~= b);
}

} // verus!
