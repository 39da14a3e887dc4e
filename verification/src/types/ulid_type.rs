//! `ToSql` and `FromSql` for `ulid::Ulid`: stored as its 26-character
//! Crockford base32 text.

use vstd::prelude::*;
use ulid::Ulid;
use crate::types::{Error, FromSql, FromSqlError, FromSqlResult, ToSql, ToSqlOutput, Value, ValueRef};
use vstd::utf8::{encode_utf8, valid_utf8};
use vstd::string::StringSliceAdditionalSpecFns;

verus! {

/// A ULID is its 128-bit value (`Ulid(pub u128)`).
#[verifier::external_type_specification]
pub struct ExUlid(Ulid);

/// The Crockford base32 alphabet ULIDs are written in.
pub open spec fn crockford_alphabet() -> Seq<char> {
    seq!['0', '1', '2', '3', '4', '5', '6', '7', '8', '9', 'A', 'B', 'C', 'D', 'E', 'F', 'G', 'H', 'J', 'K',
        'M', 'N', 'P', 'Q', 'R', 'S', 'T', 'V', 'W', 'X', 'Y', 'Z']
}

/// The `i`-th base32 digit of `v`, most significant first (26 digits of
/// 5 bits; the first holds the top 3 bits).
pub open spec fn ulid_digit(v: u128, i: int) -> u128 {
    (v >> ((125 - 5 * i) as u128)) & 0x1fu128
}

/// The text `Ulid::to_string` writes for `v`: its 26 base32 digits.
pub open spec fn ulid_text(v: u128) -> Seq<char> {
    Seq::new(26, |i: int| crockford_alphabet()[ulid_digit(v, i) as int])
}

/// The value of a byte as a base32 digit: the digits, and the letters of
/// the alphabet in either case; `None` for any other byte.
pub open spec fn crockford_value(b: u8) -> Option<u128> {
    let c = if 97 <= b <= 122 { (b - 32) as u8 } else { b };
    if 48 <= b <= 57 {
        Some((b - 48) as u128)
    } else if 65 <= c <= 72 {
        Some((c - 55) as u128)
    } else if c == 74 || c == 75 {
        Some((c - 56) as u128)
    } else if c == 77 || c == 78 {
        Some((c - 57) as u128)
    } else if 80 <= c <= 84 {
        Some((c - 58) as u128)
    } else if 86 <= c <= 90 {
        Some((c - 59) as u128)
    } else {
        None
    }
}

/// The value the bytes `b` denote as base32 digits (each digit shifted in
/// from the right, the high bits falling off), or `None` at an invalid
/// byte.
pub open spec fn crockford_decode(b: Seq<u8>) -> Option<u128>
    decreases b.len(),
{
    if b.len() == 0 {
        Some(0)
    } else {
        match crockford_decode(b.drop_last()) {
            Some(v) => match crockford_value(b.last()) {
                Some(d) => Some((v << 5u128) | d),
                None => None,
            },
            None => None,
        }
    }
}

/// What `Ulid::from_string` gives for a text with the UTF-8 bytes `b`: the
/// value, or the decoding error's message (a length other than 26 bytes,
/// or a byte outside the alphabet).
pub open spec fn ulid_decoded(b: Seq<u8>) -> Result<u128, Seq<char>> {
    if b.len() != 26 {
        Err("invalid length"@)
    } else {
        match crockford_decode(b) {
            Some(v) => Ok(v),
            None => Err("invalid character"@),
        }
    }
}

/// The value a decoding gave, or its error's message.
pub open spec fn decoded_value(r: Result<Ulid, String>) -> Result<u128, Seq<char>> {
    match r {
        Ok(u) => Ok(u.0),
        Err(m) => Err(m@),
    }
}

/// `Ulid::to_string`: its 26 base32 digits (`base32::encode`).
#[verifier::external_body]
fn ulid_to_string(ulid: &Ulid) -> (s: String)
    ensures
        s@ == ulid_text(ulid.0),
{
    ulid.to_string()
}

/// `Ulid::from_string`: the ULID the text encodes, or the decoding error's
/// message (`base32::decode`, with `DecodeError`'s `Display`).
#[verifier::external_body]
fn ulid_from_string(s: &str) -> (r: Result<Ulid, String>)
    ensures
        decoded_value(r) == ulid_decoded(s.spec_bytes()),
{
    match Ulid::from_string(s) {
        Ok(u) => Ok(u),
        Err(e) => Err(e.to_string()),
    }
}

/// A ULID becomes its text.
impl ToSql for Ulid {
    fn to_sql(&self) -> (r: Result<ToSqlOutput<'_>, Error>)
        ensures
            r matches Ok(ToSqlOutput::Owned(Value::Text(s))) && s@ == ulid_text(self.0),
    {
        Ok(ToSqlOutput::Owned(Value::Text(ulid_to_string(self))))
    }
}

/// Text becomes the ULID it encodes; a text of another length, or with a
/// character outside the alphabet, is an `Other` error with the decoding
/// error's message.
impl FromSql for Ulid {
    fn column_result(value: ValueRef<'_>) -> (r: FromSqlResult<Self>)
        ensures
            !(value is Text) ==> r matches Err(FromSqlError::InvalidType),
            value matches ValueRef::Text(t) ==> (!valid_utf8(t@) ==> r matches Err(FromSqlError::Other(_))),
            value matches ValueRef::Text(t) ==> (valid_utf8(t@) ==> (match ulid_decoded(t@) {
                Ok(v) => r matches Ok(u) && u.0 == v,
                Err(m) => r matches Err(FromSqlError::Other(e)) && e@ == m,
            })),
    {
        match value.as_str() {
            Ok(s) => match ulid_from_string(s) {
                Ok(u) => Ok(u),
                Err(msg) => Err(FromSqlError::Other(msg)),
            },
            Err(e) => Err(e),
        }
    }
}

/// Each digit of the alphabet reads back as its value.
proof fn lemma_crockford_digit(d: u128)
    requires
        d < 32,
    ensures
        crockford_value(crockford_alphabet()[d as int] as u8) == Some(d),
{
    if d == 0 {
        assert(crockford_alphabet()[0] == '0');
    }
    if d == 1 {
        assert(crockford_alphabet()[1] == '1');
    }
    if d == 2 {
        assert(crockford_alphabet()[2] == '2');
    }
    if d == 3 {
        assert(crockford_alphabet()[3] == '3');
    }
    if d == 4 {
        assert(crockford_alphabet()[4] == '4');
    }
    if d == 5 {
        assert(crockford_alphabet()[5] == '5');
    }
    if d == 6 {
        assert(crockford_alphabet()[6] == '6');
    }
    if d == 7 {
        assert(crockford_alphabet()[7] == '7');
    }
    if d == 8 {
        assert(crockford_alphabet()[8] == '8');
    }
    if d == 9 {
        assert(crockford_alphabet()[9] == '9');
    }
    if d == 10 {
        assert(crockford_alphabet()[10] == 'A');
    }
    if d == 11 {
        assert(crockford_alphabet()[11] == 'B');
    }
    if d == 12 {
        assert(crockford_alphabet()[12] == 'C');
    }
    if d == 13 {
        assert(crockford_alphabet()[13] == 'D');
    }
    if d == 14 {
        assert(crockford_alphabet()[14] == 'E');
    }
    if d == 15 {
        assert(crockford_alphabet()[15] == 'F');
    }
    if d == 16 {
        assert(crockford_alphabet()[16] == 'G');
    }
    if d == 17 {
        assert(crockford_alphabet()[17] == 'H');
    }
    if d == 18 {
        assert(crockford_alphabet()[18] == 'J');
    }
    if d == 19 {
        assert(crockford_alphabet()[19] == 'K');
    }
    if d == 20 {
        assert(crockford_alphabet()[20] == 'M');
    }
    if d == 21 {
        assert(crockford_alphabet()[21] == 'N');
    }
    if d == 22 {
        assert(crockford_alphabet()[22] == 'P');
    }
    if d == 23 {
        assert(crockford_alphabet()[23] == 'Q');
    }
    if d == 24 {
        assert(crockford_alphabet()[24] == 'R');
    }
    if d == 25 {
        assert(crockford_alphabet()[25] == 'S');
    }
    if d == 26 {
        assert(crockford_alphabet()[26] == 'T');
    }
    if d == 27 {
        assert(crockford_alphabet()[27] == 'V');
    }
    if d == 28 {
        assert(crockford_alphabet()[28] == 'W');
    }
    if d == 29 {
        assert(crockford_alphabet()[29] == 'X');
    }
    if d == 30 {
        assert(crockford_alphabet()[30] == 'Y');
    }
    if d == 31 {
        assert(crockford_alphabet()[31] == 'Z');
    }
}

/// Shifting in the digits of `v` one after another rebuilds `v`: after
/// `k` digits, the top `5 * k - 2` bits of `v`.
proof fn lemma_ulid_prefix(v: u128, b: Seq<u8>, k: int)
    requires
        1 <= k <= 26,
        b.len() == 26,
        forall|i: int| 0 <= i < 26 ==> crockford_value(#[trigger] b[i]) == Some(ulid_digit(v, i)),
    ensures
        crockford_decode(b.take(k)) == Some(v >> ((130 - 5 * k) as u128)),
    decreases k,
{
    let p = b.take(k);
    assert(p.drop_last() =~= b.take(k - 1));
    assert(p.last() == b[k - 1]);
    if k == 1 {
        assert(b.take(0) =~= Seq::<u8>::empty());
        assert(crockford_decode(b.take(0)) == Some(0u128));
        assert(((0u128 << 5u128) | ((v >> 125u128) & 0x1fu128)) == v >> 125u128) by (bit_vector);
    } else {
        lemma_ulid_prefix(v, b, k - 1);
        let s: u128 = (135 - 5 * k) as u128;
        let t: u128 = (130 - 5 * k) as u128;
        assert(5 <= s <= 125 && t + 5 == s);
        assert((((v >> s) << 5u128) | ((v >> t) & 0x1fu128)) == v >> t) by (bit_vector)
            requires
                5 <= s <= 125,
                t + 5 == s;
    }
}

/// The text written for a ULID decodes to the same ULID: its UTF-8 bytes
/// are 26 digits of the alphabet that rebuild the value.
pub proof fn lemma_ulid_text_decodes(v: u128)
    ensures
        valid_utf8(encode_utf8(ulid_text(v))),
        ulid_decoded(encode_utf8(ulid_text(v))) == Ok::<u128, Seq<char>>(v),
{
    let t = ulid_text(v);
    crate::types::lemma_text_round_trip(t);
    assert forall|i: int| 0 <= i < 26 implies ulid_digit(v, i) < 32 by {
        let sh: u128 = (125 - 5 * i) as u128;
        assert(((v >> sh) & 0x1fu128) < 32) by (bit_vector);
    }
    assert(vstd::utf8::is_ascii_chars(t)) by {
        assert forall|i: int| 0 <= i < t.len() implies '\0' <= #[trigger] t[i] <= '\u{7f}' by {
            let d = ulid_digit(v, i);
            assert(d < 32);
        }
    }
    vstd::utf8::is_ascii_chars_encode_utf8(t);
    let b = encode_utf8(t);
    assert forall|i: int| 0 <= i < 26 implies crockford_value(#[trigger] b[i]) == Some(ulid_digit(v, i)) by {
        lemma_crockford_digit(ulid_digit(v, i));
        assert(t[i] as u8 == b[i]);
    }
    lemma_ulid_prefix(v, b, 26);
    assert(b.take(26) =~= b);
    assert(v >> 0u128 == v) by (bit_vector);
}

} // verus!
