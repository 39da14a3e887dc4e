//! SQLite values as Rust sees them, and the conversion of a value into Rust
//! types with its errors.

use vstd::prelude::*;
use vstd::string::StringExecFns;
use crate::util::{decimal, digits, push_decimal, push_digits, str_from_utf8};
use vstd::utf8::valid_utf8;
use vstd::string::StringSliceAdditionalSpecFns;

pub mod pathbuf;
pub mod utf8_path;
pub mod ulid_type;
pub mod jiff_types;
pub mod time_types;

verus! {

/// A borrowed SQLite value. Floating-point values are not represented.
#[derive(Clone, Copy, Debug, PartialEq)]
pub enum ValueRef<'a> {
    /// SQL `NULL`.
    Null,
    /// A 64-bit integer.
    Integer(i64),
    /// Text, as the bytes SQLite holds (UTF-8 unless stored otherwise).
    Text(&'a [u8]),
    /// A blob.
    Blob(&'a [u8]),
}

/// An owned SQLite value. Floating-point values are not represented.
#[derive(Debug, PartialEq)]
pub enum Value {
    /// SQL `NULL`.
    Null,
    /// A 64-bit integer.
    Integer(i64),
    /// Text.
    Text(String),
    /// A blob.
    Blob(Vec<u8>),
}

/// What a Rust value becomes when handed to SQLite: a borrowed or an owned
/// value.
#[derive(Debug, PartialEq)]
pub enum ToSqlOutput<'a> {
    /// A borrowed SQLite-representable value.
    Borrowed(ValueRef<'a>),
    /// An owned SQLite-representable value.
    Owned(Value),
}

/// Errors from the `ToSql` conversions.
#[derive(Debug, PartialEq)]
pub enum Error {
    /// The value could not be converted; the conversion error's message.
    ToSqlConversionFailure(String),
}

/// The plain outcome of a parse: success, or the error's message.
pub open spec fn parse_outcome<T>(r: Result<T, String>) -> Result<(), Seq<char>> {
    match r {
        Ok(_) => Ok(()),
        Err(m) => Err(m@),
    }
}

/// The plain outcome of a conversion read from SQLite: success, or the
/// message of an `Other` error (any other error reads as an empty one).
pub open spec fn read_outcome<T>(r: FromSqlResult<T>) -> Result<(), Seq<char>> {
    match r {
        Ok(_) => Ok(()),
        Err(FromSqlError::Other(m)) => Err(m@),
        Err(_) => Err(Seq::empty()),
    }
}

/// A type that can be converted into an SQLite value.
pub trait ToSql {
    /// Converts the Rust value into an SQLite value.
    fn to_sql(&self) -> Result<ToSqlOutput<'_>, Error>;
}

/// Whether a conversion produced the owned integer `i`.
pub open spec fn is_integer_output(r: Result<ToSqlOutput, Error>, i: int) -> bool {
    r matches Ok(ToSqlOutput::Owned(Value::Integer(j))) && j == i
}

impl ToSql for i64 {
    fn to_sql(&self) -> (r: Result<ToSqlOutput<'_>, Error>)
        ensures
            is_integer_output(r, *self as int),
    {
        Ok(ToSqlOutput::Owned(Value::Integer(*self)))
    }
}

impl ToSql for i32 {
    fn to_sql(&self) -> (r: Result<ToSqlOutput<'_>, Error>)
        ensures
            is_integer_output(r, *self as int),
    {
        Ok(ToSqlOutput::Owned(Value::Integer(*self as i64)))
    }
}

impl ToSql for i16 {
    fn to_sql(&self) -> (r: Result<ToSqlOutput<'_>, Error>)
        ensures
            is_integer_output(r, *self as int),
    {
        Ok(ToSqlOutput::Owned(Value::Integer(*self as i64)))
    }
}

impl ToSql for i8 {
    fn to_sql(&self) -> (r: Result<ToSqlOutput<'_>, Error>)
        ensures
            is_integer_output(r, *self as int),
    {
        Ok(ToSqlOutput::Owned(Value::Integer(*self as i64)))
    }
}

impl ToSql for isize {
    fn to_sql(&self) -> (r: Result<ToSqlOutput<'_>, Error>)
        ensures
            is_integer_output(r, *self as int),
    {
        Ok(ToSqlOutput::Owned(Value::Integer(*self as i64)))
    }
}

impl ToSql for u32 {
    fn to_sql(&self) -> (r: Result<ToSqlOutput<'_>, Error>)
        ensures
            is_integer_output(r, *self as int),
    {
        Ok(ToSqlOutput::Owned(Value::Integer(*self as i64)))
    }
}

impl ToSql for u16 {
    fn to_sql(&self) -> (r: Result<ToSqlOutput<'_>, Error>)
        ensures
            is_integer_output(r, *self as int),
    {
        Ok(ToSqlOutput::Owned(Value::Integer(*self as i64)))
    }
}

impl ToSql for u8 {
    fn to_sql(&self) -> (r: Result<ToSqlOutput<'_>, Error>)
        ensures
            is_integer_output(r, *self as int),
    {
        Ok(ToSqlOutput::Owned(Value::Integer(*self as i64)))
    }
}

impl ToSql for bool {
    fn to_sql(&self) -> (r: Result<ToSqlOutput<'_>, Error>)
        ensures
            is_integer_output(r, if *self { 1 } else { 0 }),
    {
        Ok(ToSqlOutput::Owned(Value::Integer(if *self { 1 } else { 0 })))
    }
}

impl ToSql for str {
    fn to_sql(&self) -> (r: Result<ToSqlOutput<'_>, Error>)
        ensures
            r matches Ok(ToSqlOutput::Borrowed(ValueRef::Text(t))) && t@ == self.spec_bytes(),
    {
        Ok(ToSqlOutput::Borrowed(ValueRef::Text(self.as_bytes())))
    }
}

impl ToSql for String {
    fn to_sql(&self) -> (r: Result<ToSqlOutput<'_>, Error>)
        ensures
            r matches Ok(ToSqlOutput::Borrowed(ValueRef::Text(t))) && vstd::utf8::valid_utf8(t@)
                && vstd::utf8::decode_utf8(t@) == self@,
    {
        let s = self.as_str();
        proof { crate::util::decode_utf8_encode_utf8_text(s); }
        Ok(ToSqlOutput::Borrowed(ValueRef::Text(s.as_bytes())))
    }
}

impl ToSql for Vec<u8> {
    fn to_sql(&self) -> (r: Result<ToSqlOutput<'_>, Error>)
        ensures
            r matches Ok(ToSqlOutput::Borrowed(ValueRef::Blob(b))) && b@ == self@,
    {
        Ok(ToSqlOutput::Borrowed(ValueRef::Blob(self.as_slice())))
    }
}

impl ToSql for [u8] {
    fn to_sql(&self) -> (r: Result<ToSqlOutput<'_>, Error>)
        ensures
            r matches Ok(ToSqlOutput::Borrowed(ValueRef::Blob(b))) && b@ == self@,
    {
        Ok(ToSqlOutput::Borrowed(ValueRef::Blob(self)))
    }
}

impl<'a> ToSql for ValueRef<'a> {
    fn to_sql(&self) -> (r: Result<ToSqlOutput<'_>, Error>)
        ensures
            r matches Ok(ToSqlOutput::Borrowed(v)) && v == *self,
    {
        Ok(ToSqlOutput::Borrowed(*self))
    }
}

impl ToSql for Value {
    fn to_sql(&self) -> (r: Result<ToSqlOutput<'_>, Error>)
        ensures
            r matches Ok(ToSqlOutput::Borrowed(v)) && (match (*self, v) {
                (Value::Null, ValueRef::Null) => true,
                (Value::Integer(i), ValueRef::Integer(j)) => i == j,
                (Value::Text(s), ValueRef::Text(t)) => vstd::utf8::valid_utf8(t@) && vstd::utf8::decode_utf8(t@) == s@,
                (Value::Blob(b), ValueRef::Blob(c)) => c@ == b@,
                _ => false,
            }),
    {
        match self {
            Value::Null => Ok(ToSqlOutput::Borrowed(ValueRef::Null)),
            Value::Integer(i) => Ok(ToSqlOutput::Borrowed(ValueRef::Integer(*i))),
            Value::Text(s) => {
                let t = s.as_str();
                proof { crate::util::decode_utf8_encode_utf8_text(t); }
                Ok(ToSqlOutput::Borrowed(ValueRef::Text(t.as_bytes())))
            },
            Value::Blob(b) => Ok(ToSqlOutput::Borrowed(ValueRef::Blob(b.as_slice()))),
        }
    }
}

/// `NULL` for `None`; the value's own conversion for `Some`.
impl<T: ToSql> ToSql for Option<T> {
    fn to_sql(&self) -> (r: Result<ToSqlOutput<'_>, Error>)
        ensures
            *self is None ==> r matches Ok(ToSqlOutput::Borrowed(ValueRef::Null)),
    {
        match self {
            None => Ok(ToSqlOutput::Borrowed(ValueRef::Null)),
            Some(t) => t.to_sql(),
        }
    }
}

/// A reference converts as the value it refers to.
impl<T: ToSql + ?Sized> ToSql for &T {
    fn to_sql(&self) -> (r: Result<ToSqlOutput<'_>, Error>) {
        (**self).to_sql()
    }
}

/// A box converts as the value it holds.
impl<T: ToSql + ?Sized> ToSql for Box<T> {
    fn to_sql(&self) -> (r: Result<ToSqlOutput<'_>, Error>) {
        (**self).to_sql()
    }
}

/// `i64::try_from` on a `u64`: the value when it fits, else the error's
/// message (std documents `TryFrom` between integers as failing exactly
/// when the value is out of the target's range).
#[verifier::external_body]
fn i64_try_from_u64(v: u64) -> (r: Result<i64, String>)
    ensures
        r is Ok <==> v <= i64::MAX,
        r matches Ok(i) ==> i == v,
{
    match i64::try_from(v) {
        Ok(i) => Ok(i),
        Err(e) => Err(e.to_string()),
    }
}

/// A `u64` within `i64`'s range becomes that integer; a larger one cannot
/// be stored.
impl ToSql for u64 {
    fn to_sql(&self) -> (r: Result<ToSqlOutput<'_>, Error>)
        ensures
            *self <= i64::MAX ==> is_integer_output(r, *self as int),
            *self > i64::MAX ==> r matches Err(Error::ToSqlConversionFailure(_)),
    {
        match i64_try_from_u64(*self) {
            Ok(i) => Ok(ToSqlOutput::Owned(Value::Integer(i))),
            Err(msg) => Err(Error::ToSqlConversionFailure(msg)),
        }
    }
}

/// A `usize` within `i64`'s range becomes that integer; a larger one cannot
/// be stored.
impl ToSql for usize {
    fn to_sql(&self) -> (r: Result<ToSqlOutput<'_>, Error>)
        ensures
            *self <= i64::MAX ==> is_integer_output(r, *self as int),
            *self > i64::MAX ==> r matches Err(Error::ToSqlConversionFailure(_)),
    {
        match i64_try_from_u64(*self as u64) {
            Ok(i) => Ok(ToSqlOutput::Owned(Value::Integer(i))),
            Err(msg) => Err(Error::ToSqlConversionFailure(msg)),
        }
    }
}

/// The 16 bytes an `i128` is stored as: big-endian, with the sign bit
/// flipped so that the blobs order as the numbers do.
pub open spec fn biased_i128_bytes(i: i128) -> Seq<u8> {
    let u = (i as u128) ^ 0x8000_0000_0000_0000_0000_0000_0000_0000u128;
    Seq::new(16, |k: int| ((u >> ((120 - 8 * k) as u128)) & 0xffu128) as u8)
}

/// An `i128` becomes a 16-byte blob: its big-endian bytes with the sign
/// bit flipped.
impl ToSql for i128 {
    fn to_sql(&self) -> (r: Result<ToSqlOutput<'_>, Error>)
        ensures
            r matches Ok(ToSqlOutput::Owned(Value::Blob(b))) && b@ == biased_i128_bytes(*self),
    {
        let u: u128 = (*self as u128) ^ 0x8000_0000_0000_0000_0000_0000_0000_0000u128;
        let mut bytes: Vec<u8> = Vec::with_capacity(16);
        let mut k: usize = 0;
        while k < 16
            invariant
                k <= 16,
                u == (*self as u128) ^ 0x8000_0000_0000_0000_0000_0000_0000_0000u128,
                bytes@.len() == k,
                forall|j: int| 0 <= j < k ==> bytes@[j] == ((u >> ((120 - 8 * j) as u128)) & 0xffu128) as u8,
            decreases 16 - k,
        {
            let shift: u128 = (120 - 8 * k) as u128;
            bytes.push(((u >> shift) & 0xffu128) as u8);
            k = k + 1;
        }
        assert(bytes@ =~= biased_i128_bytes(*self));
        Ok(ToSqlOutput::Owned(Value::Blob(bytes)))
    }
}

/// Errors from the `FromSql` conversions.
#[derive(Debug)]
#[non_exhaustive]
pub enum FromSqlError {
    /// The value's type cannot be converted to the requested Rust type.
    InvalidType,
    /// The integer cannot be stored in the requested type.
    OutOfRange(i64),
    /// The blob's size does not match the requested type.
    InvalidBlobSize {
        /// The expected size of the blob.
        expected_size: usize,
        /// The actual size of the blob.
        blob_size: usize,
    },
    /// An error raised by an implementor of `FromSql`, kept as its message.
    Other(String),
}

/// Result type for implementors of the `FromSql` trait.
pub type FromSqlResult<T> = Result<T, FromSqlError>;

/// When two errors compare equal: the same variant with the same data;
/// `Other` errors never compare equal.
pub open spec fn from_sql_error_eq(a: &FromSqlError, b: &FromSqlError) -> bool {
    match (a, b) {
        (FromSqlError::InvalidType, FromSqlError::InvalidType) => true,
        (FromSqlError::OutOfRange(n1), FromSqlError::OutOfRange(n2)) => n1 == n2,
        (
            FromSqlError::InvalidBlobSize { expected_size: es1, blob_size: bs1 },
            FromSqlError::InvalidBlobSize { expected_size: es2, blob_size: bs2 },
        ) => es1 == es2 && bs1 == bs2,
        _ => false,
    }
}

impl PartialEq for FromSqlError {
    fn eq(&self, other: &Self) -> (r: bool) {
        match (self, other) {
            (FromSqlError::InvalidType, FromSqlError::InvalidType) => true,
            (FromSqlError::OutOfRange(n1), FromSqlError::OutOfRange(n2)) => *n1 == *n2,
            (
                FromSqlError::InvalidBlobSize { expected_size: es1, blob_size: bs1 },
                FromSqlError::InvalidBlobSize { expected_size: es2, blob_size: bs2 },
            ) => *es1 == *es2 && *bs1 == *bs2,
            _ => false,
        }
    }
}

impl vstd::std_specs::cmp::PartialEqSpecImpl for FromSqlError {
    open spec fn obeys_eq_spec() -> bool {
        true
    }

    open spec fn eq_spec(&self, other: &FromSqlError) -> bool {
        from_sql_error_eq(self, other)
    }
}

/// The text an error displays.
pub open spec fn from_sql_error_text(e: FromSqlError) -> Seq<char> {
    match e {
        FromSqlError::InvalidType => "Invalid type"@,
        FromSqlError::OutOfRange(i) => "Value "@ + decimal(i as int) + " out of range"@,
        FromSqlError::InvalidBlobSize { expected_size, blob_size } => "Cannot read "@ + digits(
            expected_size as nat,
        ) + " byte value out of "@ + digits(blob_size as nat) + " byte blob"@,
        FromSqlError::Other(msg) => msg@,
    }
}

impl FromSqlError {
    /// Converts an arbitrary error, given by its message, to `FromSqlError`.
    pub fn other(message: String) -> (e: Self)
        ensures
            e == FromSqlError::Other(message),
    {
        FromSqlError::Other(message)
    }

    /// The underlying error of an `Other` error, by its message.
    pub fn source(&self) -> (s: Option<&String>)
        ensures
            s is Some <==> *self is Other,
            *self matches FromSqlError::Other(m) ==> s == Some(&m),
    {
        match self {
            FromSqlError::Other(m) => Some(m),
            _ => None,
        }
    }

    /// The text the error displays.
    pub fn to_string(&self) -> (s: String)
        ensures
            s@ == from_sql_error_text(*self),
    {
        match self {
            FromSqlError::InvalidType => {
                proof { reveal_strlit("Invalid type"); }
                String::from_str("Invalid type")
            },
            FromSqlError::OutOfRange(i) => {
                proof {
                    reveal_strlit("Value ");
                    reveal_strlit(" out of range");
                }
                let mut s = String::from_str("Value ");
                push_decimal(&mut s, *i);
                s.append(" out of range");
                s
            },
            FromSqlError::InvalidBlobSize { expected_size, blob_size } => {
                proof {
                    reveal_strlit("Cannot read ");
                    reveal_strlit(" byte value out of ");
                    reveal_strlit(" byte blob");
                }
                let mut s = String::from_str("Cannot read ");
                push_digits(&mut s, *expected_size as u64);
                s.append(" byte value out of ");
                push_digits(&mut s, *blob_size as u64);
                s.append(" byte blob");
                s
            },
            FromSqlError::Other(m) => m.clone(),
        }
    }
}

impl<'a> ValueRef<'a> {
    /// The integer, if the value is one.
    pub fn as_i64(&self) -> (r: FromSqlResult<i64>)
        ensures
            *self matches ValueRef::Integer(i) ==> r == FromSqlResult::<i64>::Ok(i),
            !(*self is Integer) ==> r == FromSqlResult::<i64>::Err(FromSqlError::InvalidType),
    {
        match self {
            ValueRef::Integer(i) => Ok(*i),
            _ => Err(FromSqlError::InvalidType),
        }
    }

    /// The text, if the value is text and valid UTF-8; `Other` with the
    /// decoding error's message when it is text that is not UTF-8.
    pub fn as_str(&self) -> (r: FromSqlResult<&'a str>)
        ensures
            *self matches ValueRef::Text(t) ==> (valid_utf8(t@) <==> r is Ok),
            *self matches ValueRef::Text(t) ==> (r matches Ok(s) ==> s.spec_bytes() == t@),
            *self matches ValueRef::Text(t) ==> (r matches Err(e) ==> e is Other),
            !(*self is Text) ==> r == FromSqlResult::<&'a str>::Err(FromSqlError::InvalidType),
    {
        match self {
            ValueRef::Text(t) => match str_from_utf8(t) {
                Ok(s) => Ok(s),
                Err(msg) => Err(FromSqlError::Other(msg)),
            },
            _ => Err(FromSqlError::InvalidType),
        }
    }

    /// The bytes, if the value is a blob.
    pub fn as_blob(&self) -> (r: FromSqlResult<&'a [u8]>)
        ensures
            *self matches ValueRef::Blob(b) ==> r == FromSqlResult::<&'a [u8]>::Ok(b),
            !(*self is Blob) ==> r == FromSqlResult::<&'a [u8]>::Err(FromSqlError::InvalidType),
    {
        match self {
            ValueRef::Blob(b) => Ok(*b),
            _ => Err(FromSqlError::InvalidType),
        }
    }
}

/// What converting a value to an integer type with range `lo..=hi` gives:
/// the integer when it is in range, `OutOfRange` with the integer when not,
/// `InvalidType` when the value is no integer.
pub open spec fn integral_result(v: ValueRef, lo: int, hi: int) -> Result<int, FromSqlError> {
    match v {
        ValueRef::Integer(i) => if lo <= i <= hi {
            Ok(i as int)
        } else {
            Err(FromSqlError::OutOfRange(i))
        },
        _ => Err(FromSqlError::InvalidType),
    }
}

/// Whether a conversion result agrees with `integral_result`.
pub open spec fn matches_integral<T>(r: FromSqlResult<T>, v: ValueRef, lo: int, hi: int, as_int: spec_fn(T) -> int) -> bool {
    match (r, integral_result(v, lo, hi)) {
        (Ok(x), Ok(i)) => as_int(x) == i,
        (Err(e1), Err(e2)) => e1 == e2,
        _ => false,
    }
}

/// A type that can be created from an SQLite value.
pub trait FromSql: Sized {
    /// Converts an SQLite value into a Rust value.
    fn column_result(value: ValueRef<'_>) -> FromSqlResult<Self>;
}

impl FromSql for i64 {
    fn column_result(value: ValueRef<'_>) -> (r: FromSqlResult<Self>)
        ensures
            matches_integral(r, value, i64::MIN as int, i64::MAX as int, |x: i64| x as int),
    {
        value.as_i64()
    }
}

impl FromSql for i32 {
    fn column_result(value: ValueRef<'_>) -> (r: FromSqlResult<Self>)
        ensures
            matches_integral(r, value, i32::MIN as int, i32::MAX as int, |x: i32| x as int),
    {
        match value.as_i64() {
            Ok(i) => if i32::MIN as i64 <= i && i <= i32::MAX as i64 {
                Ok(i as i32)
            } else {
                Err(FromSqlError::OutOfRange(i))
            },
            Err(e) => Err(e),
        }
    }
}

impl FromSql for i16 {
    fn column_result(value: ValueRef<'_>) -> (r: FromSqlResult<Self>)
        ensures
            matches_integral(r, value, i16::MIN as int, i16::MAX as int, |x: i16| x as int),
    {
        match value.as_i64() {
            Ok(i) => if i16::MIN as i64 <= i && i <= i16::MAX as i64 {
                Ok(i as i16)
            } else {
                Err(FromSqlError::OutOfRange(i))
            },
            Err(e) => Err(e),
        }
    }
}

impl FromSql for i8 {
    fn column_result(value: ValueRef<'_>) -> (r: FromSqlResult<Self>)
        ensures
            matches_integral(r, value, i8::MIN as int, i8::MAX as int, |x: i8| x as int),
    {
        match value.as_i64() {
            Ok(i) => if i8::MIN as i64 <= i && i <= i8::MAX as i64 {
                Ok(i as i8)
            } else {
                Err(FromSqlError::OutOfRange(i))
            },
            Err(e) => Err(e),
        }
    }
}

impl FromSql for u64 {
    fn column_result(value: ValueRef<'_>) -> (r: FromSqlResult<Self>)
        ensures
            matches_integral(r, value, 0, i64::MAX as int, |x: u64| x as int),
    {
        match value.as_i64() {
            Ok(i) => if 0 <= i {
                Ok(i as u64)
            } else {
                Err(FromSqlError::OutOfRange(i))
            },
            Err(e) => Err(e),
        }
    }
}

impl FromSql for u32 {
    fn column_result(value: ValueRef<'_>) -> (r: FromSqlResult<Self>)
        ensures
            matches_integral(r, value, 0, u32::MAX as int, |x: u32| x as int),
    {
        match value.as_i64() {
            Ok(i) => if 0 <= i && i <= u32::MAX as i64 {
                Ok(i as u32)
            } else {
                Err(FromSqlError::OutOfRange(i))
            },
            Err(e) => Err(e),
        }
    }
}

impl FromSql for u16 {
    fn column_result(value: ValueRef<'_>) -> (r: FromSqlResult<Self>)
        ensures
            matches_integral(r, value, 0, u16::MAX as int, |x: u16| x as int),
    {
        match value.as_i64() {
            Ok(i) => if 0 <= i && i <= u16::MAX as i64 {
                Ok(i as u16)
            } else {
                Err(FromSqlError::OutOfRange(i))
            },
            Err(e) => Err(e),
        }
    }
}

impl FromSql for u8 {
    fn column_result(value: ValueRef<'_>) -> (r: FromSqlResult<Self>)
        ensures
            matches_integral(r, value, 0, u8::MAX as int, |x: u8| x as int),
    {
        match value.as_i64() {
            Ok(i) => if 0 <= i && i <= u8::MAX as i64 {
                Ok(i as u8)
            } else {
                Err(FromSqlError::OutOfRange(i))
            },
            Err(e) => Err(e),
        }
    }
}

impl FromSql for bool {
    fn column_result(value: ValueRef<'_>) -> (r: FromSqlResult<Self>)
        ensures
            value matches ValueRef::Integer(i) ==> r == FromSqlResult::<bool>::Ok(i != 0),
            !(value is Integer) ==> r == FromSqlResult::<bool>::Err(FromSqlError::InvalidType),
    {
        match value.as_i64() {
            Ok(i) => Ok(i != 0),
            Err(e) => Err(e),
        }
    }
}

impl FromSql for String {
    fn column_result(value: ValueRef<'_>) -> (r: FromSqlResult<Self>)
        ensures
            value matches ValueRef::Text(t) ==> (valid_utf8(t@) <==> r is Ok),
            value matches ValueRef::Text(t) ==> (r matches Ok(s) ==> s@ == vstd::utf8::decode_utf8(t@)),
            !(value is Text) ==> r == FromSqlResult::<String>::Err(FromSqlError::InvalidType),
    {
        match value.as_str() {
            Ok(t) => {
                proof { crate::util::decode_utf8_encode_utf8_text(t); }
                Ok(String::from_str(t))
            },
            Err(e) => Err(e),
        }
    }
}

impl FromSql for Vec<u8> {
    fn column_result(value: ValueRef<'_>) -> (r: FromSqlResult<Self>)
        ensures
            value matches ValueRef::Blob(b) ==> (r matches Ok(v) && v@ == b@),
            !(value is Blob) ==> r == FromSqlResult::<Vec<u8>>::Err(FromSqlError::InvalidType),
    {
        match value.as_blob() {
            Ok(b) => Ok(vstd::slice::slice_to_vec(b)),
            Err(e) => Err(e),
        }
    }
}

/// An integer stored by `ToSql` is read back unchanged by the `FromSql` of
/// any integer type whose range holds it, and is reported out of range by
/// the others.
pub proof fn lemma_integer_round_trip(x: i64, lo: int, hi: int)
    ensures
        lo <= x <= hi ==> integral_result(ValueRef::Integer(x), lo, hi) == Ok::<int, FromSqlError>(x as int),
        !(lo <= x <= hi) ==> integral_result(ValueRef::Integer(x), lo, hi) == Err::<int, FromSqlError>(
            FromSqlError::OutOfRange(x),
        ),
{
}

/// Text stored by `ToSql` (its UTF-8 bytes) is valid UTF-8 and is read
/// back by `FromSql` as the same text.
pub proof fn lemma_text_round_trip(s: Seq<char>)
    ensures
        vstd::utf8::valid_utf8(vstd::utf8::encode_utf8(s)),
        vstd::utf8::decode_utf8(vstd::utf8::encode_utf8(s)) == s,
{
    vstd::utf8::encode_utf8_valid_utf8(s);
    vstd::utf8::encode_utf8_decode_utf8(s);
}

} // verus!
