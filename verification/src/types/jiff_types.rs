//! `ToSql` and `FromSql` for the `jiff` date and time types: stored as the
//! text their `Display` writes and their `FromStr` reads.

use vstd::prelude::*;
use jiff::civil::{Date, DateTime, Time};
use jiff::Timestamp;
use crate::types::{parse_outcome, read_outcome, Error, FromSql, FromSqlError, FromSqlResult, ToSql, ToSqlOutput, Value, ValueRef};
use vstd::utf8::{decode_utf8, valid_utf8};

verus! {

#[verifier::external_type_specification]
#[verifier::external_body]
pub struct ExJiffDate(Date);

#[verifier::external_type_specification]
#[verifier::external_body]
pub struct ExJiffTime(Time);

#[verifier::external_type_specification]
#[verifier::external_body]
pub struct ExJiffDateTime(DateTime);

#[verifier::external_type_specification]
#[verifier::external_body]
pub struct ExJiffTimestamp(Timestamp);

/// Whether `Date`'s `FromStr` reads the text `s`: success, or the parse
/// error's message. Parsing reads nothing but the text.
pub uninterp spec fn jiff_date_parsed(s: Seq<char>) -> Result<(), Seq<char>>;

/// `Date`'s `Display` ("YYYY-MM-DD"). Claimed: the text is one `Date`'s
/// `FromStr` reads back (jiff prints and parses the same Temporal/ISO 8601
/// format).
#[verifier::external_body]
fn date_to_string(v: &Date) -> (s: String)
    ensures
        jiff_date_parsed(s@) is Ok,
{
    v.to_string()
}

/// `Date`'s `FromStr`, or the parse error's message, as [`jiff_date_parsed`] names
/// the outcome.
#[verifier::external_body]
fn date_parse(s: &str) -> (r: Result<Date, String>)
    ensures
        parse_outcome(r) == jiff_date_parsed(s@),
{
    match s.parse::<Date>() {
        Ok(v) => Ok(v),
        Err(e) => Err(e.to_string()),
    }
}

/// A date becomes its text, which reads back as a date.
impl ToSql for Date {
    fn to_sql(&self) -> (r: Result<ToSqlOutput<'_>, Error>)
        ensures
            r matches Ok(ToSqlOutput::Owned(Value::Text(s))) && jiff_date_parsed(s@) is Ok,
    {
        Ok(ToSqlOutput::Owned(Value::Text(date_to_string(self))))
    }
}

/// Text becomes a date: UTF-8 text that `FromStr` reads, else an `Other`
/// error with the parse error's message.
impl FromSql for Date {
    fn column_result(value: ValueRef<'_>) -> (r: FromSqlResult<Self>)
        ensures
            !(value is Text) ==> r matches Err(FromSqlError::InvalidType),
            value matches ValueRef::Text(t) ==> (!valid_utf8(t@) ==> r matches Err(FromSqlError::Other(_))),
            value matches ValueRef::Text(t) ==> (valid_utf8(t@) ==> read_outcome(r) == jiff_date_parsed(decode_utf8(t@))),
            value is Text ==> (r matches Err(e) ==> e is Other),
    {
        match value.as_str() {
            Ok(s) => {
                proof { crate::util::decode_utf8_encode_utf8_text(s); }
                match date_parse(s) {
                    Ok(v) => Ok(v),
                    Err(msg) => Err(FromSqlError::Other(msg)),
                }
            },
            Err(e) => Err(e),
        }
    }
}

/// Whether `Time`'s `FromStr` reads the text `s`: success, or the parse
/// error's message. Parsing reads nothing but the text.
pub uninterp spec fn jiff_time_parsed(s: Seq<char>) -> Result<(), Seq<char>>;

/// `Time`'s `Display` ("HH:MM:SS[.fff]"). Claimed: the text is one `Time`'s
/// `FromStr` reads back (jiff prints and parses the same Temporal/ISO 8601
/// format).
#[verifier::external_body]
fn time_to_string(v: &Time) -> (s: String)
    ensures
        jiff_time_parsed(s@) is Ok,
{
    v.to_string()
}

/// `Time`'s `FromStr`, or the parse error's message, as [`jiff_time_parsed`] names
/// the outcome.
#[verifier::external_body]
fn time_parse(s: &str) -> (r: Result<Time, String>)
    ensures
        parse_outcome(r) == jiff_time_parsed(s@),
{
    match s.parse::<Time>() {
        Ok(v) => Ok(v),
        Err(e) => Err(e.to_string()),
    }
}

/// A time becomes its text, which reads back as a time.
impl ToSql for Time {
    fn to_sql(&self) -> (r: Result<ToSqlOutput<'_>, Error>)
        ensures
            r matches Ok(ToSqlOutput::Owned(Value::Text(s))) && jiff_time_parsed(s@) is Ok,
    {
        Ok(ToSqlOutput::Owned(Value::Text(time_to_string(self))))
    }
}

/// Text becomes a time: UTF-8 text that `FromStr` reads, else an `Other`
/// error with the parse error's message.
impl FromSql for Time {
    fn column_result(value: ValueRef<'_>) -> (r: FromSqlResult<Self>)
        ensures
            !(value is Text) ==> r matches Err(FromSqlError::InvalidType),
            value matches ValueRef::Text(t) ==> (!valid_utf8(t@) ==> r matches Err(FromSqlError::Other(_))),
            value matches ValueRef::Text(t) ==> (valid_utf8(t@) ==> read_outcome(r) == jiff_time_parsed(decode_utf8(t@))),
            value is Text ==> (r matches Err(e) ==> e is Other),
    {
        match value.as_str() {
            Ok(s) => {
                proof { crate::util::decode_utf8_encode_utf8_text(s); }
                match time_parse(s) {
                    Ok(v) => Ok(v),
                    Err(msg) => Err(FromSqlError::Other(msg)),
                }
            },
            Err(e) => Err(e),
        }
    }
}

/// Whether `DateTime`'s `FromStr` reads the text `s`: success, or the parse
/// error's message. Parsing reads nothing but the text.
pub uninterp spec fn jiff_date_time_parsed(s: Seq<char>) -> Result<(), Seq<char>>;

/// `DateTime`'s `Display` ("YYYY-MM-DDTHH:MM:SS[.fff]"). Claimed: the text is one `DateTime`'s
/// `FromStr` reads back (jiff prints and parses the same Temporal/ISO 8601
/// format).
#[verifier::external_body]
fn date_time_to_string(v: &DateTime) -> (s: String)
    ensures
        jiff_date_time_parsed(s@) is Ok,
{
    v.to_string()
}

/// `DateTime`'s `FromStr`, or the parse error's message, as [`jiff_date_time_parsed`] names
/// the outcome.
#[verifier::external_body]
fn date_time_parse(s: &str) -> (r: Result<DateTime, String>)
    ensures
        parse_outcome(r) == jiff_date_time_parsed(s@),
{
    match s.parse::<DateTime>() {
        Ok(v) => Ok(v),
        Err(e) => Err(e.to_string()),
    }
}

/// A date and time becomes its text, which reads back as a date and time.
impl ToSql for DateTime {
    fn to_sql(&self) -> (r: Result<ToSqlOutput<'_>, Error>)
        ensures
            r matches Ok(ToSqlOutput::Owned(Value::Text(s))) && jiff_date_time_parsed(s@) is Ok,
    {
        Ok(ToSqlOutput::Owned(Value::Text(date_time_to_string(self))))
    }
}

/// Text becomes a date and time: UTF-8 text that `FromStr` reads, else an `Other`
/// error with the parse error's message.
impl FromSql for DateTime {
    fn column_result(value: ValueRef<'_>) -> (r: FromSqlResult<Self>)
        ensures
            !(value is Text) ==> r matches Err(FromSqlError::InvalidType),
            value matches ValueRef::Text(t) ==> (!valid_utf8(t@) ==> r matches Err(FromSqlError::Other(_))),
            value matches ValueRef::Text(t) ==> (valid_utf8(t@) ==> read_outcome(r) == jiff_date_time_parsed(decode_utf8(t@))),
            value is Text ==> (r matches Err(e) ==> e is Other),
    {
        match value.as_str() {
            Ok(s) => {
                proof { crate::util::decode_utf8_encode_utf8_text(s); }
                match date_time_parse(s) {
                    Ok(v) => Ok(v),
                    Err(msg) => Err(FromSqlError::Other(msg)),
                }
            },
            Err(e) => Err(e),
        }
    }
}

/// Whether `Timestamp`'s `FromStr` reads the text `s`: success, or the parse
/// error's message. Parsing reads nothing but the text.
pub uninterp spec fn jiff_timestamp_parsed(s: Seq<char>) -> Result<(), Seq<char>>;

/// `Timestamp`'s `Display` (an RFC 3339 UTC text). Claimed: the text is one `Timestamp`'s
/// `FromStr` reads back (jiff prints and parses the same Temporal/ISO 8601
/// format).
#[verifier::external_body]
fn timestamp_to_string(v: &Timestamp) -> (s: String)
    ensures
        jiff_timestamp_parsed(s@) is Ok,
{
    v.to_string()
}

/// `Timestamp`'s `FromStr`, or the parse error's message, as [`jiff_timestamp_parsed`] names
/// the outcome.
#[verifier::external_body]
fn timestamp_parse(s: &str) -> (r: Result<Timestamp, String>)
    ensures
        parse_outcome(r) == jiff_timestamp_parsed(s@),
{
    match s.parse::<Timestamp>() {
        Ok(v) => Ok(v),
        Err(e) => Err(e.to_string()),
    }
}

/// A timestamp becomes its text, which reads back as a timestamp.
impl ToSql for Timestamp {
    fn to_sql(&self) -> (r: Result<ToSqlOutput<'_>, Error>)
        ensures
            r matches Ok(ToSqlOutput::Owned(Value::Text(s))) && jiff_timestamp_parsed(s@) is Ok,
    {
        Ok(ToSqlOutput::Owned(Value::Text(timestamp_to_string(self))))
    }
}

/// Text becomes a timestamp: UTF-8 text that `FromStr` reads, else an `Other`
/// error with the parse error's message.
impl FromSql for Timestamp {
    fn column_result(value: ValueRef<'_>) -> (r: FromSqlResult<Self>)
        ensures
            !(value is Text) ==> r matches Err(FromSqlError::InvalidType),
            value matches ValueRef::Text(t) ==> (!valid_utf8(t@) ==> r matches Err(FromSqlError::Other(_))),
            value matches ValueRef::Text(t) ==> (valid_utf8(t@) ==> read_outcome(r) == jiff_timestamp_parsed(decode_utf8(t@))),
            value is Text ==> (r matches Err(e) ==> e is Other),
    {
        match value.as_str() {
            Ok(s) => {
                proof { crate::util::decode_utf8_encode_utf8_text(s); }
                match timestamp_parse(s) {
                    Ok(v) => Ok(v),
                    Err(msg) => Err(FromSqlError::Other(msg)),
                }
            },
            Err(e) => Err(e),
        }
    }
}

} // verus!
