//! `ToSql` and `FromSql` for the `time` crate's date and time types. Values
//! are stored as ISO 8601 text; reading picks the format from the text's
//! length and separators.

use vstd::prelude::*;
use vstd::utf8::encode_utf8;
use vstd::string::StringSliceAdditionalSpecFns;
use ::time::format_description::OwnedFormatItem;
use ::time::format_description::well_known::Rfc3339;
use ::time::{Date, OffsetDateTime, PlainDateTime, Time, UtcOffset};
use crate::types::{parse_outcome, read_outcome, Error, FromSql, FromSqlError, FromSqlResult, ToSql, ToSqlOutput, Value, ValueRef};
use vstd::utf8::{decode_utf8, valid_utf8};
use crate::util::{string_push, str_strip_suffix};
use vstd::string::StringExecFns;
use self::utc::{checked_to_utc, offset_format};

mod utc;

verus! {

#[verifier::external_type_specification]
#[verifier::external_body]
pub struct ExTimeDate(Date);

#[verifier::external_type_specification]
#[verifier::external_body]
pub struct ExTimeTime(Time);

#[verifier::external_type_specification]
#[verifier::external_body]
pub struct ExPlainDateTime(PlainDateTime);

#[verifier::external_type_specification]
#[verifier::external_body]
pub struct ExOffsetDateTime(OffsetDateTime);

#[verifier::external_type_specification]
#[verifier::external_body]
pub struct ExOwnedFormatItem(OwnedFormatItem);

/// "YYYY-MM-DD HH:MM:SS".
pub const PRIMITIVE_SHORT_DATE_TIME_FORMAT: &'static str = "[year]-[month]-[day] [hour]:[minute]:[second]";
/// "YYYY-MM-DD HH:MM:SS.SSSZ".
pub const PRIMITIVE_DATE_TIME_Z_FORMAT: &'static str = "[year]-[month]-[day] [hour]:[minute]:[second].[subsecond]Z";
/// "YYYY-MM-DD HH:MM:SS[+-]HH:MM".
pub const OFFSET_SHORT_DATE_TIME_FORMAT: &'static str =
    "[year]-[month]-[day] [hour]:[minute]:[second][offset_hour sign:mandatory]:[offset_minute]";
/// "YYYY-MM-DD HH:MM:SS.SSS[+-]HH:MM".
pub const OFFSET_DATE_TIME_FORMAT: &'static str =
    "[year]-[month]-[day] [hour]:[minute]:[second].[subsecond][offset_hour sign:mandatory]:[offset_minute]";
/// "YYYY-MM-DD HH:MM:SS:SSS [+-]HH:MM", written by older versions.
pub const LEGACY_DATE_TIME_FORMAT: &'static str =
    "[year]-[month]-[day] [hour]:[minute]:[second]:[subsecond] [offset_hour sign:mandatory]:[offset_minute]";
/// "YYYY-MM-DD HH:MM:SS.SSS".
pub const PRIMITIVE_DATE_TIME_FORMAT: &'static str = "[year]-[month]-[day] [hour]:[minute]:[second].[subsecond]";
/// "YYYY-MM-DDTHH:MM:SS".
pub const PRIMITIVE_SHORT_DATE_TIME_FORMAT_T: &'static str = "[year]-[month]-[day]T[hour]:[minute]:[second]";
/// "YYYY-MM-DDTHH:MM:SS.SSS".
pub const PRIMITIVE_DATE_TIME_FORMAT_T: &'static str = "[year]-[month]-[day]T[hour]:[minute]:[second].[subsecond]";
/// "YYYY-MM-DD".
pub const DATE_FORMAT: &'static str = "[year]-[month]-[day]";
/// "HH:MM".
pub const TIME_FORMAT: &'static str = "[hour]:[minute]";
/// "HH:MM:SS".
pub const TIME_FORMAT_SECONDS: &'static str = "[hour]:[minute]:[second]";
/// "HH:MM:SS.SSS".
pub const TIME_FORMAT_SECONDS_SUBSECONDS: &'static str = "[hour]:[minute]:[second].[subsecond]";

// ---------------------------------------------------------------------------
// Trusted calls into `time`.
// ---------------------------------------------------------------------------

/// The format descriptions this module reads and writes with.
pub open spec fn is_library_description(d: Seq<char>) -> bool {
    d == PRIMITIVE_SHORT_DATE_TIME_FORMAT@ || d == PRIMITIVE_DATE_TIME_Z_FORMAT@ || d == OFFSET_SHORT_DATE_TIME_FORMAT@
        || d == OFFSET_DATE_TIME_FORMAT@ || d == LEGACY_DATE_TIME_FORMAT@ || d == PRIMITIVE_DATE_TIME_FORMAT@
        || d == PRIMITIVE_SHORT_DATE_TIME_FORMAT_T@ || d == PRIMITIVE_DATE_TIME_FORMAT_T@ || d == DATE_FORMAT@
        || d == TIME_FORMAT@ || d == TIME_FORMAT_SECONDS@ || d == TIME_FORMAT_SECONDS_SUBSECONDS@
}

/// Format items parsed from a description, kept with the description.
pub(crate) struct FormatItems {
    pub(crate) items: OwnedFormatItem,
    pub(crate) description: &'static str,
}

/// Whether `format_description::parse_owned::<1>` reads the description
/// `d`: success, or the error's message.
pub uninterp spec fn time_description_parsed(d: Seq<char>) -> Result<(), Seq<char>>;

/// Whether `Date::parse` reads `s` with the items of description `d`.
pub uninterp spec fn time_date_parsed(s: Seq<char>, d: Seq<char>) -> Result<(), Seq<char>>;

/// Whether `Time::parse` reads `s` with the items of description `d`.
pub uninterp spec fn time_time_parsed(s: Seq<char>, d: Seq<char>) -> Result<(), Seq<char>>;

/// Whether `PrimitiveDateTime::parse` reads `s` with the items of
/// description `d`.
pub uninterp spec fn time_primitive_parsed(s: Seq<char>, d: Seq<char>) -> Result<(), Seq<char>>;

/// Whether `OffsetDateTime::parse` reads `s` with the items of description
/// `d`.
pub uninterp spec fn time_offset_parsed(s: Seq<char>, d: Seq<char>) -> Result<(), Seq<char>>;

/// Whether `OffsetDateTime::parse` reads `s` as RFC 3339.
pub uninterp spec fn time_rfc3339_parsed(s: Seq<char>) -> Result<(), Seq<char>>;

/// `format_description::parse_owned::<1>`: the format items of a
/// description (kept with it), or the error's message, as
/// [`time_description_parsed`] names the outcome. Claimed besides: the
/// descriptions of this module parse (they are made of the documented
/// components `year`, `month`, `day`, `hour`, `minute`, `second`,
/// `subsecond`, `offset_hour` and `offset_minute` and literals).
#[verifier::external_body]
fn format_items(description: &'static str) -> (r: Result<FormatItems, String>)
    ensures
        parse_outcome(r) == time_description_parsed(description@),
        is_library_description(description@) ==> r is Ok,
        r matches Ok(f) ==> f.description@ == description@,
{
    match ::time::format_description::parse_owned::<1>(description) {
        Ok(items) => Ok(FormatItems { items, description }),
        Err(e) => Err(e.to_string()),
    }
}

/// `Date::parse`, as [`time_date_parsed`] names the outcome.
#[verifier::external_body]
fn date_parse(s: &str, items: &FormatItems) -> (r: Result<Date, String>)
    ensures
        parse_outcome(r) == time_date_parsed(s@, items.description@),
{
    match Date::parse(s, &items.items) {
        Ok(d) => Ok(d),
        Err(e) => Err(e.to_string()),
    }
}

/// `Time::parse`, as [`time_time_parsed`] names the outcome.
#[verifier::external_body]
fn time_parse(s: &str, items: &FormatItems) -> (r: Result<Time, String>)
    ensures
        parse_outcome(r) == time_time_parsed(s@, items.description@),
{
    match Time::parse(s, &items.items) {
        Ok(t) => Ok(t),
        Err(e) => Err(e.to_string()),
    }
}

/// `PrimitiveDateTime::parse`, as [`time_primitive_parsed`] names the
/// outcome.
#[verifier::external_body]
fn primitive_parse(s: &str, items: &FormatItems) -> (r: Result<PlainDateTime, String>)
    ensures
        parse_outcome(r) == time_primitive_parsed(s@, items.description@),
{
    match PlainDateTime::parse(s, &items.items) {
        Ok(p) => Ok(p),
        Err(e) => Err(e.to_string()),
    }
}

/// `OffsetDateTime::parse` with format items, as [`time_offset_parsed`]
/// names the outcome.
#[verifier::external_body]
fn offset_parse(s: &str, items: &FormatItems) -> (r: Result<OffsetDateTime, String>)
    ensures
        parse_outcome(r) == time_offset_parsed(s@, items.description@),
{
    match OffsetDateTime::parse(s, &items.items) {
        Ok(o) => Ok(o),
        Err(e) => Err(e.to_string()),
    }
}

/// `OffsetDateTime::parse` as RFC 3339, as [`time_rfc3339_parsed`] names
/// the outcome.
#[verifier::external_body]
fn offset_parse_rfc3339(s: &str) -> (r: Result<OffsetDateTime, String>)
    ensures
        parse_outcome(r) == time_rfc3339_parsed(s@),
{
    match OffsetDateTime::parse(s, &Rfc3339) {
        Ok(o) => Ok(o),
        Err(e) => Err(e.to_string()),
    }
}

/// `PrimitiveDateTime::assume_utc`.
#[verifier::external_body]
fn assume_utc(p: PlainDateTime) -> OffsetDateTime {
    p.assume_utc()
}

/// `Date::format`. Claimed: formatting with the description of the date
/// alone succeeds (a date supplies every component it names, and writing
/// into a string cannot fail).
#[verifier::external_body]
fn date_format(d: &Date, items: &FormatItems) -> (r: Result<String, String>)
    ensures
        items.description@ == DATE_FORMAT@ ==> r is Ok,
{
    match d.format(&items.items) {
        Ok(s) => Ok(s),
        Err(e) => Err(e.to_string()),
    }
}

/// `Time::format`. Claimed: formatting with the description
/// "[hour]:[minute]:[second].[subsecond]" succeeds (a time supplies each
/// of these components).
#[verifier::external_body]
fn time_format(t: &Time, items: &FormatItems) -> (r: Result<String, String>)
    ensures
        items.description@ == TIME_FORMAT_SECONDS_SUBSECONDS@ ==> r is Ok,
{
    match t.format(&items.items) {
        Ok(s) => Ok(s),
        Err(e) => Err(e.to_string()),
    }
}

/// `PrimitiveDateTime::format`. Claimed: formatting with the date and
/// time description "[year]-[month]-[day] [hour]:[minute]:[second].[subsecond]"
/// succeeds.
#[verifier::external_body]
fn primitive_format(p: &PlainDateTime, items: &FormatItems) -> (r: Result<String, String>)
    ensures
        items.description@ == PRIMITIVE_DATE_TIME_FORMAT@ ==> r is Ok,
{
    match p.format(&items.items) {
        Ok(s) => Ok(s),
        Err(e) => Err(e.to_string()),
    }
}

// ---------------------------------------------------------------------------
// Which format a text is read with.
// ---------------------------------------------------------------------------

/// The formats a time of day is read with.
#[derive(Clone, Copy, Debug, PartialEq, Eq, Structural)]
pub enum TimeFormat {
    /// "HH:MM"
    HourMinute,
    /// "HH:MM:SS"
    Seconds,
    /// "HH:MM:SS.SSS"
    Subseconds,
}

/// The format for a time text of `len` bytes: 5, 8, or more than 9 bytes.
pub open spec fn time_format_of(len: int) -> Option<TimeFormat> {
    if len == 5 {
        Some(TimeFormat::HourMinute)
    } else if len == 8 {
        Some(TimeFormat::Seconds)
    } else if len > 9 {
        Some(TimeFormat::Subseconds)
    } else {
        None
    }
}

/// Picks the format of a time text by its length in bytes.
pub fn time_format_for(s: &str) -> (f: Option<TimeFormat>)
    ensures
        f == time_format_of(s.spec_bytes().len() as int),
{
    let len = s.as_bytes().len();
    if len == 5 {
        Some(TimeFormat::HourMinute)
    } else if len == 8 {
        Some(TimeFormat::Seconds)
    } else if len > 9 {
        Some(TimeFormat::Subseconds)
    } else {
        None
    }
}

impl TimeFormat {
    /// The format description.
    pub fn description(self) -> (d: &'static str)
        ensures
            self == TimeFormat::HourMinute ==> d@ == TIME_FORMAT@,
            self == TimeFormat::Seconds ==> d@ == TIME_FORMAT_SECONDS@,
            self == TimeFormat::Subseconds ==> d@ == TIME_FORMAT_SECONDS_SUBSECONDS@,
    {
        match self {
            TimeFormat::HourMinute => TIME_FORMAT,
            TimeFormat::Seconds => TIME_FORMAT_SECONDS,
            TimeFormat::Subseconds => TIME_FORMAT_SECONDS_SUBSECONDS,
        }
    }
}

/// The formats a date and time without offset is read with.
#[derive(Clone, Copy, Debug, PartialEq, Eq, Structural)]
pub enum PrimitiveFormat {
    /// "YYYY-MM-DD HH:MM:SS"
    Short,
    /// "YYYY-MM-DDTHH:MM:SS"
    ShortT,
    /// "YYYY-MM-DD HH:MM:SS.SSS"
    Full,
    /// "YYYY-MM-DDTHH:MM:SS.SSS"
    FullT,
}

/// Whether the byte at position 10 (after "YYYY-MM-DD") is `T`.
pub open spec fn has_t_separator(b: Seq<u8>) -> bool {
    b.len() > 10 && b[10] == 84u8
}

/// The format for a date-time text: 19 bytes is the short form, more is
/// the form with fractional seconds; `T` or a space separates date and time.
pub open spec fn primitive_format_of(b: Seq<u8>) -> Option<PrimitiveFormat> {
    if b.len() == 19 {
        if has_t_separator(b) { Some(PrimitiveFormat::ShortT) } else { Some(PrimitiveFormat::Short) }
    } else if b.len() > 19 {
        if has_t_separator(b) { Some(PrimitiveFormat::FullT) } else { Some(PrimitiveFormat::Full) }
    } else {
        None
    }
}

/// Picks the format of a date-time text.
pub fn primitive_format_for(s: &str) -> (f: Option<PrimitiveFormat>)
    ensures
        f == primitive_format_of(s.spec_bytes()),
{
    let b = s.as_bytes();
    let has_t = b.len() > 10 && b[10] == 84u8;
    if b.len() == 19 {
        if has_t { Some(PrimitiveFormat::ShortT) } else { Some(PrimitiveFormat::Short) }
    } else if b.len() > 19 {
        if has_t { Some(PrimitiveFormat::FullT) } else { Some(PrimitiveFormat::Full) }
    } else {
        None
    }
}

impl PrimitiveFormat {
    /// The format description.
    pub fn description(self) -> (d: &'static str)
        ensures
            self == PrimitiveFormat::Short ==> d@ == PRIMITIVE_SHORT_DATE_TIME_FORMAT@,
            self == PrimitiveFormat::ShortT ==> d@ == PRIMITIVE_SHORT_DATE_TIME_FORMAT_T@,
            self == PrimitiveFormat::Full ==> d@ == PRIMITIVE_DATE_TIME_FORMAT@,
            self == PrimitiveFormat::FullT ==> d@ == PRIMITIVE_DATE_TIME_FORMAT_T@,
    {
        match self {
            PrimitiveFormat::Short => PRIMITIVE_SHORT_DATE_TIME_FORMAT,
            PrimitiveFormat::ShortT => PRIMITIVE_SHORT_DATE_TIME_FORMAT_T,
            PrimitiveFormat::Full => PRIMITIVE_DATE_TIME_FORMAT,
            PrimitiveFormat::FullT => PRIMITIVE_DATE_TIME_FORMAT_T,
        }
    }
}

/// How a date-time with offset is read.
#[derive(Clone, Copy, Debug, PartialEq, Eq, Structural)]
pub enum OffsetPlan {
    /// "YYYY-MM-DDTHH:MM:SS.SSS[+-]HH:MM" as RFC 3339.
    Rfc3339,
    /// "YYYY-MM-DD HH:MM:SS", taken as UTC.
    PrimitiveShortUtc,
    /// "YYYY-MM-DD HH:MM:SS:SSS [+-]HH:MM".
    Legacy,
    /// "YYYY-MM-DD HH:MM:SS.SSS[+-]HH:MM", else "YYYY-MM-DD HH:MM:SS.SSS"
    /// taken as UTC.
    OffsetOrPrimitiveUtc,
    /// "YYYY-MM-DD HH:MM:SS[+-]HH:MM".
    OffsetShort,
}

/// The text without one trailing `Z`.
pub open spec fn strip_z(s: Seq<char>) -> Seq<char> {
    if s.len() > 0 && s.last() == 'Z' { s.drop_last() } else { s }
}

/// How the text `s` is read: RFC 3339 when a `T` follows the date;
/// otherwise, after dropping a trailing `Z`, by length and by the byte
/// after the seconds (`:` legacy, `.` fractional seconds).
pub open spec fn offset_plan_of(s: Seq<char>) -> OffsetPlan {
    if has_t_separator(encode_utf8(s)) {
        OffsetPlan::Rfc3339
    } else {
        let b = encode_utf8(strip_z(s));
        if b.len() <= 19 {
            OffsetPlan::PrimitiveShortUtc
        } else if b[19] == 58u8 {
            OffsetPlan::Legacy
        } else if b[19] == 46u8 {
            OffsetPlan::OffsetOrPrimitiveUtc
        } else {
            OffsetPlan::OffsetShort
        }
    }
}

/// Decides how a date-time text with offset is read, and the text to read
/// (without its trailing `Z` unless it is RFC 3339).
pub fn offset_plan_for(s: &str) -> (r: (OffsetPlan, &str))
    ensures
        r.0 == offset_plan_of(s@),
        r.0 == OffsetPlan::Rfc3339 ==> r.1@ == s@,
        r.0 != OffsetPlan::Rfc3339 ==> r.1@ == strip_z(s@),
{
    let b = s.as_bytes();
    if b.len() > 10 && b[10] == 84u8 {
        return (OffsetPlan::Rfc3339, s);
    }
    let t = match str_strip_suffix(s, 'Z') {
        Some(t) => t,
        None => s,
    };
    let tb = t.as_bytes();
    let plan = if tb.len() <= 19 {
        OffsetPlan::PrimitiveShortUtc
    } else if tb[19] == 58u8 {
        OffsetPlan::Legacy
    } else if tb[19] == 46u8 {
        OffsetPlan::OffsetOrPrimitiveUtc
    } else {
        OffsetPlan::OffsetShort
    };
    (plan, t)
}

/// The message when a text has no known time format.
pub open spec fn unknown_time_msg(s: Seq<char>) -> Seq<char> {
    "Unknown time format: "@ + s
}

/// The message when a text has no known date-time format.
pub open spec fn unknown_date_msg(s: Seq<char>) -> Seq<char> {
    "Unknown date format: "@ + s
}

/// The description a time text of format `f` is read with.
pub open spec fn time_description_of(f: TimeFormat) -> Seq<char> {
    match f {
        TimeFormat::HourMinute => TIME_FORMAT@,
        TimeFormat::Seconds => TIME_FORMAT_SECONDS@,
        TimeFormat::Subseconds => TIME_FORMAT_SECONDS_SUBSECONDS@,
    }
}

/// The description a date-time text of format `f` is read with.
pub open spec fn primitive_description_of(f: PrimitiveFormat) -> Seq<char> {
    match f {
        PrimitiveFormat::Short => PRIMITIVE_SHORT_DATE_TIME_FORMAT@,
        PrimitiveFormat::ShortT => PRIMITIVE_SHORT_DATE_TIME_FORMAT_T@,
        PrimitiveFormat::Full => PRIMITIVE_DATE_TIME_FORMAT@,
        PrimitiveFormat::FullT => PRIMITIVE_DATE_TIME_FORMAT_T@,
    }
}

/// Whether a date-time with offset is read from `s`, by the plan
/// `offset_plan_of` picks: RFC 3339; without a trailing `Z`, a short
/// date-time taken as UTC, the legacy form, the form with fractional
/// seconds and offset (else the same without offset, taken as UTC, the
/// first error standing), or the short form with offset.
pub open spec fn offset_read(s: Seq<char>) -> Result<(), Seq<char>> {
    let t = strip_z(s);
    match offset_plan_of(s) {
        OffsetPlan::Rfc3339 => time_rfc3339_parsed(s),
        OffsetPlan::PrimitiveShortUtc => time_primitive_parsed(t, PRIMITIVE_SHORT_DATE_TIME_FORMAT@),
        OffsetPlan::Legacy => time_offset_parsed(t, LEGACY_DATE_TIME_FORMAT@),
        OffsetPlan::OffsetOrPrimitiveUtc => if time_offset_parsed(t, OFFSET_DATE_TIME_FORMAT@) is Ok {
            Ok(())
        } else if time_primitive_parsed(t, PRIMITIVE_DATE_TIME_FORMAT@) is Ok {
            Ok(())
        } else {
            time_offset_parsed(t, OFFSET_DATE_TIME_FORMAT@)
        },
        OffsetPlan::OffsetShort => time_offset_parsed(t, OFFSET_SHORT_DATE_TIME_FORMAT@),
    }
}

/// "YYYY-MM-DD".
impl ToSql for Date {
    fn to_sql(&self) -> (r: Result<ToSqlOutput<'_>, Error>)
        ensures
            r matches Ok(out) && out matches ToSqlOutput::Owned(Value::Text(_)),
    {
        let items = match format_items(DATE_FORMAT) {
            Ok(items) => items,
            Err(msg) => return Err(Error::ToSqlConversionFailure(msg)),
        };
        match date_format(self, &items) {
            Ok(s) => Ok(ToSqlOutput::Owned(Value::Text(s))),
            Err(msg) => Err(Error::ToSqlConversionFailure(msg)),
        }
    }
}

/// "YYYY-MM-DD" becomes a date.
impl FromSql for Date {
    fn column_result(value: ValueRef<'_>) -> (r: FromSqlResult<Self>)
        ensures
            !(value is Text) ==> r matches Err(FromSqlError::InvalidType),
            value matches ValueRef::Text(t) ==> (!valid_utf8(t@) ==> r matches Err(FromSqlError::Other(_))),
            value matches ValueRef::Text(t) ==> (valid_utf8(t@) ==> read_outcome(r) == time_date_parsed(decode_utf8(t@), DATE_FORMAT@)),
            value is Text ==> (r matches Err(e) ==> e is Other),
    {
        let s = match value.as_str() {
            Ok(s) => s,
            Err(e) => return Err(e),
        };
        proof { crate::util::decode_utf8_encode_utf8_text(s); }
        let items = match format_items(DATE_FORMAT) {
            Ok(items) => items,
            Err(msg) => return Err(FromSqlError::Other(msg)),
        };
        match date_parse(s, &items) {
            Ok(d) => Ok(d),
            Err(msg) => Err(FromSqlError::Other(msg)),
        }
    }
}

/// "HH:MM:SS.SSS".
impl ToSql for Time {
    fn to_sql(&self) -> (r: Result<ToSqlOutput<'_>, Error>)
        ensures
            r matches Ok(out) && out matches ToSqlOutput::Owned(Value::Text(_)),
    {
        let items = match format_items(TIME_FORMAT_SECONDS_SUBSECONDS) {
            Ok(items) => items,
            Err(msg) => return Err(Error::ToSqlConversionFailure(msg)),
        };
        match time_format(self, &items) {
            Ok(s) => Ok(ToSqlOutput::Owned(Value::Text(s))),
            Err(msg) => Err(Error::ToSqlConversionFailure(msg)),
        }
    }
}

/// "HH:MM", "HH:MM:SS" or "HH:MM:SS.SSS" becomes a time; any other length
/// is refused before parsing.
impl FromSql for Time {
    fn column_result(value: ValueRef<'_>) -> (r: FromSqlResult<Self>)
        ensures
            !(value is Text) ==> r matches Err(FromSqlError::InvalidType),
            value matches ValueRef::Text(t) ==> (!valid_utf8(t@) ==> r matches Err(FromSqlError::Other(_))),
            value matches ValueRef::Text(t) ==> (valid_utf8(t@) && time_format_of(t@.len() as int) is None
                ==> (r matches Err(FromSqlError::Other(m)) && m@ == unknown_time_msg(decode_utf8(t@)))),
            value matches ValueRef::Text(t) ==> (valid_utf8(t@) ==> (time_format_of(t@.len() as int) matches Some(f)
                ==> read_outcome(r) == time_time_parsed(decode_utf8(t@), time_description_of(f)))),
            value is Text ==> (r matches Err(e) ==> e is Other),
    {
        let s = match value.as_str() {
            Ok(s) => s,
            Err(e) => return Err(e),
        };
        proof { crate::util::decode_utf8_encode_utf8_text(s); }
        let fmt = match time_format_for(s) {
            Some(f) => f,
            None => {
                proof { reveal_strlit("Unknown time format: "); }
                let mut msg = String::from_str("Unknown time format: ");
                msg.append(s);
                return Err(FromSqlError::Other(msg));
            },
        };
        let items = match format_items(fmt.description()) {
            Ok(items) => items,
            Err(msg) => return Err(FromSqlError::Other(msg)),
        };
        match time_parse(s, &items) {
            Ok(t) => Ok(t),
            Err(msg) => Err(FromSqlError::Other(msg)),
        }
    }
}

/// "YYYY-MM-DD HH:MM:SS.SSS".
impl ToSql for PlainDateTime {
    fn to_sql(&self) -> (r: Result<ToSqlOutput<'_>, Error>)
        ensures
            r matches Ok(out) && out matches ToSqlOutput::Owned(Value::Text(_)),
    {
        let items = match format_items(PRIMITIVE_DATE_TIME_FORMAT) {
            Ok(items) => items,
            Err(msg) => return Err(Error::ToSqlConversionFailure(msg)),
        };
        match primitive_format(self, &items) {
            Ok(s) => Ok(ToSqlOutput::Owned(Value::Text(s))),
            Err(msg) => Err(Error::ToSqlConversionFailure(msg)),
        }
    }
}

/// "YYYY-MM-DD HH:MM:SS.SSS", "YYYY-MM-DDTHH:MM:SS.SSS",
/// "YYYY-MM-DD HH:MM:SS" or "YYYY-MM-DDTHH:MM:SS" becomes a date-time; a
/// text shorter than 19 bytes is refused before parsing.
impl FromSql for PlainDateTime {
    fn column_result(value: ValueRef<'_>) -> (r: FromSqlResult<Self>)
        ensures
            !(value is Text) ==> r matches Err(FromSqlError::InvalidType),
            value matches ValueRef::Text(t) ==> (!valid_utf8(t@) ==> r matches Err(FromSqlError::Other(_))),
            value matches ValueRef::Text(t) ==> (valid_utf8(t@) && primitive_format_of(t@) is None
                ==> (r matches Err(FromSqlError::Other(m)) && m@ == unknown_date_msg(decode_utf8(t@)))),
            value matches ValueRef::Text(t) ==> (valid_utf8(t@) ==> (primitive_format_of(t@) matches Some(f)
                ==> read_outcome(r) == time_primitive_parsed(decode_utf8(t@), primitive_description_of(f)))),
            value is Text ==> (r matches Err(e) ==> e is Other),
    {
        let s = match value.as_str() {
            Ok(s) => s,
            Err(e) => return Err(e),
        };
        proof { crate::util::decode_utf8_encode_utf8_text(s); }
        let fmt = match primitive_format_for(s) {
            Some(f) => f,
            None => {
                proof { reveal_strlit("Unknown date format: "); }
                let mut msg = String::from_str("Unknown date format: ");
                msg.append(s);
                return Err(FromSqlError::Other(msg));
            },
        };
        let items = match format_items(fmt.description()) {
            Ok(items) => items,
            Err(msg) => return Err(FromSqlError::Other(msg)),
        };
        match primitive_parse(s, &items) {
            Ok(p) => Ok(p),
            Err(msg) => Err(FromSqlError::Other(msg)),
        }
    }
}

/// The message when the date-time cannot be moved to UTC.
pub open spec fn out_of_range_msg() -> Seq<char> {
    "local datetime out of valid range"@
}

/// "YYYY-MM-DD HH:MM:SS.SSSZ", after conversion to UTC; a date-time that
/// has no UTC equivalent in the supported range is refused.
impl ToSql for OffsetDateTime {
    fn to_sql(&self) -> (r: Result<ToSqlOutput<'_>, Error>)
        ensures
            r matches Ok(out) ==> out matches ToSqlOutput::Owned(Value::Text(_)),
            r matches Err(Error::ToSqlConversionFailure(m)) ==> m@ == out_of_range_msg(),
    {
        let utc = match checked_to_utc(self) {
            Some(u) => u,
            None => {
                proof { reveal_strlit("local datetime out of valid range"); }
                let msg = String::from_str("local datetime out of valid range");
                return Err(Error::ToSqlConversionFailure(msg));
            },
        };
        let items = match format_items(PRIMITIVE_DATE_TIME_Z_FORMAT) {
            Ok(items) => items,
            Err(msg) => return Err(Error::ToSqlConversionFailure(msg)),
        };
        match offset_format(&utc, &items) {
            Ok(s) => Ok(ToSqlOutput::Owned(Value::Text(s))),
            Err(msg) => Err(Error::ToSqlConversionFailure(msg)),
        }
    }
}

/// Reads `s` as an offset date-time with the format `description`.
fn parse_offset(s: &str, description: &'static str) -> (r: FromSqlResult<OffsetDateTime>)
    requires
        is_library_description(description@),
    ensures
        r matches Err(e) ==> e is Other,
        read_outcome(r) == time_offset_parsed(s@, description@),
{
    let items = match format_items(description) {
        Ok(items) => items,
        Err(msg) => return Err(FromSqlError::Other(msg)),
    };
    match offset_parse(s, &items) {
        Ok(o) => Ok(o),
        Err(msg) => Err(FromSqlError::Other(msg)),
    }
}

/// Reads `s` as a date-time without offset with the format `description`,
/// taken as UTC.
fn parse_primitive_utc(s: &str, description: &'static str) -> (r: FromSqlResult<OffsetDateTime>)
    requires
        is_library_description(description@),
    ensures
        r matches Err(e) ==> e is Other,
        read_outcome(r) == time_primitive_parsed(s@, description@),
{
    let items = match format_items(description) {
        Ok(items) => items,
        Err(msg) => return Err(FromSqlError::Other(msg)),
    };
    match primitive_parse(s, &items) {
        Ok(p) => Ok(assume_utc(p)),
        Err(msg) => Err(FromSqlError::Other(msg)),
    }
}

/// A date-time with offset in any of the formats of `OffsetPlan`, chosen
/// by `offset_plan_of`.
impl FromSql for OffsetDateTime {
    fn column_result(value: ValueRef<'_>) -> (r: FromSqlResult<Self>)
        ensures
            !(value is Text) ==> r matches Err(FromSqlError::InvalidType),
            value matches ValueRef::Text(t) ==> (!valid_utf8(t@) ==> r matches Err(FromSqlError::Other(_))),
            value matches ValueRef::Text(t) ==> (valid_utf8(t@) ==> read_outcome(r) == offset_read(decode_utf8(t@))),
            value is Text ==> (r matches Err(e) ==> e is Other),
    {
        let s = match value.as_str() {
            Ok(s) => s,
            Err(e) => return Err(e),
        };
        proof { crate::util::decode_utf8_encode_utf8_text(s); }
        let (plan, t) = offset_plan_for(s);
        match plan {
            OffsetPlan::Rfc3339 => match offset_parse_rfc3339(t) {
                Ok(o) => Ok(o),
                Err(msg) => Err(FromSqlError::Other(msg)),
            },
            OffsetPlan::PrimitiveShortUtc => parse_primitive_utc(t, PRIMITIVE_SHORT_DATE_TIME_FORMAT),
            OffsetPlan::Legacy => parse_offset(t, LEGACY_DATE_TIME_FORMAT),
            OffsetPlan::OffsetOrPrimitiveUtc => match parse_offset(t, OFFSET_DATE_TIME_FORMAT) {
                Ok(o) => Ok(o),
                Err(first) => match parse_primitive_utc(t, PRIMITIVE_DATE_TIME_FORMAT) {
                    Ok(o) => Ok(o),
                    Err(_) => Err(first),
                },
            },
            OffsetPlan::OffsetShort => parse_offset(t, OFFSET_SHORT_DATE_TIME_FORMAT),
        }
    }
}

} // verus!
