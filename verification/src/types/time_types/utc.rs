//! Offset date-times moved to UTC, the only form in which they are
//! written as SQL text.

use vstd::prelude::*;
use ::time::{OffsetDateTime, UtcOffset};
use super::{FormatItems, PRIMITIVE_DATE_TIME_Z_FORMAT};

verus! {

/// An offset date-time moved to UTC. Its field is private to this module
/// and only [`checked_to_utc`] makes one, so what formats it formats the
/// UTC instant, never the wall-clock time of the value it came from.
pub(crate) struct UtcDateTime(OffsetDateTime);

/// `OffsetDateTime::checked_to_offset(UtcOffset::UTC)`: `None` when the
/// date-time in UTC falls outside the supported range. Nothing is claimed
/// of which values those are.
#[verifier::external_body]
pub(crate) fn checked_to_utc(o: &OffsetDateTime) -> Option<UtcDateTime> {
    o.checked_to_offset(UtcOffset::UTC).map(UtcDateTime)
}

/// `OffsetDateTime::format` on the UTC value. Claimed: formatting with the
/// description "[year]-[month]-[day] [hour]:[minute]:[second].[subsecond]Z"
/// succeeds (no offset component; the `Z` is a literal).
#[verifier::external_body]
pub(crate) fn offset_format(u: &UtcDateTime, items: &FormatItems) -> (r: Result<String, String>)
    ensures
        items.description@ == PRIMITIVE_DATE_TIME_Z_FORMAT@ ==> r is Ok,
{
    match u.0.format(&items.items) {
        Ok(s) => Ok(s),
        Err(e) => Err(e.to_string()),
    }
}

} // verus!
