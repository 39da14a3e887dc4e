//! `ToSql` and `FromSql` for `camino::Utf8PathBuf`: paths are stored as
//! their text.

use vstd::prelude::*;
use camino::Utf8PathBuf;
use crate::types::{Error, FromSql, FromSqlError, FromSqlResult, ToSql, ToSqlOutput, ValueRef};
use crate::util::str_from_utf8;

verus! {

#[verifier::external_type_specification]
#[verifier::external_body]
pub struct ExUtf8PathBuf(Utf8PathBuf);

/// `Utf8PathBuf::as_str`. Nothing is claimed of the text.
#[verifier::external_body]
fn utf8_path_as_str(path: &Utf8PathBuf) -> &str {
    path.as_str()
}

/// `Utf8PathBuf::from` a text.
#[verifier::external_body]
fn utf8_path_from_str(s: &str) -> Utf8PathBuf {
    Utf8PathBuf::from(s)
}

/// A UTF-8 path becomes its text.
impl ToSql for Utf8PathBuf {
    fn to_sql(&self) -> (r: Result<ToSqlOutput<'_>, Error>)
        ensures
            r matches Ok(ToSqlOutput::Borrowed(ValueRef::Text(_))),
    {
        Ok(ToSqlOutput::Borrowed(ValueRef::Text(utf8_path_as_str(self).as_bytes())))
    }
}

/// UTF-8 text becomes a path.
impl FromSql for Utf8PathBuf {
    fn column_result(value: ValueRef<'_>) -> (r: FromSqlResult<Self>)
        ensures
            value matches ValueRef::Text(t) ==> (r is Ok <==> vstd::utf8::valid_utf8(t@)),
            value matches ValueRef::Text(t) ==> (r matches Err(e) ==> e is Other),
            !(value is Text) ==> r matches Err(FromSqlError::InvalidType),
    {
        match value {
            ValueRef::Text(t) => match str_from_utf8(t) {
                Ok(s) => Ok(utf8_path_from_str(s)),
                Err(msg) => Err(FromSqlError::Other(msg)),
            },
            _ => Err(FromSqlError::InvalidType),
        }
    }
}

} // verus!
