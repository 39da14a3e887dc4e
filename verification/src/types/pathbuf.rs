//! `ToSql` and `FromSql` for `std::path::PathBuf`: paths are stored as
//! UTF-8 text.

use vstd::prelude::*;
use std::path::PathBuf;
use crate::types::{Error, FromSql, FromSqlError, FromSqlResult, ToSql, ToSqlOutput, ValueRef};
use crate::util::str_from_utf8;

verus! {

#[verifier::external_type_specification]
#[verifier::external_body]
pub struct ExPathBuf(PathBuf);

/// `Path::to_str`: the path as text when it is valid Unicode. Nothing is
/// claimed of the outcome.
#[verifier::external_body]
fn path_to_str(path: &PathBuf) -> Option<&str> {
    path.to_str()
}

/// `PathBuf::from` a text.
#[verifier::external_body]
fn path_from_str(s: &str) -> PathBuf {
    PathBuf::from(s)
}

/// `PathBuf::clone`.
#[verifier::external_body]
fn path_clone(path: &PathBuf) -> PathBuf {
    path.clone()
}

/// `Path::display` written to a string.
#[verifier::external_body]
fn path_display(path: &PathBuf) -> String {
    path.display().to_string()
}

/// The error of a path that is not valid Unicode.
#[derive(Debug)]
pub struct PathError {
    path: PathBuf,
}

impl PathError {
    /// The path as it is displayed.
    pub fn to_string(&self) -> String {
        path_display(&self.path)
    }
}

/// A path becomes its text; a path that is not valid Unicode cannot be
/// stored.
impl ToSql for PathBuf {
    fn to_sql(&self) -> (r: Result<ToSqlOutput<'_>, Error>)
        ensures
            r is Ok ==> (r matches Ok(ToSqlOutput::Borrowed(ValueRef::Text(_)))),
            r is Err ==> (r matches Err(Error::ToSqlConversionFailure(_))),
    {
        match path_to_str(self) {
            Some(s) => Ok(ToSqlOutput::Borrowed(ValueRef::Text(s.as_bytes()))),
            None => {
                let err = PathError { path: path_clone(self) };
                Err(Error::ToSqlConversionFailure(err.to_string()))
            },
        }
    }
}

/// UTF-8 text becomes a path.
impl FromSql for PathBuf {
    fn column_result(value: ValueRef<'_>) -> (r: FromSqlResult<Self>)
        ensures
            value matches ValueRef::Text(t) ==> (r is Ok <==> vstd::utf8::valid_utf8(t@)),
            value matches ValueRef::Text(t) ==> (r matches Err(e) ==> e is Other),
            !(value is Text) ==> r matches Err(FromSqlError::InvalidType),
    {
        match value {
            ValueRef::Text(t) => match str_from_utf8(t) {
                Ok(s) => Ok(path_from_str(s)),
                Err(msg) => Err(FromSqlError::Other(msg)),
            },
            _ => Err(FromSqlError::InvalidType),
        }
    }
}

} // verus!
