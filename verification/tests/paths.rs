use std::path::PathBuf;

use camino::Utf8PathBuf;
use rusqlite::types::{Error, FromSql, FromSqlError, ToSql, ToSqlOutput, Value, ValueRef};

/// What SQLite hands back for a value stored as `out`.
fn stored(out: &ToSqlOutput<'_>) -> Vec<u8> {
    match out {
        ToSqlOutput::Borrowed(ValueRef::Text(t)) => t.to_vec(),
        ToSqlOutput::Owned(Value::Text(s)) => s.as_bytes().to_vec(),
        other => panic!("not text: {other:?}"),
    }
}

#[test]
fn pathbuf_to_sql() -> Result<(), Error> {
    let path = "/usr/bin/bash";
    let buf = PathBuf::from(path);
    let sql = buf.to_sql()?;
    assert_eq!(path.to_sql()?, sql);
    Ok(())
}

#[test]
fn pathbuf_roundtrip() -> Result<(), Error> {
    let stored_path = PathBuf::from("/usr/bin/bash");
    let text = stored(&stored_path.to_sql()?);
    let buf = PathBuf::column_result(ValueRef::Text(&text)).unwrap();
    assert_eq!(PathBuf::from("/usr/bin/bash"), buf);
    Ok(())
}

#[test]
fn utf8pathbuf_to_sql() -> Result<(), Error> {
    let path = "/usr/bin/bash";
    let buf = Utf8PathBuf::from(path);
    let sql = buf.to_sql()?;
    assert_eq!(path.to_sql()?, sql);
    Ok(())
}

#[test]
fn utf8pathbuf_roundtrip() -> Result<(), Error> {
    let stored_path = Utf8PathBuf::from("/usr/bin/bash");
    let text = stored(&stored_path.to_sql()?);
    let buf = Utf8PathBuf::column_result(ValueRef::Text(&text)).unwrap();
    assert_eq!(Utf8PathBuf::from("/usr/bin/bash"), buf);
    Ok(())
}

#[test]
fn non_utf8_field() -> Result<(), Error> {
    let inval = b"foo\xFF\xFFbar";
    let path = Utf8PathBuf::column_result(ValueRef::Text(inval));
    assert!(path.is_err());
    Ok(())
}

#[test]
fn path_from_non_text_is_invalid_type() {
    assert_eq!(PathBuf::column_result(ValueRef::Integer(1)), Err(FromSqlError::InvalidType));
}

#[test]
fn to_sql() {
    let ulid = ulid::Ulid::new();
    assert_eq!(
        ulid.to_sql(),
        Ok(ToSqlOutput::Owned(Value::Text(ulid.to_string())))
    );
}

#[test]
fn from_sql() {
    let ulid = ulid::Ulid::new();
    let text = ulid.to_string();
    assert_eq!(ulid::Ulid::column_result(ValueRef::Text(text.as_bytes())), Ok(ulid));
    let err = ulid::Ulid::column_result(ValueRef::Text(b"invalid")).unwrap_err();
    let source = err.source().unwrap();
    assert_eq!(format!("{}", source), format!("{}", ulid::DecodeError::InvalidLength));
}

fn is_to_sql<T: ToSql>() {}

#[test]
fn test_integral_types() {
    is_to_sql::<i8>();
    is_to_sql::<i16>();
    is_to_sql::<i32>();
    is_to_sql::<i64>();
    is_to_sql::<isize>();
    is_to_sql::<u8>();
    is_to_sql::<u16>();
    is_to_sql::<u32>();
}

#[test]
fn integers_become_integer_values() {
    assert_eq!((-5i8).to_sql(), Ok(ToSqlOutput::Owned(Value::Integer(-5))));
    assert_eq!(u32::MAX.to_sql(), Ok(ToSqlOutput::Owned(Value::Integer(4_294_967_295))));
    assert_eq!(true.to_sql(), Ok(ToSqlOutput::Owned(Value::Integer(1))));
}

#[test]
fn ulid_text_and_decoding() {
    let u = ulid::Ulid(0x41414141414141414141414141414141);
    assert_eq!(u.to_sql(), Ok(ToSqlOutput::Owned(Value::Text("21850M2GA1850M2GA1850M2GA1".to_string()))));
    // Lower case reads too; the value comes back.
    assert_eq!(ulid::Ulid::column_result(ValueRef::Text(b"21850m2ga1850m2ga1850m2ga1")), Ok(u));
    match ulid::Ulid::column_result(ValueRef::Text(b"21850M2GA1850M2GA1850M2GAI")) {
        Err(FromSqlError::Other(m)) => assert_eq!(m, "invalid character"),
        other => panic!("unexpected: {other:?}"),
    }
    match ulid::Ulid::column_result(ValueRef::Text(b"21850M2GA")) {
        Err(FromSqlError::Other(m)) => assert_eq!(m, "invalid length"),
        other => panic!("unexpected: {other:?}"),
    }
    for v in [0u128, u128::MAX, 1 << 127, 12345678901234567890] {
        let u = ulid::Ulid(v);
        let s = match u.to_sql().unwrap() {
            ToSqlOutput::Owned(Value::Text(s)) => s,
            other => panic!("not text: {other:?}"),
        };
        assert_eq!(ulid::Ulid::column_result(ValueRef::Text(s.as_bytes())), Ok(u));
    }
}
