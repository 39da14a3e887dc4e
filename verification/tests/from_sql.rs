use rusqlite::types::{FromSql, FromSqlError, ToSql, ToSqlOutput as Out, Value as V, ValueRef};
use rusqlite::types::ValueRef as R;

#[test]
fn from_sql_error() {
    assert_ne!(FromSqlError::InvalidType, FromSqlError::OutOfRange(0));
    assert_ne!(FromSqlError::OutOfRange(0), FromSqlError::OutOfRange(1));
    assert_ne!(
        FromSqlError::InvalidBlobSize {
            expected_size: 0,
            blob_size: 0
        },
        FromSqlError::InvalidBlobSize {
            expected_size: 0,
            blob_size: 1
        }
    );
    assert!(FromSqlError::InvalidType.source().is_none());
    let err = std::io::Error::from(std::io::ErrorKind::UnexpectedEof);
    assert!(FromSqlError::other(err.to_string()).source().is_some());
}

#[test]
fn from_sql_error_messages() {
    assert_eq!(FromSqlError::InvalidType.to_string(), "Invalid type");
    assert_eq!(FromSqlError::OutOfRange(-42).to_string(), "Value -42 out of range");
    assert_eq!(
        FromSqlError::OutOfRange(i64::MIN).to_string(),
        "Value -9223372036854775808 out of range"
    );
    assert_eq!(
        FromSqlError::InvalidBlobSize { expected_size: 16, blob_size: 3 }.to_string(),
        "Cannot read 16 byte value out of 3 byte blob"
    );
}

#[test]
fn integral_ranges() {
    assert_eq!(i8::column_result(ValueRef::Integer(127)), Ok(127));
    assert_eq!(i8::column_result(ValueRef::Integer(128)), Err(FromSqlError::OutOfRange(128)));
    assert_eq!(i8::column_result(ValueRef::Integer(-129)), Err(FromSqlError::OutOfRange(-129)));
    assert_eq!(u8::column_result(ValueRef::Integer(-1)), Err(FromSqlError::OutOfRange(-1)));
    assert_eq!(u16::column_result(ValueRef::Integer(65535)), Ok(65535));
    assert_eq!(i32::column_result(ValueRef::Integer(2_147_483_648)), Err(FromSqlError::OutOfRange(2_147_483_648)));
    assert_eq!(u32::column_result(ValueRef::Integer(4_294_967_295)), Ok(4_294_967_295));
    assert_eq!(u64::column_result(ValueRef::Integer(-2)), Err(FromSqlError::OutOfRange(-2)));
    assert_eq!(i64::column_result(ValueRef::Null), Err(FromSqlError::InvalidType));
    assert_eq!(bool::column_result(ValueRef::Integer(2)), Ok(true));
}

#[test]
fn text_and_blob_values() {
    assert_eq!(String::column_result(ValueRef::Text(b"abc")), Ok("abc".to_string()));
    assert!(matches!(String::column_result(ValueRef::Text(b"\xFF")), Err(FromSqlError::Other(_))));
    assert_eq!(String::column_result(ValueRef::Blob(b"abc")), Err(FromSqlError::InvalidType));
    assert_eq!(Vec::<u8>::column_result(ValueRef::Blob(&[1, 2])), Ok(vec![1, 2]));
}

#[test]
fn more_to_sql_conversions() {
    assert_eq!(5u64.to_sql(), Ok(Out::Owned(V::Integer(5))));
    assert!(matches!(u64::MAX.to_sql(), Err(rusqlite::types::Error::ToSqlConversionFailure(_))));
    assert_eq!(7usize.to_sql(), Ok(Out::Owned(V::Integer(7))));
    assert_eq!(None::<i64>.to_sql(), Ok(Out::Borrowed(R::Null)));
    assert_eq!(Some(3i64).to_sql(), Ok(Out::Owned(V::Integer(3))));
    assert_eq!((&4i32).to_sql(), Ok(Out::Owned(V::Integer(4))));
    assert_eq!(Box::new(9u8).to_sql(), Ok(Out::Owned(V::Integer(9))));
    assert_eq!(V::Text("x".to_string()).to_sql(), Ok(Out::Borrowed(R::Text(b"x"))));
    assert_eq!(R::Integer(2).to_sql(), Ok(Out::Borrowed(R::Integer(2))));
    let bytes: &[u8] = &[1, 2];
    assert_eq!(bytes.to_sql(), Ok(Out::Borrowed(R::Blob(&[1, 2]))));
    let mut zero = vec![0x80u8];
    zero.extend([0u8; 15]);
    assert_eq!(0i128.to_sql(), Ok(Out::Owned(V::Blob(zero))));
    assert_eq!(i128::MIN.to_sql(), Ok(Out::Owned(V::Blob(vec![0u8; 16]))));
    let mut minus_one = vec![0x7fu8];
    minus_one.extend([0xffu8; 15]);
    assert_eq!((-1i128).to_sql(), Ok(Out::Owned(V::Blob(minus_one))));
}
