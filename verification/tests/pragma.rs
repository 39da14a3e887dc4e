use rusqlite::codes;
use rusqlite::pragma::{self, DatabaseName};
use rusqlite::types::ValueRef;

#[test]
fn pragma_query_statements() {
    assert_eq!(pragma::pragma_query_sql(None, "user_version").unwrap(), "PRAGMA user_version");
    assert_eq!(
        pragma::pragma_query_sql(Some(DatabaseName::Temp), "cache_size").unwrap(),
        "PRAGMA temp.cache_size"
    );
    assert_eq!(
        pragma::pragma_query_sql(Some(DatabaseName::Attached("my db")), "page_size").unwrap(),
        "PRAGMA \"my db\".page_size"
    );
    assert_eq!(
        pragma::pragma_query_sql(Some(DatabaseName::Attached("a\"b")), "x").unwrap(),
        "PRAGMA \"a\"\"b\".x"
    );
    let err = pragma::pragma_query_sql(None, "bad name").unwrap_err();
    assert_eq!(err.code, codes::SQLITE_MISUSE);
    assert_eq!(err.message.as_deref(), Some("Invalid pragma \"bad name\""));
    assert!(pragma::pragma_query_sql(None, "").is_err());
}

#[test]
fn pragma_update_statements() {
    assert_eq!(
        pragma::pragma_update_sql(Some(DatabaseName::Main), "user_version", ValueRef::Integer(-12)).unwrap(),
        "PRAGMA main.user_version(-12)"
    );
    assert_eq!(
        pragma::pragma_update_sql(None, "cache_size", ValueRef::Integer(i64::MIN)).unwrap(),
        "PRAGMA cache_size(-9223372036854775808)"
    );
    assert_eq!(
        pragma::pragma_update_sql(None, "journal_mode", ValueRef::Text(b"WAL")).unwrap(),
        "PRAGMA journal_mode(WAL)"
    );
    assert_eq!(
        pragma::pragma_update_sql(None, "journal_mode", ValueRef::Null).unwrap_err().code,
        codes::SQLITE_MISUSE
    );
    assert!(pragma::pragma_update_sql(None, "x", ValueRef::Blob(&[1])).is_err());
    assert!(pragma::pragma_update_sql(None, "1x", ValueRef::Integer(1)).is_err());
}

#[test]
fn identifiers() {
    assert!(pragma::is_identifier("abc_1$"));
    assert!(pragma::is_identifier("été"));
    assert!(!pragma::is_identifier("1abc"));
    assert!(!pragma::is_identifier("a-b"));
    let mut q = String::new();
    pragma::wrap_and_escape(&mut q, "it's", '\'');
    assert_eq!(q, "'it''s'");
}

#[test]
fn pragma_update_error_messages() {
    let err = pragma::pragma_update_sql(None, "user_version; DROP TABLE t", ValueRef::Integer(1)).unwrap_err();
    assert_eq!(err.code, codes::SQLITE_MISUSE);
    assert_eq!(err.message.as_deref(), Some("Invalid pragma \"user_version; DROP TABLE t\""));
    let err = pragma::pragma_update_sql(None, "journal_mode", ValueRef::Null).unwrap_err();
    assert_eq!(err.message.as_deref(), Some("Invalid pragma value \"Null\""));
    let err = pragma::pragma_update_sql(None, "x", ValueRef::Blob(&[1, 20])).unwrap_err();
    assert_eq!(err.message.as_deref(), Some("Invalid pragma value \"Blob([1, 20])\""));
    assert_eq!(format!("{:?}", ValueRef::Blob(&[1, 20])), "Blob([1, 20])");
    let err = pragma::pragma_update_sql(None, "x", ValueRef::Text(&[0xff])).unwrap_err();
    assert_eq!(err.message.as_deref(), Some("Invalid pragma value \"Text([255])\""));
}
