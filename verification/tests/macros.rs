use rusqlite::macros::{try_bind, try_single};

#[test]
fn test_literal() {
    let r = try_bind("SELECT $first_name, $last_name");
    assert_eq!(
        r,
        Ok(vec![(1, "first_name".to_string()), (2, "last_name".to_string())])
    );
}

#[test]
fn test_no_placeholder() {
    assert_eq!(try_bind("SELECT 1"), Ok(vec![]));
}

#[test]
fn test_raw_string() {
    assert_eq!(try_bind(r"SELECT 1"), Ok(vec![]));
    assert_eq!(try_bind(r#"SELECT 1"#), Ok(vec![]));
}

#[test]
fn bind_rejects_mixed_parameters() {
    let r = try_bind("SELECT ?1, $a");
    assert_eq!(
        r,
        Err("Mixing named and numbered parameters is not supported.".to_string())
    );
}

#[test]
fn bind_rejects_multiple_statements() {
    assert_eq!(
        try_bind("SELECT 1; SELECT 2"),
        Err("Multiple statements".to_string())
    );
}

#[test]
fn bind_rejects_empty_input() {
    assert_eq!(try_bind(""), Err("Invalid input".to_string()));
}

#[test]
fn bind_repeated_name_bound_once() {
    assert_eq!(try_bind("SELECT :x, :x"), Ok(vec![(1, "x".to_string())]));
}

#[test]
fn single_checks_statement_count() {
    assert_eq!(try_single("SELECT 1"), Ok(()));
    assert_eq!(try_single("SELECT 1; SELECT 2"), Err("Multiple statements".to_string()));
    assert!(try_single("SELEC 1").is_err());
}
