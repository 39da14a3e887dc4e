use time::format_description::well_known::Rfc3339;
use time::OffsetDateTime;
use rusqlite::types::{Error, FromSql, FromSqlError, ToSql, ToSqlOutput, Value, ValueRef};

/// What SQLite hands back for a value stored as `out`.
fn stored(out: &ToSqlOutput<'_>) -> String {
    match out {
        ToSqlOutput::Borrowed(ValueRef::Text(t)) => String::from_utf8(t.to_vec()).unwrap(),
        ToSqlOutput::Owned(Value::Text(s)) => s.clone(),
        other => panic!("not text: {other:?}"),
    }
}

fn read<T: FromSql>(text: &str) -> Result<T, FromSqlError> {
    T::column_result(ValueRef::Text(text.as_bytes()))
}

#[test]
fn jiff_test_date() -> Result<(), Error> {
    let date = jiff::civil::Date::constant(2016, 2, 23);
    let s = stored(&date.to_sql()?);
    assert_eq!("2016-02-23", s);
    let t: jiff::civil::Date = read(&s).unwrap();
    assert_eq!(date, t);
    // `date(t)` gives the same text back.
    let t: jiff::civil::Date = read("2016-02-23").unwrap();
    assert_eq!(date, t);
    let r: Result<jiff::civil::Date, _> = read("2023-02-29");
    assert!(r.is_err());
    Ok(())
}

#[test]
fn jiff_test_time() -> Result<(), Error> {
    let time = jiff::civil::Time::constant(23, 56, 4, 0);
    let s = stored(&time.to_sql()?);
    assert_eq!("23:56:04", s);
    let v: jiff::civil::Time = read(&s).unwrap();
    assert_eq!(time, v);
    // `time(t)` gives the same text back.
    let v: jiff::civil::Time = read("23:56:04").unwrap();
    assert_eq!(time, v);
    let r: Result<jiff::civil::Time, _> = read("25:22:45");
    assert!(r.is_err());
    Ok(())
}

#[test]
fn test_date_time() -> Result<(), Error> {
    let dt = jiff::civil::DateTime::constant(2016, 2, 23, 23, 56, 4, 0);
    let s = stored(&dt.to_sql()?);
    assert_eq!("2016-02-23T23:56:04", s);
    let v: jiff::civil::DateTime = read(&s).unwrap();
    assert_eq!(dt, v);
    // `datetime(t)` writes "YYYY-MM-DD HH:MM:SS".
    let v: jiff::civil::DateTime = read("2016-02-23 23:56:04").unwrap();
    assert_eq!(dt, v);
    let r: Result<jiff::civil::DateTime, _> = read("2023-02-29T00:00:00");
    assert!(r.is_err());
    Ok(())
}

fn time_date(y: i32, m: u8, d: u8) -> time::Date {
    time::Date::from_calendar_date(y, time::Month::try_from(m).unwrap(), d).unwrap()
}

#[test]
fn time_test_date() -> Result<(), Error> {
    let date = time_date(2016, 2, 23);
    let s = stored(&date.to_sql()?);
    assert_eq!("2016-02-23", s);
    let t: time::Date = read(&s).unwrap();
    assert_eq!(date, t);
    Ok(())
}

#[test]
fn time_test_time() -> Result<(), Error> {
    let time = time::Time::from_hms_nano(23, 56, 4, 10_000).unwrap();
    let s = stored(&time.to_sql()?);
    assert_eq!("23:56:04.00001", s);
    let v: time::Time = read(&s).unwrap();
    assert_eq!(time, v);
    Ok(())
}

#[test]
fn test_primitive_date_time() -> Result<(), Error> {
    let dt = time_date(2016, 2, 23).with_time(time::Time::from_hms(23, 56, 4).unwrap());
    let s = stored(&dt.to_sql()?);
    assert_eq!("2016-02-23 23:56:04.0", s);
    let v: time::PrimitiveDateTime = read(&s).unwrap();
    assert_eq!(dt, v);
    // `datetime(t)` writes "YYYY-MM-DD HH:MM:SS".
    let hms: time::PrimitiveDateTime = read("2016-02-23 23:56:04").unwrap();
    assert_eq!(dt, hms);
    Ok(())
}

#[test]
fn test_date_parsing() {
    let result: time::Date = read("2013-10-07").unwrap();
    assert_eq!(result, time_date(2013, 10, 7));
}

#[test]
fn test_time_parsing() {
    let tests = vec![
        ("08:23", time::Time::from_hms(8, 23, 0).unwrap()),
        ("08:23:19", time::Time::from_hms(8, 23, 19).unwrap()),
        ("08:23:19.111", time::Time::from_hms_milli(8, 23, 19, 111).unwrap()),
    ];
    for (s, t) in tests {
        let result: time::Time = read(s).unwrap();
        assert_eq!(result, t);
    }
}

#[test]
fn test_offset_date_time() -> Result<(), Error> {
    let make_datetime = |secs: i128, nanos: i128| {
        time::OffsetDateTime::from_unix_timestamp_nanos(1_000_000_000 * secs + nanos).unwrap()
    };
    let ts_vec = vec![
        make_datetime(10_000, 0),
        make_datetime(1_500_391_124, 1_000_000),
        make_datetime(2_000_000_000, 2_000_000),
        make_datetime(3_000_000_000, 999),
        make_datetime(10_000_000_000, 0),
    ];
    for ts in ts_vec {
        let s = stored(&ts.to_sql()?);
        let from: time::OffsetDateTime = read(&s).unwrap();
        assert_eq!(from, ts);
    }
    Ok(())
}

#[test]
fn test_sqlite_functions() {
    // The texts of CURRENT_TIME, CURRENT_DATE and CURRENT_TIMESTAMP.
    read::<time::Time>("12:34:56").unwrap();
    read::<time::Date>("2024-05-06").unwrap();
    read::<time::PrimitiveDateTime>("2024-05-06 12:34:56").unwrap();
    read::<time::OffsetDateTime>("2024-05-06 12:34:56").unwrap();
}

#[test]
fn offset_date_time_formats() {
    let expected = time::OffsetDateTime::parse(
        "2013-10-07T08:23:19Z",
        &time::format_description::well_known::Rfc3339,
    )
    .unwrap();
    for s in ["2013-10-07 08:23:19", "2013-10-07 08:23:19Z", "2013-10-07T08:23:19Z"] {
        let r: time::OffsetDateTime = read(s).unwrap();
        assert_eq!(r, expected);
    }
    let with_offset = time::OffsetDateTime::parse(
        "2013-10-07T04:23:19.120-04:00",
        &time::format_description::well_known::Rfc3339,
    )
    .unwrap();
    let r: time::OffsetDateTime = read("2013-10-07 04:23:19.120-04:00").unwrap();
    assert_eq!(r, with_offset);
}

#[test]
fn unknown_time_format_message() {
    let r: Result<time::Time, _> = read("1234");
    match r {
        Err(FromSqlError::Other(m)) => assert_eq!(m, "Unknown time format: 1234"),
        other => panic!("unexpected: {other:?}"),
    }
    let r: Result<time::PrimitiveDateTime, _> = read("2013-10-07");
    match r {
        Err(FromSqlError::Other(m)) => assert_eq!(m, "Unknown date format: 2013-10-07"),
        other => panic!("unexpected: {other:?}"),
    }
}

#[test]
fn test_timestamp() {
    let ts: jiff::Timestamp = "2016-02-23 23:56:04Z".parse().unwrap();
    let s = stored(&ts.to_sql().unwrap());
    assert_eq!("2016-02-23T23:56:04Z", s);
    let v: jiff::Timestamp = read(&s).unwrap();
    assert_eq!(ts, v);
    let r: Result<jiff::Timestamp, _> = read("2023-02-29T00:00:00Z");
    assert!(r.is_err());
}

#[test]
fn test_timestamp_various_formats() {
    let tests = vec![
        "2013-10-07T08:23:19.123456789Z",
        "2013-10-07 08:23:19.123456789Z",
        "2013-10-07 08:23Z",
        "2013-10-07 08:23+04:00",
        "2013-10-07 08:23:19Z",
        "2013-10-07 08:23:19+04:00",
        "2013-10-07 08:23:19.123Z",
        "2013-10-07 08:23:19.123+04:00",
        "2013-10-07T08:23Z",
        "2013-10-07T08:23+04:00",
        "2013-10-07T08:23:19Z",
        "2013-10-07T08:23:19+04:00",
        "2013-10-07T08:23:19.123Z",
        "2013-10-07T08:23:19.123+04:00",
    ];
    for string in tests {
        let expected: jiff::Timestamp = string.parse().unwrap();
        // `SELECT ?1` hands the bound text back unchanged.
        let result: jiff::Timestamp = read(string).unwrap();
        assert_eq!(result, expected);
    }
}

#[test]
fn test_offset_date_time_parsing() {
    let tests = vec![
        ("2013-10-07 08:23:19", OffsetDateTime::parse("2013-10-07T08:23:19Z", &Rfc3339).unwrap()),
        ("2013-10-07 08:23:19Z", OffsetDateTime::parse("2013-10-07T08:23:19Z", &Rfc3339).unwrap()),
        ("2013-10-07T08:23:19Z", OffsetDateTime::parse("2013-10-07T08:23:19Z", &Rfc3339).unwrap()),
        ("2013-10-07 08:23:19.120", OffsetDateTime::parse("2013-10-07T08:23:19.120Z", &Rfc3339).unwrap()),
        ("2013-10-07 08:23:19.120Z", OffsetDateTime::parse("2013-10-07T08:23:19.120Z", &Rfc3339).unwrap()),
        ("2013-10-07T08:23:19.120Z", OffsetDateTime::parse("2013-10-07T08:23:19.120Z", &Rfc3339).unwrap()),
        ("2013-10-07 04:23:19-04:00", OffsetDateTime::parse("2013-10-07T04:23:19-04:00", &Rfc3339).unwrap()),
        ("2013-10-07 04:23:19.120-04:00", OffsetDateTime::parse("2013-10-07T04:23:19.120-04:00", &Rfc3339).unwrap()),
        ("2013-10-07T04:23:19.120-04:00", OffsetDateTime::parse("2013-10-07T04:23:19.120-04:00", &Rfc3339).unwrap()),
    ];
    for (s, t) in tests {
        let result: OffsetDateTime = read(s).unwrap();
        assert_eq!(result, t);
    }
}

fn primitive(text: &str, format: &str) -> time::PrimitiveDateTime {
    let items = time::format_description::parse_owned::<1>(format).unwrap();
    time::PrimitiveDateTime::parse(text, &items).unwrap()
}

#[test]
fn test_primitive_date_time_parsing() {
    let tests = vec![
        (
            "2013-10-07T08:23:19",
            primitive("2013-10-07T08:23:19", "[year]-[month]-[day]T[hour]:[minute]:[second]"),
        ),
        (
            "2013-10-07T08:23:19.111",
            primitive(
                "2013-10-07T08:23:19.111",
                "[year]-[month]-[day]T[hour]:[minute]:[second].[subsecond]",
            ),
        ),
        (
            "2013-10-07 08:23:19",
            primitive("2013-10-07 08:23:19", "[year]-[month]-[day] [hour]:[minute]:[second]"),
        ),
        (
            "2013-10-07 08:23:19.111",
            primitive(
                "2013-10-07 08:23:19.111",
                "[year]-[month]-[day] [hour]:[minute]:[second].[subsecond]",
            ),
        ),
    ];
    for (s, t) in tests {
        let result: time::PrimitiveDateTime = read(s).unwrap();
        assert_eq!(result, t);
    }
}

/// The text SQLite's `date`, `time` and `datetime` functions write for an
/// instant, with `format` naming which.
fn sqlite_text(at: time::OffsetDateTime, format: &str) -> String {
    let items = time::format_description::parse_owned::<1>(format).unwrap();
    at.format(&items).unwrap()
}

/// Whether the stored text of `out` lies between the texts of now minus
/// and plus `margin` (what `?1 BETWEEN f('now', '-m') AND f('now', '+m')`
/// asks of TEXT values).
fn stored_between(out: &ToSqlOutput<'_>, margin: time::Duration, format: &str) -> bool {
    let now = time::OffsetDateTime::now_utc();
    let s = stored(out);
    let lo = sqlite_text(now - margin, format);
    let hi = sqlite_text(now + margin, format);
    lo.as_str() <= s.as_str() && s.as_str() <= hi.as_str()
}

#[test]
fn test_time_param() {
    let now = time::OffsetDateTime::now_utc().time();
    let out = now.to_sql().unwrap();
    assert!(stored_between(&out, time::Duration::minutes(1), "[hour]:[minute]:[second]"));
}

#[test]
fn test_date_param() {
    let now = time::OffsetDateTime::now_utc().date();
    let out = now.to_sql().unwrap();
    assert!(stored_between(&out, time::Duration::days(1), "[year]-[month]-[day]"));
}

#[test]
fn test_primitive_date_time_param() {
    let now = time::PrimitiveDateTime::new(
        time::OffsetDateTime::now_utc().date(),
        time::OffsetDateTime::now_utc().time(),
    );
    let out = now.to_sql().unwrap();
    assert!(stored_between(
        &out,
        time::Duration::minutes(1),
        "[year]-[month]-[day] [hour]:[minute]:[second]"
    ));
}

#[test]
fn test_offset_date_time_param() {
    let now = time::OffsetDateTime::now_utc();
    let out = now.to_sql().unwrap();
    assert!(stored_between(
        &out,
        time::Duration::minutes(1),
        "[year]-[month]-[day] [hour]:[minute]:[second]"
    ));
}

#[test]
fn jiff_written_text_reads_back() {
    let ts: jiff::Timestamp = "2016-02-23T23:56:04.5Z".parse().unwrap();
    let s = stored(&ts.to_sql().unwrap());
    let v: jiff::Timestamp = read(&s).unwrap();
    assert_eq!(v, ts);
    let r: Result<jiff::civil::Date, _> = read("2016-02-30");
    match r {
        Err(FromSqlError::Other(m)) => assert_eq!(m, "2016-02-30".parse::<jiff::civil::Date>().unwrap_err().to_string()),
        other => panic!("unexpected: {other:?}"),
    }
}

#[test]
fn time_read_error_carries_the_parse_message() {
    let r: Result<time::Date, _> = read("2016-13-01");
    let items = time::format_description::parse_owned::<1>("[year]-[month]-[day]").unwrap();
    let expected = time::Date::parse("2016-13-01", &items).unwrap_err().to_string();
    match r {
        Err(FromSqlError::Other(m)) => assert_eq!(m, expected),
        other => panic!("unexpected: {other:?}"),
    }
}
