use rusqlite::backup::{self, BackupStep, RestoreLoop};
use rusqlite::cache::{RawStatement, StatementCache};
use rusqlite::codes;
use rusqlite::connection::{self, CloseStep, Connection, InnerConnection, TransactionState};
use rusqlite::hooks::{self, Action, Authorization, TransactionOperation};
use rusqlite::mem_file::MemFile;
use rusqlite::memfs::{MemFs, Node};
use rusqlite::session::{self, ConflictAction, ConflictType, Operation};
use rusqlite::trace::{self, StmtRef, TraceEvent, TraceEventCodes};

#[test]
fn restore_gives_up_at_third_busy() {
    let mut l = RestoreLoop::new();
    assert_eq!(l.next(codes::SQLITE_OK), BackupStep::Continue);
    assert_eq!(l.next(codes::SQLITE_BUSY), BackupStep::SleepAndContinue(100));
    assert_eq!(l.next(codes::SQLITE_OK), BackupStep::Continue);
    assert_eq!(l.next(codes::SQLITE_BUSY), BackupStep::SleepAndContinue(100));
    assert_eq!(l.next(codes::SQLITE_BUSY), BackupStep::Finished(codes::SQLITE_BUSY));
}

#[test]
fn backup_steps_until_not_ok() {
    assert_eq!(backup::backup_next(codes::SQLITE_OK), BackupStep::Continue);
    assert_eq!(backup::backup_next(codes::SQLITE_DONE), BackupStep::Finished(codes::SQLITE_DONE));
    assert_eq!(backup::backup_next(codes::SQLITE_BUSY), BackupStep::Finished(codes::SQLITE_BUSY));
}

#[test]
fn backup_and_restore_reports() {
    assert_eq!(backup::backup_result(codes::SQLITE_DONE, "x".to_string()), Ok(()));
    let e = backup::backup_result(codes::SQLITE_READONLY, "readonly".to_string()).unwrap_err();
    assert_eq!(e.code, codes::SQLITE_READONLY);
    assert_eq!(e.message, "backup failed: readonly");
    let e = backup::restore_result(codes::SQLITE_LOCKED, "ignored".to_string()).unwrap_err();
    assert_eq!(e.message, "restore failed: source database busy");
    let e = backup::restore_result(codes::SQLITE_FULL, "full".to_string()).unwrap_err();
    assert_eq!(e.message, "restore failed: full");
    let e = backup::init_failure(1, "no such db".to_string(), false);
    assert_eq!(e.message, "backup failed: no such db");
}

#[test]
fn statement_cache_round_trip() {
    let mut cache = StatementCache::with_capacity(2);
    assert!(cache.get("SELECT 1").is_none());
    cache.cache_stmt(RawStatement { handle: 7, cache_key: Some("SELECT 1".to_string()) });
    assert_eq!(cache.len(), 1);
    let stmt = cache.get("  SELECT 1\n").unwrap();
    assert_eq!(stmt.handle, 7);
    assert_eq!(stmt.cache_key.as_deref(), Some("SELECT 1"));
    assert_eq!(cache.len(), 0);
}

#[test]
fn statement_cache_evicts_least_recent() {
    let mut cache = StatementCache::with_capacity(2);
    cache.cache_stmt(RawStatement { handle: 1, cache_key: Some("a".to_string()) });
    cache.cache_stmt(RawStatement { handle: 2, cache_key: Some("b".to_string()) });
    cache.cache_stmt(RawStatement { handle: 3, cache_key: Some("c".to_string()) });
    assert_eq!(cache.len(), 2);
    assert!(cache.get("a").is_none());
    assert_eq!(cache.get("c").unwrap().handle, 3);
    cache.set_capacity(0);
    assert_eq!(cache.len(), 0);
    cache.cache_stmt(RawStatement { handle: 0, cache_key: Some("d".to_string()) });
    assert_eq!(cache.len(), 0);
}

#[test]
fn connection_cache_settings() {
    let mut c = Connection::from_handle(42, true);
    assert_eq!(c.handle(), 42);
    assert_eq!(c.cache().capacity(), connection::STATEMENT_CACHE_DEFAULT_CAPACITY);
    c.cache().cache_stmt(RawStatement { handle: 9, cache_key: Some("SELECT 2".to_string()) });
    c.set_prepared_statement_cache_capacity(5);
    assert_eq!(c.cache().capacity(), 5);
    assert_eq!(c.cache().len(), 1);
    c.flush_prepared_statement_cache();
    assert_eq!(c.cache().len(), 0);
    let b = c.into_borrowing();
    let back = b.into_inner();
    assert_eq!(back.handle(), 42);
}

#[test]
fn inner_connection_close() {
    let mut owned = InnerConnection::new(5, true);
    assert_eq!(owned.interrupt_db(), 5);
    assert_eq!(owned.begin_close(), CloseStep::CloseHandle(5));
    assert_eq!(owned.finish_close(codes::SQLITE_BUSY), Err(codes::SQLITE_BUSY));
    assert_eq!(owned.db(), 5);
    assert_eq!(owned.finish_close(codes::SQLITE_OK), Ok(()));
    assert_eq!(owned.db(), 0);
    assert_eq!(owned.interrupt_db(), 0);
    assert_eq!(owned.begin_close(), CloseStep::Closed);
    let mut borrowed = InnerConnection::new(6, false);
    assert_eq!(borrowed.interrupt_db(), 0);
    assert_eq!(borrowed.begin_close(), CloseStep::Closed);
    assert_eq!(borrowed.db(), 0);
}

#[test]
fn connection_result_decoding() {
    assert_eq!(connection::readonly_result(1), Ok(true));
    assert_eq!(connection::readonly_result(-1), Err(codes::SQLITE_MISUSE));
    assert_eq!(connection::readonly_result(7), Err(7));
    assert_eq!(connection::txn_state_result(2), Ok(TransactionState::Write));
    assert_eq!(connection::txn_state_result(0), Ok(TransactionState::NoTransaction));
    assert_eq!(connection::prepare_tail(Some(8), 20), 8);
    assert_eq!(connection::prepare_tail(Some(20), 20), 0);
    assert_eq!(connection::prepare_tail(None, 20), 0);
    assert_eq!(connection::sql_length("SELECT 1"), Ok(8));
    assert!(connection::threading_mode_is_safe(1, 0x1000));
    assert!(!connection::threading_mode_is_safe(1, 8));
    assert!(!connection::threading_mode_is_safe(0, 0x1000));
}

#[test]
fn hook_answers() {
    assert_eq!(hooks::callback_answer(Some(true)), 1);
    assert_eq!(hooks::callback_answer(Some(false)), 0);
    assert_eq!(hooks::callback_answer(None), 0);
    assert_eq!(hooks::authorizer_answer(Some(Authorization::Ignore)), codes::SQLITE_IGNORE);
    assert_eq!(hooks::authorizer_answer(None), codes::SQLITE_ERROR);
    assert_eq!(hooks::optional_str(Some(b"main")), Some("main"));
    assert_eq!(hooks::optional_str(Some(b"\xff")), None);
    assert_eq!(hooks::optional_str(None), None);
    assert_eq!(Action::from(codes::SQLITE_INSERT), Action::SQLITE_INSERT);
    assert_eq!(Action::from(12345), Action::UNKNOWN);
    assert_eq!(TransactionOperation::from_str("BEGIN"), TransactionOperation::Begin);
    assert_eq!(TransactionOperation::from_str("begin"), TransactionOperation::Unknown);
}

#[test]
fn session_conflicts_and_operations() {
    assert_eq!(ConflictType::from(codes::SQLITE_CHANGESET_CONFLICT), ConflictType::SQLITE_CHANGESET_CONFLICT);
    assert_eq!(ConflictType::from(99), ConflictType::UNKNOWN);
    assert_eq!(ConflictType::SQLITE_CHANGESET_FOREIGN_KEY.code(), 5);
    assert_eq!(session::conflict_answer(Some(ConflictAction::SQLITE_CHANGESET_REPLACE)), 1);
    assert_eq!(session::conflict_answer(None), codes::SQLITE_CHANGESET_ABORT);
    let op = Operation::from_raw("foo".to_string(), 3, codes::SQLITE_UPDATE, 2);
    assert_eq!(op.table_name(), "foo");
    assert_eq!(op.number_of_columns(), 3);
    assert_eq!(op.code(), Action::SQLITE_UPDATE);
    assert!(op.indirect());
}

#[test]
fn trace_events() {
    assert_eq!(TraceEventCodes::all().bits(), 0x0f);
    assert_eq!(TraceEventCodes::from_bits_truncate(0xff).bits(), 0x0f);
    assert!(TraceEventCodes::all().contains(TraceEventCodes::from_bits_truncate(codes::SQLITE_TRACE_ROW)));
    assert!(!TraceEventCodes::empty().contains(TraceEventCodes::all()));
    match trace::trace_event(codes::SQLITE_TRACE_STMT, 11, "SELECT 1", 0) {
        Some(TraceEvent::Stmt(s, sql)) => {
            assert_eq!(s, StmtRef::new(11));
            assert_eq!(sql, "SELECT 1");
        }
        _ => panic!("expected a statement event"),
    }
    match trace::trace_event(codes::SQLITE_TRACE_PROFILE, 11, "", -5) {
        Some(TraceEvent::Profile(_, d)) => assert_eq!(d, std::time::Duration::ZERO),
        _ => panic!("expected a profile event"),
    }
    match trace::trace_event(codes::SQLITE_TRACE_PROFILE, 11, "", 1_500_000_123) {
        Some(TraceEvent::Profile(_, d)) => assert_eq!(d, std::time::Duration::new(1, 500_000_123)),
        _ => panic!("expected a profile event"),
    }
    assert!(trace::trace_event(0x10, 11, "", 0).is_none());
    assert_eq!(trace::profile_duration_nanos(1500), 1500);
}

#[test]
fn mem_file_grows_and_shrinks() {
    let mut f = MemFile::with_capacity(4);
    assert_eq!(f.capacity(), 4);
    assert_eq!(f.len(), 0);
    f.extend(vec![1, 2, 3]);
    assert_eq!(f.get(1), 2);
    assert_eq!(f.capacity(), 4);
    f.extend_from_slice(&[4, 5]);
    assert_eq!(f.to_vec(), vec![1, 2, 3, 4, 5]);
    assert_eq!(f.capacity(), 5);
    f.reserve(10);
    assert_eq!(f.capacity(), 15);
    f.shrink_to_fit();
    assert_eq!(f.capacity(), 5);
    f.set(0, 9);
    assert_eq!(f.to_vec(), vec![9, 2, 3, 4, 5]);
    f.set_len(2);
    assert_eq!(f.to_vec(), vec![9, 2]);
    let c = f.clone();
    assert_eq!(c.to_vec(), vec![9, 2]);
    assert_eq!(MemFile::default().len(), 0);
}

#[test]
fn memfs_read_write() {
    let mut fs = MemFs::new();
    assert!(!fs.file_exists("db"));
    assert_eq!(fs.open("db".to_string()), codes::SQLITE_OK);
    assert!(fs.file_exists("db"));
    assert_eq!(fs.file_size("db"), 0);
    assert_eq!(fs.write("db", &[1, 2, 3], 2), codes::SQLITE_OK);
    assert_eq!(fs.file_size("db"), 5);
    let mut buf = [9u8; 5];
    assert_eq!(fs.read("db", &mut buf, 0), codes::SQLITE_OK);
    assert_eq!(buf, [0, 0, 1, 2, 3]);
    let mut buf = [9u8; 4];
    assert_eq!(fs.read("db", &mut buf, 3), codes::SQLITE_IOERR_SHORT_READ);
    assert_eq!(buf, [9u8; 4]);
    fs.add_file("other".to_string());
    fs.del_file("db");
    assert!(!fs.file_exists("db"));
    assert!(fs.file_exists("other"));
    assert_eq!(fs.get_node("other").unwrap().size(), 0);
}

#[test]
fn node_copy_out_and_write_in() {
    let mut n = Node::new();
    n.write_in(&[5, 6], 1);
    assert_eq!(n.size(), 3);
    let mut out = [0u8; 2];
    assert_eq!(n.copy_out(&mut out, 1), Some(()));
    assert_eq!(out, [5, 6]);
    let mut out = [0u8; 4];
    assert_eq!(n.copy_out(&mut out, 0), None);
}

#[test]
fn open_flags_and_messages() {
    assert_eq!(connection::open_flags(6, 3_037_000), (6 | codes::SQLITE_OPEN_EXRESCODE, true));
    assert_eq!(connection::open_flags(6, 3_036_999), (6, false));
    assert_eq!(
        connection::open_error_message(true, 14, None, "/tmp/x.db"),
        Some("/tmp/x.db".to_string())
    );
    assert_eq!(
        connection::open_error_message(false, 14, Some("unable to open database file".to_string()), "/tmp/x.db"),
        Some("unable to open database file: /tmp/x.db".to_string())
    );
    assert_eq!(
        connection::open_error_message(false, 11, Some("malformed".to_string()), "/tmp/x.db"),
        Some("malformed".to_string())
    );
}

#[test]
fn digits_and_decimal_text() {
    let mut s = String::new();
    rusqlite::util::push_decimal(&mut s, 0);
    assert_eq!(s, "0");
    let mut s = String::from("n=");
    rusqlite::util::push_decimal(&mut s, -1200);
    assert_eq!(s, "n=-1200");
    let mut s = String::new();
    rusqlite::util::push_digits(&mut s, u64::MAX);
    assert_eq!(s, u64::MAX.to_string());
}

#[test]
fn primary_key_flags_mark_nonzero_columns() {
    assert_eq!(session::primary_key_flags(&[1, 0, 0, 2]), vec![true, false, false, true]);
    assert_eq!(session::primary_key_flags(&[]), Vec::<bool>::new());
}

/// A connection's cached-statement checkout: the statement cached for `sql`,
/// or a freshly prepared one (with handle `fresh`) keyed by the trimmed text.
fn prepare_cached(cache: &mut StatementCache, sql: &str, fresh: u64) -> RawStatement {
    match cache.get(sql) {
        Some(stmt) => stmt,
        None => RawStatement { handle: fresh, cache_key: Some(sql.trim().to_string()) },
    }
}

#[test]
fn test_cache() {
    let mut c = Connection::from_handle(1, true);
    let cache = c.cache();
    let initial_capacity = cache.capacity();
    assert_eq!(0, cache.len());
    assert!(initial_capacity > 0);

    let sql = "PRAGMA schema_version";
    {
        let stmt = prepare_cached(cache, sql, 10);
        assert_eq!(0, cache.len());
        // The statement goes back to the cache when it is dropped.
        cache.cache_stmt(stmt);
    }
    assert_eq!(1, cache.len());

    {
        let stmt = prepare_cached(cache, sql, 11);
        assert_eq!(0, cache.len());
        assert_eq!(stmt.handle, 10);
        cache.cache_stmt(stmt);
    }
    assert_eq!(1, cache.len());

    cache.flush();
    assert_eq!(0, cache.len());
    assert_eq!(initial_capacity, cache.capacity());
}

#[test]
fn test_set_capacity() {
    let mut c = Connection::from_handle(1, true);
    let sql = "PRAGMA schema_version";
    {
        let stmt = prepare_cached(c.cache(), sql, 10);
        assert_eq!(0, c.cache().len());
        c.cache().cache_stmt(stmt);
    }
    assert_eq!(1, c.cache().len());

    c.set_prepared_statement_cache_capacity(0);
    assert_eq!(0, c.cache().len());

    {
        let stmt = prepare_cached(c.cache(), sql, 11);
        assert_eq!(0, c.cache().len());
        c.cache().cache_stmt(stmt);
    }
    assert_eq!(0, c.cache().len());

    c.set_prepared_statement_cache_capacity(8);
    {
        let stmt = prepare_cached(c.cache(), sql, 12);
        assert_eq!(0, c.cache().len());
        c.cache().cache_stmt(stmt);
    }
    assert_eq!(1, c.cache().len());
}

#[test]
fn test_discard() {
    let mut c = Connection::from_handle(1, true);
    let sql = "PRAGMA schema_version";
    {
        let stmt = prepare_cached(c.cache(), sql, 10);
        assert_eq!(0, c.cache().len());
        // A discarded statement is finalized instead of going back.
        drop(stmt);
    }
    assert_eq!(0, c.cache().len());
}

#[test]
fn test_cache_key() {
    let mut c = Connection::from_handle(1, true);
    assert_eq!(0, c.cache().len());

    let sql = "PRAGMA schema_version; ";
    {
        let stmt = prepare_cached(c.cache(), sql, 10);
        assert_eq!(0, c.cache().len());
        c.cache().cache_stmt(stmt);
    }
    assert_eq!(1, c.cache().len());

    {
        let stmt = prepare_cached(c.cache(), sql, 11);
        assert_eq!(0, c.cache().len());
        assert_eq!(stmt.handle, 10);
        c.cache().cache_stmt(stmt);
    }
    assert_eq!(1, c.cache().len());
}

#[test]
fn trim_matches_std() {
    for s in [
        "  SELECT 1\n",
        "\u{3000}\u{85}x y\u{2029}\t",
        "",
        " \u{a0} ",
        "\u{200b}x",
        "PRAGMA schema_version; ",
    ] {
        assert_eq!(rusqlite::util::str_trim(s), s.trim());
    }
}
