use rusqlite::codes;
use rusqlite::vfs::file_control::{self, FileControl, WriteOutputResultExt};
use rusqlite::vfs::{Error, PragmaError};

#[test]
fn opcodes_map_to_file_requests() {
    assert_eq!(file_control::file_control_request(codes::SQLITE_FCNTL_LOCKSTATE, 0), FileControl::LockState);
    assert_eq!(file_control::file_control_request(codes::SQLITE_FCNTL_SIZE_HINT, 4096), FileControl::SizeHint(4096));
    assert_eq!(file_control::file_control_request(codes::SQLITE_FCNTL_CHUNK_SIZE, -1), FileControl::ChunkSize(u32::MAX));
    assert_eq!(file_control::file_control_request(codes::SQLITE_FCNTL_MMAP_SIZE, -1), FileControl::MmapSize(None));
    assert_eq!(file_control::file_control_request(codes::SQLITE_FCNTL_MMAP_SIZE, 10), FileControl::MmapSize(Some(10)));
    assert_eq!(file_control::file_control_request(codes::SQLITE_FCNTL_PERSIST_WAL, -1), FileControl::PersistWal(None));
    assert_eq!(file_control::file_control_request(codes::SQLITE_FCNTL_PERSIST_WAL, 2), FileControl::PersistWal(Some(true)));
    assert_eq!(
        file_control::file_control_request(codes::SQLITE_FCNTL_POWERSAFE_OVERWRITE, 0),
        FileControl::PowersafeOverwrite(Some(false))
    );
    assert_eq!(file_control::file_control_request(codes::SQLITE_FCNTL_LOCK_TIMEOUT, 250), FileControl::LockTimeout(250));
    assert_eq!(file_control::file_control_request(codes::SQLITE_FCNTL_SIZE_LIMIT, 1 << 40), FileControl::SizeLimit(Some(1 << 40)));
    assert_eq!(file_control::file_control_request(codes::SQLITE_FCNTL_DATA_VERSION, 0), FileControl::Answer(codes::SQLITE_MISUSE));
    assert_eq!(file_control::file_control_request(codes::SQLITE_FCNTL_TRACE, 0), FileControl::Answer(codes::SQLITE_OK));
    assert_eq!(file_control::file_control_request(codes::SQLITE_FCNTL_RBU, 0), FileControl::Answer(codes::SQLITE_NOTFOUND));
    assert_eq!(file_control::file_control_request(1000, 0), FileControl::Answer(codes::SQLITE_NOTFOUND));
}

#[test]
fn answers_written_back() {
    let mut out = 7i64;
    assert_eq!(file_control::size_answer(Ok(4096), &mut out), codes::SQLITE_OK);
    assert_eq!(out, 4096);
    assert_eq!(file_control::size_answer(Err(Error::new(codes::SQLITE_FULL)), &mut out), codes::SQLITE_FULL);
    assert_eq!(out, 4096);
    let mut flag = 5;
    assert_eq!(file_control::flag_answer(true, &mut flag), codes::SQLITE_OK);
    assert_eq!(flag, 1);
    let mut v = 0u32;
    assert!(Ok::<u32, Error>(3).write_to_output(&mut v).is_ok());
    assert_eq!(v, 3);
    assert_eq!(file_control::result_code(Err(Error::new(codes::SQLITE_READONLY))), codes::SQLITE_READONLY);
}

#[test]
fn pragma_answers() {
    let ok_none: Result<Option<String>, PragmaError> = Ok(None);
    assert_eq!(file_control::pragma_answer(&ok_none, "journal_mode", Some("wal")), (codes::SQLITE_OK, Some("wal")));
    assert_eq!(file_control::pragma_answer(&ok_none, "journal_mode", None), (codes::SQLITE_OK, Some("journal_mode")));
    let ok_some: Result<Option<String>, PragmaError> = Ok(Some("delete".to_string()));
    assert_eq!(file_control::pragma_answer(&ok_some, "journal_mode", Some("wal")), (codes::SQLITE_OK, Some("delete")));
    let err: Result<Option<String>, PragmaError> =
        Err(PragmaError::new(Error::new(codes::SQLITE_ERROR), "nope".to_string()));
    assert_eq!(file_control::pragma_answer(&err, "x", None), (codes::SQLITE_ERROR, Some("nope")));
    let err: Result<Option<String>, PragmaError> = Err(PragmaError::from(Error::new(codes::SQLITE_NOTFOUND)));
    assert_eq!(file_control::pragma_answer(&err, "x", None), (codes::SQLITE_NOTFOUND, None));
}

#[test]
fn pragma_error_display() {
    let e = PragmaError::new(Error::new(codes::SQLITE_ERROR), "no such mode".to_string());
    assert_eq!(e.display("Error code 1"), "Error code 1: no such mode");
    let e = PragmaError::from(Error::new(codes::SQLITE_ERROR));
    assert_eq!(e.display("Error code 1"), "Error code 1");
}
