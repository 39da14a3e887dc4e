use rusqlite::codes;
use rusqlite::vfs::callbacks::{
    self, AccessCheck, UNIX_EPOCH_JULIAN_MILLIS,
};
use rusqlite::vfs::memvfs::MemVfs;
use rusqlite::vfs::{Error, FileType, VfsPath, WalLockMode};

#[test]
fn open_names_the_file_kind() {
    let path = VfsPath(b"test.db");
    assert!(matches!(
        callbacks::open_file_type(codes::SQLITE_OPEN_MAIN_DB | 0x6, Some(path)),
        Ok(FileType::MainDb(VfsPath(b"test.db")))
    ));
    assert!(matches!(
        callbacks::open_file_type(codes::SQLITE_OPEN_WAL, Some(path)),
        Ok(FileType::Wal(VfsPath(b"test.db")))
    ));
    assert!(matches!(
        callbacks::open_file_type(codes::SQLITE_OPEN_TEMP_JOURNAL | codes::SQLITE_OPEN_DELETEONCLOSE, None),
        Ok(FileType::TempJournal)
    ));
    // A nameless file must be deleted on close.
    assert!(matches!(
        callbacks::open_file_type(codes::SQLITE_OPEN_TEMP_DB, None),
        Err(codes::SQLITE_MISUSE)
    ));
}

#[test]
fn short_read_is_zero_filled() {
    let mut vfs = MemVfs::new();
    vfs.add_file(b"a.db".to_vec(), vec![1, 2, 3]);
    let file = vfs.open(FileType::MainDb(VfsPath(b"a.db"))).ok().unwrap().file;

    let mut buf = [9u8; 5];
    let read = file.read_at(&mut buf, 1);
    assert_eq!(callbacks::read_answer(read, &mut buf), codes::SQLITE_IOERR_SHORT_READ);
    assert_eq!(buf, [2, 3, 0, 0, 0]);

    let mut buf = [9u8; 2];
    let read = file.read_at(&mut buf, 0);
    assert_eq!(callbacks::read_answer(read, &mut buf), codes::SQLITE_OK);
    assert_eq!(buf, [1, 2]);

    let mut buf = [9u8; 2];
    assert_eq!(callbacks::read_answer(Err(Error::new(codes::SQLITE_IOERR_SHORT_READ + 1)), &mut buf), 523);
    assert_eq!(buf, [9, 9]);
}

#[test]
fn access_flags() {
    assert_eq!(callbacks::access_check(codes::SQLITE_ACCESS_EXISTS), Some(AccessCheck::Exists));
    assert_eq!(callbacks::access_check(codes::SQLITE_ACCESS_READ), Some(AccessCheck::Read));
    assert_eq!(callbacks::access_check(codes::SQLITE_ACCESS_READWRITE), Some(AccessCheck::ReadWrite));
    assert_eq!(callbacks::access_check(3), None);
}

#[test]
fn full_path_is_zero_terminated() {
    let vfs = MemVfs::new();
    let mut out = [7u8; 8];
    let n_out = out.len();
    let written = vfs.write_full_path(VfsPath(b"ab"), &mut out[..n_out - 1]);
    assert_eq!(callbacks::full_path_answer(written, &mut out), codes::SQLITE_OK);
    assert_eq!(&out, &[b'a', b'b', 0, 7, 7, 7, 7, 7]);
    let mut out = [7u8; 2];
    assert_eq!(callbacks::full_path_answer(Err(Error::new(codes::SQLITE_MISUSE)), &mut out), codes::SQLITE_MISUSE);
    assert_eq!(out, [7, 7]);
}

#[test]
fn current_time_counts_julian_milliseconds() {
    assert_eq!(callbacks::julian_day_millis(0), UNIX_EPOCH_JULIAN_MILLIS);
    assert_eq!(UNIX_EPOCH_JULIAN_MILLIS, 24405875 * 8640000);
    // 2000-01-01T12:00:00Z is Julian day 2451545.0.
    assert_eq!(callbacks::julian_day_millis(946_728_000_000), 2_451_545 * 86_400_000);
}

#[test]
fn shm_lock_requests() {
    let q = callbacks::shm_lock_request(3, 2, codes::SQLITE_SHM_LOCK | codes::SQLITE_SHM_SHARED).unwrap();
    assert!(q.acquire);
    assert_eq!(q.mode, WalLockMode::Shared);
    assert_eq!(q.locks.mask, 0b11000);
    let q = callbacks::shm_lock_request(0, 1, codes::SQLITE_SHM_UNLOCK | codes::SQLITE_SHM_EXCLUSIVE).unwrap();
    assert!(!q.acquire);
    assert_eq!(q.mode, WalLockMode::Exclusive);
    assert!(q.locks.write());
    assert_eq!(callbacks::shm_lock_request(0, 1, codes::SQLITE_SHM_LOCK).unwrap_err(), codes::SQLITE_MISUSE);
    assert_eq!(callbacks::shm_lock_request(0, 1, codes::SQLITE_SHM_SHARED).unwrap_err(), codes::SQLITE_MISUSE);
}

#[test]
fn registration_needs_a_name() {
    assert_eq!(callbacks::registration_name_check(""), Err(Error::new(codes::SQLITE_MISUSE)));
    assert_eq!(callbacks::registration_name_check("memvfs"), Ok(()));
}
