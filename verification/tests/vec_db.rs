use rusqlite::codes;
use rusqlite::vec_db::{write_refused, MemFile, VecDbFile};

#[test]
fn test_vec_db_write_zero_past_len() {
    let mut vec_db = VecDbFile::new(MemFile::Owned(Vec::new()), usize::MAX);
    let buf = &[11u8, 22, 33];
    let rc = vec_db.x_write(buf, 4);
    assert_eq!(rc, codes::SQLITE_OK);
    assert_eq!(vec_db.data.as_slice(), &[0, 0, 0, 0, 11, 22, 33]);
}

#[test]
fn vec_db_read_after_write() {
    let mut vec_db = VecDbFile::new(MemFile::Owned(vec![1, 2, 3, 4, 5, 6, 7, 8]), usize::MAX);
    assert_eq!(vec_db.x_write(&[9, 9], 3), codes::SQLITE_OK);
    let mut out = [0u8; 4];
    assert_eq!(vec_db.x_read(&mut out, 2), codes::SQLITE_OK);
    assert_eq!(out, [3, 9, 9, 6]);
}

#[test]
fn vec_db_short_read_zero_fills() {
    let vec_db = VecDbFile::new(MemFile::Owned(vec![1, 2, 3]), usize::MAX);
    let mut out = [7u8; 4];
    assert_eq!(vec_db.x_read(&mut out, 1), codes::SQLITE_IOERR_SHORT_READ);
    assert_eq!(out, [2, 3, 0, 0]);
}

#[test]
fn vec_db_read_only_refuses_writes() {
    let bytes = [1u8, 2, 3];
    let mut vec_db = VecDbFile::new(MemFile::ReadOnly(&bytes), usize::MAX);
    assert_eq!(vec_db.x_write(&[5], 0), codes::SQLITE_READONLY);
    assert_eq!(vec_db.data.as_slice(), &[1, 2, 3]);
}

#[test]
fn vec_db_size_limit_refuses_growth() {
    let mut vec_db = VecDbFile::new(MemFile::Owned(vec![0; 4]), 4);
    assert_eq!(vec_db.x_write(&[1, 2], 3), codes::SQLITE_FULL);
    assert_eq!(vec_db.x_write(&[1], 3), codes::SQLITE_OK);
}

/// The default `SQLITE_CONFIG_MEMDB_MAXSIZE`.
const MEMDB_MAXSIZE: usize = 1073741824;

/// The bytes of a freshly serialized two-page database.
fn serialized_db() -> Vec<u8> {
    let mut bytes = vec![0u8; 8192];
    bytes[..16].copy_from_slice(b"SQLite format 3\0");
    bytes
}

/// A write of `n` bytes just past the end, as an insert that enlarges the
/// database does.
fn enlarge(vec_db: &mut VecDbFile<'_>, n: usize) -> i32 {
    let end = vec_db.data.len() as i64;
    vec_db.x_write(&vec![7u8; n], end)
}

#[test]
fn test_vec_db_fetch() {
    let mut vec_db = VecDbFile::new(MemFile::Owned(serialized_db()), MEMDB_MAXSIZE);
    let size = vec_db.data.len();
    assert_ne!(0, size);
    // fetch returns nothing on overflow
    assert!(vec_db.x_fetch(0, size as i32 + 1).is_none());
    assert!(vec_db.x_fetch(1, size as i32).is_none());
    let p = vec_db.x_fetch(0, size as i32);
    assert_eq!(p, Some(0));
    // won't resize until unfetch
    assert_eq!(enlarge(&mut vec_db, 4096), codes::SQLITE_FULL);
    assert_eq!(vec_db.x_unfetch(0), codes::SQLITE_OK);
    assert_eq!(size, vec_db.data.len());
    assert_eq!(enlarge(&mut vec_db, 4096), codes::SQLITE_OK);
    assert_ne!(size, vec_db.data.len());
}

#[test]
fn test_vec_db_read_short() {
    let mut vec_db = VecDbFile::new(MemFile::Owned(serialized_db()), MEMDB_MAXSIZE);

    // when reading past end, the buffer should be filled with zeros
    let mut buf = [1u8; 16];
    let end = vec_db.x_size();
    let rc = vec_db.x_read(&mut buf, end);
    assert_eq!(rc, codes::SQLITE_IOERR_SHORT_READ);
    assert_eq!(&buf, &[0; 16]);

    // when reading partly past the end, the buffer should be filled with content
    MemFile::get_mut_vec(&mut vec_db.data).unwrap()[end as usize - 1] = 0xab;
    let mut buf = [1u8; 16];
    let rc = vec_db.x_read(&mut buf, end - 8);
    assert_eq!(rc, codes::SQLITE_IOERR_SHORT_READ);
    assert_eq!(&buf, b"\0\0\0\0\0\0\0\xab\0\0\0\0\0\0\0\0");
}

fn file_size_limit(vec_db: &mut VecDbFile<'_>, size_max: i64) -> i64 {
    let mut arg = size_max;
    assert_eq!(vec_db.x_file_control(codes::SQLITE_FCNTL_SIZE_LIMIT, &mut arg), codes::SQLITE_OK);
    arg
}

#[test]
fn test_vec_db_size_max() {
    let mut vec_db = VecDbFile::new(MemFile::Owned(serialized_db()), MEMDB_MAXSIZE);
    let size = vec_db.data.len() as i64;
    assert_ne!(0, size);
    let cap = file_size_limit(&mut vec_db, -1);
    assert_eq!(cap, 1073741824, "default SQLITE_CONFIG_MEMDB_MAXSIZE");
    assert_eq!(size, file_size_limit(&mut vec_db, 200));
    assert_eq!(size, file_size_limit(&mut vec_db, -1));

    // trigger enlarge
    assert_eq!(enlarge(&mut vec_db, 4096), codes::SQLITE_FULL, "enlarge should fail");

    let new_cap = size * 2;
    assert_eq!(new_cap, file_size_limit(&mut vec_db, new_cap));
    assert_eq!(new_cap, file_size_limit(&mut vec_db, -1));
    assert_eq!(enlarge(&mut vec_db, 8192), codes::SQLITE_OK, "enlarge should succeed");

    // truncate
    assert_eq!(new_cap, vec_db.x_size());
    assert_eq!(vec_db.x_truncate(size), codes::SQLITE_OK);
    assert_eq!(size, vec_db.x_size());
    assert_eq!(new_cap, file_size_limit(&mut vec_db, -1));
    assert_eq!(vec_db.x_truncate(4096), codes::SQLITE_OK);
    assert_eq!(4096, vec_db.x_size());
}

#[test]
fn vec_db_write_refusal() {
    // Fits the length or the allocation: never refused.
    assert!(!write_refused(8, 8, 8, 8, 1, 0));
    assert!(!write_refused(8, 16, 16, 12, 1, 0));
    // Must grow past the allocation: refused while mapped...
    assert!(write_refused(8, 8, 16, 12, 1, usize::MAX));
    // ...or when the new allocation exceeds the limit.
    assert!(write_refused(8, 8, 16, 12, 0, 15));
    assert!(!write_refused(8, 8, 16, 12, 0, 16));
}

#[test]
fn write_into_fresh_vector() {
    let mut data = Vec::new();
    assert_eq!(rusqlite::vec_db::write_into(&mut data, &[11, 22, 33], 4, 0, usize::MAX), codes::SQLITE_OK);
    assert_eq!(data, vec![0, 0, 0, 0, 11, 22, 33]);
    let mut data = vec![1u8, 2];
    assert_eq!(rusqlite::vec_db::write_into(&mut data, &[9; 64], 2, 1, usize::MAX), codes::SQLITE_FULL);
    assert_eq!(data, vec![1, 2]);
}
