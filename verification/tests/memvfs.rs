use rusqlite::codes;
use rusqlite::vfs::memvfs::MemVfs;
use rusqlite::vfs::{Error, FileType, VfsPath};

#[test]
fn memvfs_opens_main_db_read_only() {
    let mut vfs = MemVfs::new();
    vfs.add_file(b"test.db".to_vec(), vec![1, 2, 3, 4]);
    assert_eq!(vfs.file_exists(VfsPath(b"test.db")), Ok(true));
    assert_eq!(vfs.can_read(VfsPath(b"test.db")), Ok(true));
    assert_eq!(vfs.can_write(VfsPath(b"test.db")), Ok(false));
    let opened = vfs.open(FileType::MainDb(VfsPath(b"test.db"))).ok().unwrap();
    assert!(opened.readonly);
    let mut file = opened.file;
    let mut buf = [0u8; 8];
    assert_eq!(file.read_at(&mut buf, 1), Ok(3));
    assert_eq!(&buf[..3], &[2, 3, 4]);
    assert_eq!(file.len(), Ok(4));
    assert!(matches!(
        vfs.open(FileType::MainJournal(VfsPath(b"test.db"))),
        Err(Error { extended_code: codes::SQLITE_CANTOPEN })
    ));
    assert!(vfs.open(FileType::MainDb(VfsPath(b"other.db"))).is_err());
}

#[test]
fn memvfs_replace_and_remove() {
    let mut vfs = MemVfs::new();
    vfs.add_file(b"a".to_vec(), vec![1]);
    vfs.add_file(b"a".to_vec(), vec![9, 9]);
    let f = vfs.open(FileType::MainDb(VfsPath(b"a"))).ok().unwrap().file;
    assert_eq!(f.len(), Ok(2));
    vfs.remove_file(b"a");
    assert_eq!(vfs.file_exists(VfsPath(b"a")), Ok(false));
    // A file opened before the removal keeps its contents.
    assert_eq!(f.len(), Ok(2));
}

#[test]
fn memvfs_full_path() {
    let vfs = MemVfs::new();
    let mut out = [0u8; 4];
    assert_eq!(vfs.write_full_path(VfsPath(b"abcdef"), &mut out), Ok(4));
    assert_eq!(&out, b"abcd");
    let mut out = [7u8; 8];
    assert_eq!(vfs.write_full_path(VfsPath(b"ab"), &mut out), Ok(2));
    assert_eq!(&out, &[b'a', b'b', 7, 7, 7, 7, 7, 7]);
    assert_eq!(vfs.last_error(), 0);
}

/// The whole contents of an opened file.
fn contents(file: &rusqlite::vfs::memvfs::MemFile) -> Vec<u8> {
    let len = file.len().unwrap() as usize;
    let mut buf = vec![0u8; len];
    assert_eq!(file.read_at(&mut buf, 0), Ok(len));
    buf
}

#[test]
fn test_memvfs() {
    // The database files are stood in for by their bytes: what a
    // connection reads through the VFS is what the VFS hands out.
    let hello_world = b"hello world".to_vec();
    let foo_bar_baz = b"foo bar baz".to_vec();

    let mut vfs = MemVfs::new();
    vfs.add_file(b"test.db".to_vec(), hello_world.clone());

    let conn1 = vfs.open(FileType::MainDb(VfsPath(b"test.db"))).ok().unwrap().file;
    assert_eq!(contents(&conn1), hello_world);

    // The file can be read from several connections.
    {
        let conn2 = vfs.open(FileType::MainDb(VfsPath(b"test.db"))).ok().unwrap().file;
        assert_eq!(contents(&conn2), hello_world);
    }

    // Removing the file from the VFS: it can't be opened now...
    vfs.remove_file(b"test.db");
    assert!(vfs.open(FileType::MainDb(VfsPath(b"test.db"))).is_err());
    // ...but existing connections still read it.
    assert_eq!(contents(&conn1), hello_world);

    // The file can be added again with different content.
    vfs.add_file(b"test.db".to_vec(), foo_bar_baz.clone());
    let conn3 = vfs.open(FileType::MainDb(VfsPath(b"test.db"))).ok().unwrap().file;
    assert_eq!(contents(&conn3), foo_bar_baz);

    // Existing connections still work once the VFS is gone.
    drop(vfs);
    assert_eq!(contents(&conn1), hello_world);
    assert_eq!(contents(&conn3), foo_bar_baz);
}
