//! The decisions SQLite's VFS callbacks make around each call into a
//! [`Vfs`](crate::vfs) implementation: which kind of file an open names,
//! what a short read leaves in the buffer, which access check is asked
//! for, how a full path is terminated, what a shared-memory lock request
//! asks, and the current time as SQLite counts it.

use vstd::prelude::*;
use crate::codes;
use crate::vfs::{Error, FileType, VfsPath, WalLock, WalLockMode, wal_slot};

verus! {

/// The bits of `xOpen`'s flags that say which kind of file is opened.
pub const FILE_TYPE_MASK: i32 = 0x0FFF00;

/// The kinds of file that are opened by name.
pub open spec fn is_named_file_type(t: i32) -> bool {
    t == codes::SQLITE_OPEN_MAIN_DB || t == codes::SQLITE_OPEN_MAIN_JOURNAL
        || t == codes::SQLITE_OPEN_SUBJOURNAL || t == codes::SQLITE_OPEN_SUPER_JOURNAL
        || t == codes::SQLITE_OPEN_WAL
}

/// The kinds of file SQLite opens through a VFS.
pub open spec fn is_file_type(t: i32) -> bool {
    is_named_file_type(t) || t == codes::SQLITE_OPEN_TEMP_DB || t == codes::SQLITE_OPEN_TEMP_JOURNAL
        || t == codes::SQLITE_OPEN_TRANSIENT_DB
}

/// The file of kind `t` at `path` (`path` is only read for the kinds that
/// are opened by name).
pub open spec fn file_type_at<'a>(t: i32, path: Option<VfsPath<'a>>) -> FileType<'a> {
    if t == codes::SQLITE_OPEN_MAIN_DB {
        FileType::MainDb(path->0)
    } else if t == codes::SQLITE_OPEN_MAIN_JOURNAL {
        FileType::MainJournal(path->0)
    } else if t == codes::SQLITE_OPEN_SUBJOURNAL {
        FileType::Subjournal(path->0)
    } else if t == codes::SQLITE_OPEN_SUPER_JOURNAL {
        FileType::SuperJournal(path->0)
    } else if t == codes::SQLITE_OPEN_WAL {
        FileType::Wal(path->0)
    } else if t == codes::SQLITE_OPEN_TEMP_DB {
        FileType::TempDb
    } else if t == codes::SQLITE_OPEN_TEMP_JOURNAL {
        FileType::TempJournal
    } else {
        FileType::TransientDb
    }
}

/// Whether `xOpen` refuses a nameless file: only a file deleted on close
/// may be opened without a name.
pub open spec fn nameless_refused(flags: i32, path: Option<VfsPath>) -> bool {
    path is None && flags & codes::SQLITE_OPEN_DELETEONCLOSE == 0
}

/// The kind of file `xOpen` is asked to open, from its flags and its file
/// name (`None` for a null name). A nameless file that is not deleted on
/// close is a misuse. SQLite always passes one of its file kinds, and a
/// name for the kinds opened by name.
pub fn open_file_type<'a>(flags: i32, path: Option<VfsPath<'a>>) -> (r: Result<FileType<'a>, i32>)
    requires
        !nameless_refused(flags, path) ==> is_file_type(flags & FILE_TYPE_MASK),
        !nameless_refused(flags, path) && path is None ==> !is_named_file_type(flags & FILE_TYPE_MASK),
    ensures
        nameless_refused(flags, path) ==> r == Err::<FileType<'a>, i32>(codes::SQLITE_MISUSE),
        !nameless_refused(flags, path) ==> r == Ok::<FileType<'a>, i32>(file_type_at(flags & FILE_TYPE_MASK, path)),
{
    if path.is_none() && flags & codes::SQLITE_OPEN_DELETEONCLOSE == 0 {
        return Err(codes::SQLITE_MISUSE);
    }
    let t = flags & FILE_TYPE_MASK;
    if t == codes::SQLITE_OPEN_MAIN_DB {
        Ok(FileType::MainDb(path.unwrap()))
    } else if t == codes::SQLITE_OPEN_MAIN_JOURNAL {
        Ok(FileType::MainJournal(path.unwrap()))
    } else if t == codes::SQLITE_OPEN_SUBJOURNAL {
        Ok(FileType::Subjournal(path.unwrap()))
    } else if t == codes::SQLITE_OPEN_SUPER_JOURNAL {
        Ok(FileType::SuperJournal(path.unwrap()))
    } else if t == codes::SQLITE_OPEN_WAL {
        Ok(FileType::Wal(path.unwrap()))
    } else if t == codes::SQLITE_OPEN_TEMP_DB {
        Ok(FileType::TempDb)
    } else if t == codes::SQLITE_OPEN_TEMP_JOURNAL {
        Ok(FileType::TempJournal)
    } else {
        Ok(FileType::TransientDb)
    }
}


/// Each file kind of `sqlite3.h` opens the file kind of the same name: the
/// kind bits of `xOpen`'s flags select it, whatever other bits are set,
/// and the kinds opened by name carry the name they were given. The
/// statement uses the flags' numbers, so it pins the mapping whatever the
/// constants are called.
pub proof fn lemma_open_file_kinds<'a>(flags: i32, path: VfsPath<'a>, other: Option<VfsPath<'a>>)
    ensures
        flags & FILE_TYPE_MASK == 0x100 ==> file_type_at(flags & FILE_TYPE_MASK, Some(path)) == FileType::MainDb(path),
        flags & FILE_TYPE_MASK == 0x800 ==> file_type_at(flags & FILE_TYPE_MASK, Some(path)) == FileType::MainJournal(path),
        flags & FILE_TYPE_MASK == 0x2000 ==> file_type_at(flags & FILE_TYPE_MASK, Some(path)) == FileType::Subjournal(path),
        flags & FILE_TYPE_MASK == 0x4000 ==> file_type_at(flags & FILE_TYPE_MASK, Some(path)) == FileType::SuperJournal(path),
        flags & FILE_TYPE_MASK == 0x80000 ==> file_type_at(flags & FILE_TYPE_MASK, Some(path)) == FileType::Wal(path),
        flags & FILE_TYPE_MASK == 0x200 ==> file_type_at(flags & FILE_TYPE_MASK, other) == FileType::TempDb,
        flags & FILE_TYPE_MASK == 0x1000 ==> file_type_at(flags & FILE_TYPE_MASK, other) == FileType::TempJournal,
        flags & FILE_TYPE_MASK == 0x400 ==> file_type_at(flags & FILE_TYPE_MASK, other) == FileType::TransientDb,
{
}

/// The buffer `xRead` hands back after the file read `n` of its bytes:
/// those bytes, then zeros.
pub open spec fn zero_filled(buf: Seq<u8>, n: int) -> Seq<u8> {
    buf.subrange(0, n) + Seq::new((buf.len() - n) as nat, |i: int| 0u8)
}

/// `xRead` after the file's `read_at`: a read of the whole buffer is
/// `SQLITE_OK`; a shorter one zero-fills the rest of the buffer and is
/// `SQLITE_IOERR_SHORT_READ`; a failed one returns its code.
pub fn read_answer(r: Result<usize, Error>, buf: &mut [u8]) -> (rc: i32)
    requires
        r matches Ok(n) ==> n <= old(buf)@.len(),
    ensures
        r matches Ok(n) ==> (n == old(buf)@.len() ==> rc == codes::SQLITE_OK && final(buf)@ == old(buf)@),
        r matches Ok(n) ==> (n < old(buf)@.len() ==> rc == codes::SQLITE_IOERR_SHORT_READ
            && final(buf)@ == zero_filled(old(buf)@, n as int)),
        r matches Err(e) ==> rc == e.extended_code && final(buf)@ == old(buf)@,
{
    match r {
        Ok(n) => {
            if n < buf.len() {
                let mut i: usize = n;
                while i < buf.len()
                    invariant
                        n <= i <= buf@.len(),
                        buf@.len() == old(buf)@.len(),
                        forall|j: int| 0 <= j < n ==> buf@[j] == old(buf)@[j],
                        forall|j: int| n <= j < i ==> buf@[j] == 0u8,
                    decreases buf@.len() - i,
                {
                    buf[i] = 0u8;
                    i = i + 1;
                }
                assert(buf@ =~= zero_filled(old(buf)@, n as int));
                codes::SQLITE_IOERR_SHORT_READ
            } else {
                codes::SQLITE_OK
            }
        },
        Err(e) => e.extended_code,
    }
}

/// What `xAccess` asks of a file.
#[derive(Clone, Copy, Debug, PartialEq, Eq)]
pub enum AccessCheck {
    /// Whether the file exists (`SQLITE_ACCESS_EXISTS`).
    Exists,
    /// Whether the file is readable (`SQLITE_ACCESS_READ`).
    Read,
    /// Whether the file is readable and writable (`SQLITE_ACCESS_READWRITE`).
    ReadWrite,
}

/// The check `xAccess` flags ask for.
pub open spec fn access_check_of(flags: i32) -> Option<AccessCheck> {
    if flags == codes::SQLITE_ACCESS_EXISTS {
        Some(AccessCheck::Exists)
    } else if flags == codes::SQLITE_ACCESS_READ {
        Some(AccessCheck::Read)
    } else if flags == codes::SQLITE_ACCESS_READWRITE {
        Some(AccessCheck::ReadWrite)
    } else {
        None
    }
}

/// The check `xAccess` flags ask for; other flags are a misuse (`None`).
pub fn access_check(flags: i32) -> (c: Option<AccessCheck>)
    ensures
        c == access_check_of(flags),
{
    if flags == codes::SQLITE_ACCESS_EXISTS {
        Some(AccessCheck::Exists)
    } else if flags == codes::SQLITE_ACCESS_READ {
        Some(AccessCheck::Read)
    } else if flags == codes::SQLITE_ACCESS_READWRITE {
        Some(AccessCheck::ReadWrite)
    } else {
        None
    }
}

/// `xFullPathname` after the VFS wrote `n` bytes of the full path into the
/// output (all but its last byte were offered): the path is terminated by
/// a zero byte right after it; a failure returns its code and leaves the
/// output alone.
pub fn full_path_answer(r: Result<usize, Error>, out: &mut [u8]) -> (rc: i32)
    requires
        r matches Ok(n) ==> n < old(out)@.len(),
    ensures
        r matches Ok(n) ==> rc == codes::SQLITE_OK && final(out)@ == old(out)@.update(n as int, 0u8),
        r matches Err(e) ==> rc == e.extended_code && final(out)@ == old(out)@,
{
    match r {
        Ok(n) => {
            out[n] = 0u8;
            codes::SQLITE_OK
        },
        Err(e) => e.extended_code,
    }
}

/// The Unix epoch as SQLite counts time: milliseconds since noon at
/// Greenwich on November 24, 4714 B.C. (the Julian day number 2440587.5
/// times 86400000).
pub const UNIX_EPOCH_JULIAN_MILLIS: i64 = 210866760000000;

/// `xCurrentTimeInt64`: milliseconds since the Unix epoch as milliseconds
/// of the Julian day count.
pub fn julian_day_millis(unix_millis: i64) -> (jd: i64)
    requires
        unix_millis <= i64::MAX - UNIX_EPOCH_JULIAN_MILLIS,
    ensures
        jd == unix_millis + 24405875 * 8640000,
{
    unix_millis + UNIX_EPOCH_JULIAN_MILLIS
}

/// What an `xShmLock` call asks of the file: which lock slots, in which
/// mode, and whether to take (`acquire`) or release them.
#[derive(Debug)]
pub struct ShmLockRequest {
    pub locks: WalLock,
    pub mode: WalLockMode,
    pub acquire: bool,
}

/// Whether `flags` name a lock mode (shared or exclusive).
pub open spec fn names_lock_mode(flags: i32) -> bool {
    flags & codes::SQLITE_SHM_SHARED != 0 || flags & codes::SQLITE_SHM_EXCLUSIVE != 0
}

/// The `xShmLock` request for the `n` slots from `offset` with `flags`:
/// flags naming no mode, or neither taking nor releasing, are a misuse;
/// taking wins when both bits are set. SQLite's slots lie within the
/// sixteen of a lock set.
pub fn shm_lock_request(offset: i32, n: i32, flags: i32) -> (r: Result<ShmLockRequest, i32>)
    requires
        names_lock_mode(flags) ==> 0 <= offset && 0 <= n && offset + n < 16,
    ensures
        !names_lock_mode(flags) ==> r == Err::<ShmLockRequest, i32>(codes::SQLITE_MISUSE),
        names_lock_mode(flags) && flags & codes::SQLITE_SHM_LOCK == 0 && flags & codes::SQLITE_SHM_UNLOCK == 0
            ==> r == Err::<ShmLockRequest, i32>(codes::SQLITE_MISUSE),
        r matches Ok(q) ==> {
            &&& names_lock_mode(flags)
            &&& (flags & codes::SQLITE_SHM_LOCK != 0 || flags & codes::SQLITE_SHM_UNLOCK != 0)
            &&& q.acquire == (flags & codes::SQLITE_SHM_LOCK != 0)
            &&& q.mode == (if flags & codes::SQLITE_SHM_SHARED != 0 { WalLockMode::Shared } else { WalLockMode::Exclusive })
            &&& forall|i: u16| i < 16 ==> (wal_slot(q.locks.mask, i) <==> offset <= i < offset + n)
        },
{
    let mode = match WalLockMode::try_from_raw(flags) {
        Ok(mode) => mode,
        Err(_) => return Err(codes::SQLITE_MISUSE),
    };
    let locks = WalLock::new(offset as usize, n as usize);
    if (flags & codes::SQLITE_SHM_LOCK) != 0 {
        Ok(ShmLockRequest { locks, mode, acquire: true })
    } else if (flags & codes::SQLITE_SHM_UNLOCK) != 0 {
        Ok(ShmLockRequest { locks, mode, acquire: false })
    } else {
        Err(codes::SQLITE_MISUSE)
    }
}

/// A VFS is registered under a name; an empty name is a misuse.
pub fn registration_name_check(name: &str) -> (r: Result<(), Error>)
    ensures
        name@.len() == 0 <==> r is Err,
        r is Err ==> r == Err::<(), Error>(Error { extended_code: codes::SQLITE_MISUSE }),
{
    if name.is_empty() {
        Err(Error::new(codes::SQLITE_MISUSE))
    } else {
        Ok(())
    }
}

} // verus!
