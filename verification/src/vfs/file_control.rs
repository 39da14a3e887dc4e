//! The dispatch of `xFileControl` for a VFS whose files implement the file
//! trait: which file method an opcode asks for and with what argument, and
//! how the method's answer is handed back to SQLite.

use vstd::prelude::*;
use crate::codes;
use crate::vfs::{Error, PragmaError};

verus! {

/// What an `xFileControl` opcode asks of the file.
#[derive(Clone, Copy, Debug, PartialEq, Eq, Structural)]
pub enum FileControl {
    /// Write the file's lock level (its raw code) into the argument.
    LockState,
    /// Write the file's last OS error number into the argument.
    LastErrno,
    /// `hint_size` with the size.
    SizeHint(i64),
    /// `set_chunk_size` with the chunk size.
    ChunkSize(u32),
    /// `hint_overwrite` with the size.
    Overwrite(u64),
    /// Write the VFS's name into the argument.
    VfsName,
    /// `pragma` with the name and argument SQLite passes.
    Pragma,
    /// `mmap_size` (`None`: query) or `set_mmap_size` with the size; the
    /// answer goes into the argument.
    MmapSize(Option<u64>),
    /// Write `has_moved` into the argument.
    HasMoved,
    /// `pre_sync_single_db`, or `pre_sync_multiple_db` with the super
    /// journal's path when SQLite passes one.
    Sync,
    /// `commit_phase_two`.
    CommitPhaseTwo,
    /// `set_parent_connection` with the connection SQLite passes.
    ParentConnection,
    /// `begin_atomic`.
    BeginAtomic,
    /// `commit_atomic`.
    CommitAtomic,
    /// `rollback_atomic`.
    RollbackAtomic,
    /// `set_lock_timeout` with the timeout in milliseconds; the previous
    /// timeout goes into the argument.
    LockTimeout(u64),
    /// `set_busy_handler` with the handler SQLite passes.
    BusyHandler,
    /// Mark the file closed for I/O.
    NullIo,
    /// `is_wal_persistent` (`None`: query, answer into the argument) or
    /// `set_wal_persistent`.
    PersistWal(Option<bool>),
    /// `is_powersafe_overwrite` (`None`: query, answer into the argument)
    /// or `set_powersafe_overwrite`.
    PowersafeOverwrite(Option<bool>),
    /// `hint_wal_lock`.
    WalBlock,
    /// `hint_block_on_connect` with the flag.
    BlockOnConnect(bool),
    /// `on_checkpoint_start`.
    CheckpointStart,
    /// `on_checkpoint_done`.
    CheckpointDone,
    /// `lock_proxy_file_path`; the path goes into the argument.
    GetLockProxyFile,
    /// `set_lock_proxy_file_path` with the path SQLite passes.
    SetLockProxyFile,
    /// `set_size_limit` (`None`: query) with the limit; the answer goes into
    /// the argument.
    SizeLimit(Option<u64>),
    /// No file method: answer this code.
    Answer(i32),
}

/// Whether an opcode is one of the Windows handle opcodes, which are not
/// implemented.
pub open spec fn is_win32_opcode(op: i32) -> bool {
    op == codes::SQLITE_FCNTL_WIN32_GET_HANDLE || op == codes::SQLITE_FCNTL_WIN32_SET_HANDLE
        || op == codes::SQLITE_FCNTL_WIN32_AV_RETRY
}

/// Whether an opcode belongs to SQLite's core, which answers it itself.
pub open spec fn is_core_opcode(op: i32) -> bool {
    op == codes::SQLITE_FCNTL_DATA_VERSION || op == codes::SQLITE_FCNTL_RESERVE_BYTES
        || op == codes::SQLITE_FCNTL_FILE_POINTER || op == codes::SQLITE_FCNTL_JOURNAL_POINTER
        || op == codes::SQLITE_FCNTL_VFS_POINTER || op == codes::SQLITE_FCNTL_SYNC_OMITTED
        || op == codes::SQLITE_FCNTL_RESET_CACHE
}

/// A size argument: negative means "query".
pub open spec fn optional_size(arg: i64) -> Option<u64> {
    if arg < 0 { None } else { Some(arg as u64) }
}

/// A flag argument (a C `int`): negative means "query", else nonzero is
/// `true`.
pub open spec fn optional_flag(arg: i32) -> Option<bool> {
    if arg < 0 { None } else { Some(arg != 0) }
}

/// What `op` asks of the file. `arg` is the integer the opcode's argument
/// points to, for the opcodes that take one (a C `int` passed
/// sign-extended); the others ignore it.
pub open spec fn file_control_of(op: i32, arg: i64) -> FileControl {
    if op == codes::SQLITE_FCNTL_LOCKSTATE {
        FileControl::LockState
    } else if op == codes::SQLITE_FCNTL_LAST_ERRNO {
        FileControl::LastErrno
    } else if op == codes::SQLITE_FCNTL_SIZE_HINT {
        FileControl::SizeHint(arg)
    } else if op == codes::SQLITE_FCNTL_CHUNK_SIZE {
        FileControl::ChunkSize((arg as i32) as u32)
    } else if op == codes::SQLITE_FCNTL_OVERWRITE {
        FileControl::Overwrite(arg as u64)
    } else if op == codes::SQLITE_FCNTL_VFSNAME {
        FileControl::VfsName
    } else if op == codes::SQLITE_FCNTL_PRAGMA {
        FileControl::Pragma
    } else if op == codes::SQLITE_FCNTL_MMAP_SIZE {
        FileControl::MmapSize(optional_size(arg))
    } else if op == codes::SQLITE_FCNTL_HAS_MOVED {
        FileControl::HasMoved
    } else if op == codes::SQLITE_FCNTL_SYNC {
        FileControl::Sync
    } else if op == codes::SQLITE_FCNTL_COMMIT_PHASETWO {
        FileControl::CommitPhaseTwo
    } else if op == codes::SQLITE_FCNTL_PDB {
        FileControl::ParentConnection
    } else if op == codes::SQLITE_FCNTL_BEGIN_ATOMIC_WRITE {
        FileControl::BeginAtomic
    } else if op == codes::SQLITE_FCNTL_COMMIT_ATOMIC_WRITE {
        FileControl::CommitAtomic
    } else if op == codes::SQLITE_FCNTL_ROLLBACK_ATOMIC_WRITE {
        FileControl::RollbackAtomic
    } else if op == codes::SQLITE_FCNTL_LOCK_TIMEOUT {
        FileControl::LockTimeout((arg as i32) as u64)
    } else if op == codes::SQLITE_FCNTL_BUSYHANDLER {
        FileControl::BusyHandler
    } else if op == codes::SQLITE_FCNTL_NULL_IO {
        FileControl::NullIo
    } else if op == codes::SQLITE_FCNTL_PERSIST_WAL {
        FileControl::PersistWal(optional_flag(arg as i32))
    } else if op == codes::SQLITE_FCNTL_POWERSAFE_OVERWRITE {
        FileControl::PowersafeOverwrite(optional_flag(arg as i32))
    } else if op == codes::SQLITE_FCNTL_WAL_BLOCK {
        FileControl::WalBlock
    } else if op == codes::SQLITE_FCNTL_BLOCK_ON_CONNECT {
        FileControl::BlockOnConnect((arg as i32) != 0)
    } else if op == codes::SQLITE_FCNTL_CKPT_START {
        FileControl::CheckpointStart
    } else if op == codes::SQLITE_FCNTL_CKPT_DONE {
        FileControl::CheckpointDone
    } else if op == codes::SQLITE_FCNTL_GET_LOCKPROXYFILE {
        FileControl::GetLockProxyFile
    } else if op == codes::SQLITE_FCNTL_SET_LOCKPROXYFILE {
        FileControl::SetLockProxyFile
    } else if op == codes::SQLITE_FCNTL_SIZE_LIMIT {
        FileControl::SizeLimit(optional_size(arg))
    } else if is_core_opcode(op) {
        FileControl::Answer(codes::SQLITE_MISUSE)
    } else if op == codes::SQLITE_FCNTL_TRACE || op == codes::SQLITE_FCNTL_TEMPFILENAME {
        FileControl::Answer(codes::SQLITE_OK)
    } else {
        FileControl::Answer(codes::SQLITE_NOTFOUND)
    }
}

/// Decides what `op` asks of the file. The Windows handle opcodes are not
/// implemented and must not be passed.
pub fn file_control_request(op: i32, arg: i64) -> (fc: FileControl)
    requires
        !is_win32_opcode(op),
    ensures
        fc == file_control_of(op, arg),
{
    if op == codes::SQLITE_FCNTL_LOCKSTATE {
        FileControl::LockState
    } else if op == codes::SQLITE_FCNTL_LAST_ERRNO {
        FileControl::LastErrno
    } else if op == codes::SQLITE_FCNTL_SIZE_HINT {
        FileControl::SizeHint(arg)
    } else if op == codes::SQLITE_FCNTL_CHUNK_SIZE {
        FileControl::ChunkSize((arg as i32) as u32)
    } else if op == codes::SQLITE_FCNTL_OVERWRITE {
        FileControl::Overwrite(arg as u64)
    } else if op == codes::SQLITE_FCNTL_VFSNAME {
        FileControl::VfsName
    } else if op == codes::SQLITE_FCNTL_PRAGMA {
        FileControl::Pragma
    } else if op == codes::SQLITE_FCNTL_MMAP_SIZE {
        FileControl::MmapSize(if arg < 0 { None } else { Some(arg as u64) })
    } else if op == codes::SQLITE_FCNTL_HAS_MOVED {
        FileControl::HasMoved
    } else if op == codes::SQLITE_FCNTL_SYNC {
        FileControl::Sync
    } else if op == codes::SQLITE_FCNTL_COMMIT_PHASETWO {
        FileControl::CommitPhaseTwo
    } else if op == codes::SQLITE_FCNTL_PDB {
        FileControl::ParentConnection
    } else if op == codes::SQLITE_FCNTL_BEGIN_ATOMIC_WRITE {
        FileControl::BeginAtomic
    } else if op == codes::SQLITE_FCNTL_COMMIT_ATOMIC_WRITE {
        FileControl::CommitAtomic
    } else if op == codes::SQLITE_FCNTL_ROLLBACK_ATOMIC_WRITE {
        FileControl::RollbackAtomic
    } else if op == codes::SQLITE_FCNTL_LOCK_TIMEOUT {
        FileControl::LockTimeout((arg as i32) as u64)
    } else if op == codes::SQLITE_FCNTL_BUSYHANDLER {
        FileControl::BusyHandler
    } else if op == codes::SQLITE_FCNTL_NULL_IO {
        FileControl::NullIo
    } else if op == codes::SQLITE_FCNTL_PERSIST_WAL {
        let flag = arg as i32;
        FileControl::PersistWal(if flag < 0 { None } else { Some(flag != 0) })
    } else if op == codes::SQLITE_FCNTL_POWERSAFE_OVERWRITE {
        let flag = arg as i32;
        FileControl::PowersafeOverwrite(if flag < 0 { None } else { Some(flag != 0) })
    } else if op == codes::SQLITE_FCNTL_WAL_BLOCK {
        FileControl::WalBlock
    } else if op == codes::SQLITE_FCNTL_BLOCK_ON_CONNECT {
        FileControl::BlockOnConnect((arg as i32) != 0)
    } else if op == codes::SQLITE_FCNTL_CKPT_START {
        FileControl::CheckpointStart
    } else if op == codes::SQLITE_FCNTL_CKPT_DONE {
        FileControl::CheckpointDone
    } else if op == codes::SQLITE_FCNTL_GET_LOCKPROXYFILE {
        FileControl::GetLockProxyFile
    } else if op == codes::SQLITE_FCNTL_SET_LOCKPROXYFILE {
        FileControl::SetLockProxyFile
    } else if op == codes::SQLITE_FCNTL_SIZE_LIMIT {
        FileControl::SizeLimit(if arg < 0 { None } else { Some(arg as u64) })
    } else if op == codes::SQLITE_FCNTL_DATA_VERSION || op == codes::SQLITE_FCNTL_RESERVE_BYTES
        || op == codes::SQLITE_FCNTL_FILE_POINTER || op == codes::SQLITE_FCNTL_JOURNAL_POINTER
        || op == codes::SQLITE_FCNTL_VFS_POINTER || op == codes::SQLITE_FCNTL_SYNC_OMITTED
        || op == codes::SQLITE_FCNTL_RESET_CACHE {
        FileControl::Answer(codes::SQLITE_MISUSE)
    } else if op == codes::SQLITE_FCNTL_TRACE || op == codes::SQLITE_FCNTL_TEMPFILENAME {
        FileControl::Answer(codes::SQLITE_OK)
    } else {
        FileControl::Answer(codes::SQLITE_NOTFOUND)
    }
}

/// The result code of a file method's outcome: `SQLITE_OK`, or the error's
/// extended code.
pub open spec fn result_code_of(r: Result<(), Error>) -> i32 {
    match r {
        Ok(()) => codes::SQLITE_OK,
        Err(e) => e.extended_code,
    }
}

/// The result code of a file method's outcome.
pub fn result_code(r: Result<(), Error>) -> (rc: i32)
    ensures
        rc == result_code_of(r),
{
    match r {
        Ok(()) => codes::SQLITE_OK,
        Err(e) => e.extended_code,
    }
}

/// Writes a successful value into an output parameter, consuming the
/// result: `Ok(value)` is written to `*output`; an error leaves `*output`
/// as it was and is returned.
pub trait WriteOutputResultExt<T> {
    /// Converts the result into SQLite's output parameter and return code
    /// form.
    fn write_to_output(self, output: &mut T) -> Result<(), Error>;
}

impl<T> WriteOutputResultExt<T> for Result<T, Error> {
    fn write_to_output(self, output: &mut T) -> (r: Result<(), Error>)
        ensures
            self matches Ok(v) ==> r is Ok && *final(output) == v,
            self matches Err(e) ==> r == Err::<(), Error>(e) && *final(output) == *old(output),
    {
        match self {
            Ok(value) => {
                *output = value;
                Ok(())
            },
            Err(e) => Err(e),
        }
    }
}

/// The answer to a size-valued request (`MmapSize`, `SizeLimit`): the size
/// goes into the argument on success, and the result code is returned.
pub fn size_answer(r: Result<u64, Error>, output: &mut i64) -> (rc: i32)
    ensures
        r matches Ok(v) ==> rc == codes::SQLITE_OK && *final(output) == v as i64,
        r matches Err(e) ==> rc == e.extended_code && *final(output) == *old(output),
{
    let converted: Result<i64, Error> = match r {
        Ok(v) => Ok(v as i64),
        Err(e) => Err(e),
    };
    result_code(converted.write_to_output(output))
}

/// The answer to a flag query (`PersistWal`, `PowersafeOverwrite` with a
/// negative argument): the flag as 0 or 1 goes into the argument.
pub fn flag_answer(flag: bool, output: &mut i32) -> (rc: i32)
    ensures
        rc == codes::SQLITE_OK,
        *final(output) == (if flag { 1i32 } else { 0i32 }),
{
    *output = if flag { 1 } else { 0 };
    codes::SQLITE_OK
}

/// The text a successful custom `PRAGMA` hands back: the file's result;
/// else the pragma's argument; else its name (SQLite uses the text as the
/// column name too, so it must not be null).
pub open spec fn pragma_text_of(result: Option<Seq<char>>, arg: Option<Seq<char>>, name: Seq<char>) -> Seq<char> {
    match result {
        Some(r) => r,
        None => match arg {
            Some(a) => a,
            None => name,
        },
    }
}

/// The text of an optional string.
pub open spec fn opt_text(s: Option<String>) -> Option<Seq<char>> {
    match s {
        Some(t) => Some(t@),
        None => None,
    }
}

/// The text of an optional string slice.
pub open spec fn opt_str_text(s: Option<&str>) -> Option<Seq<char>> {
    match s {
        Some(t) => Some(t@),
        None => None,
    }
}

/// The answer to a custom `PRAGMA`: on success `SQLITE_OK` and the text of
/// `pragma_text_of`; on failure the error's code and its message, if any.
pub fn pragma_answer<'a>(outcome: &'a Result<Option<String>, PragmaError>, name: &'a str, arg: Option<&'a str>) -> (r: (i32, Option<&'a str>))
    ensures
        outcome matches Ok(res) ==> r.0 == codes::SQLITE_OK && opt_str_text(r.1) == Some(
            pragma_text_of(opt_text(*res), opt_str_text(arg), name@),
        ),
        outcome matches Err(e) ==> r.0 == e.code.extended_code && opt_str_text(r.1) == opt_text(e.message),
{
    match outcome {
        Ok(result) => {
            let text = match result {
                Some(s) => s.as_str(),
                None => match arg {
                    Some(a) => a,
                    None => name,
                },
            };
            (codes::SQLITE_OK, Some(text))
        },
        Err(e) => {
            let msg = match &e.message {
                Some(m) => Some(m.as_str()),
                None => None,
            };
            (e.code.extended_code, msg)
        },
    }
}

} // verus!
