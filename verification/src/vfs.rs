//! Helper types of the virtual file system interface: lock levels, WAL
//! lock sets, I/O capabilities, sync options and the registration builder.

use vstd::prelude::*;
use vstd::string::StringExecFns;
use std::marker::PhantomData;
use crate::codes;

pub mod memvfs;
pub mod file_control;
pub mod callbacks;

verus! {

/// An SQLite result code carried as an error.
#[derive(Clone, Copy, Debug, PartialEq, Eq)]
pub struct Error {
    /// The extended result code.
    pub extended_code: i32,
}

impl Error {
    /// An error with the given (extended) result code.
    pub fn new(code: i32) -> (e: Error)
        ensures
            e.extended_code == code,
    {
        Error { extended_code: code }
    }
}

/// Options for syncing a file.
pub struct SyncOptions {
    /// True for Mac OS X style fullsync, false for Unix style fsync.
    pub full: bool,
    /// True to sync only the data of the file and not its inode (fdatasync).
    pub data_only: bool,
}

/// The raw sync flags of the given options.
pub open spec fn sync_flags(full: bool, data_only: bool) -> i32 {
    (if full { codes::SQLITE_SYNC_FULL } else { 0i32 }) | (if data_only { codes::SQLITE_SYNC_DATAONLY } else { 0i32 })
}

impl SyncOptions {
    /// Decodes the raw flags of an `xSync` call.
    pub fn from_raw(flags: i32) -> (o: SyncOptions)
        ensures
            o.full == (flags & codes::SQLITE_SYNC_FULL != 0),
            o.data_only == (flags & codes::SQLITE_SYNC_DATAONLY != 0),
    {
        SyncOptions {
            full: (flags & codes::SQLITE_SYNC_FULL) != 0,
            data_only: (flags & codes::SQLITE_SYNC_DATAONLY) != 0,
        }
    }

    /// Converts to raw SQLite flags.
    pub fn to_raw(&self) -> (flags: i32)
        ensures
            flags == sync_flags(self.full, self.data_only),
    {
        (if self.full { codes::SQLITE_SYNC_FULL } else { 0 }) | (if self.data_only { codes::SQLITE_SYNC_DATAONLY } else { 0 })
    }
}

/// File locking levels.
#[derive(Copy, Clone, Debug, Eq, Ord, PartialEq, PartialOrd)]
pub enum LockLevel {
    /// Mirrors SQLITE_LOCK_NONE.
    Unlocked,
    /// Mirrors SQLITE_LOCK_SHARED.
    Shared,
    /// Mirrors SQLITE_LOCK_RESERVED.
    Reserved,
    /// Mirrors SQLITE_LOCK_PENDING.
    Pending,
    /// Mirrors SQLITE_LOCK_EXCLUSIVE.
    Exclusive,
}

/// The raw SQLite constant of a lock level.
pub open spec fn lock_level_code(l: LockLevel) -> i32 {
    match l {
        LockLevel::Unlocked => codes::SQLITE_LOCK_NONE,
        LockLevel::Shared => codes::SQLITE_LOCK_SHARED,
        LockLevel::Reserved => codes::SQLITE_LOCK_RESERVED,
        LockLevel::Pending => codes::SQLITE_LOCK_PENDING,
        LockLevel::Exclusive => codes::SQLITE_LOCK_EXCLUSIVE,
    }
}

impl LockLevel {
    /// Converts an SQLite lock constant into a [`LockLevel`].
    pub fn from_raw(level: i32) -> (l: LockLevel)
        requires
            codes::SQLITE_LOCK_NONE <= level <= codes::SQLITE_LOCK_EXCLUSIVE,
        ensures
            lock_level_code(l) == level,
    {
        if level == codes::SQLITE_LOCK_NONE {
            LockLevel::Unlocked
        } else if level == codes::SQLITE_LOCK_SHARED {
            LockLevel::Shared
        } else if level == codes::SQLITE_LOCK_RESERVED {
            LockLevel::Reserved
        } else if level == codes::SQLITE_LOCK_PENDING {
            LockLevel::Pending
        } else {
            LockLevel::Exclusive
        }
    }

    /// Converts the lock level back into its SQLite constant.
    pub fn to_raw(&self) -> (c: i32)
        ensures
            c == lock_level_code(*self),
    {
        match self {
            LockLevel::Unlocked => codes::SQLITE_LOCK_NONE,
            LockLevel::Shared => codes::SQLITE_LOCK_SHARED,
            LockLevel::Reserved => codes::SQLITE_LOCK_RESERVED,
            LockLevel::Pending => codes::SQLITE_LOCK_PENDING,
            LockLevel::Exclusive => codes::SQLITE_LOCK_EXCLUSIVE,
        }
    }
}

/// Lock levels and their SQLite constants are in one-to-one
/// correspondence, in the same order.
pub proof fn lemma_lock_level_code(a: LockLevel, b: LockLevel)
    ensures
        codes::SQLITE_LOCK_NONE <= lock_level_code(a) <= codes::SQLITE_LOCK_EXCLUSIVE,
        lock_level_code(a) == lock_level_code(b) ==> a == b,
{
}

/// Lock mode for WAL shared-memory operations.
#[derive(Copy, Clone, Debug, PartialEq, Eq)]
pub enum WalLockMode {
    /// Mirrors `SQLITE_SHM_SHARED`.
    Shared,
    /// Mirrors `SQLITE_SHM_EXCLUSIVE`.
    Exclusive,
}

impl WalLockMode {
    /// Converts from raw SQLite flags: shared wins when both bits are set;
    /// neither bit is a misuse.
    pub fn try_from_raw(raw: i32) -> (r: Result<WalLockMode, Error>)
        ensures
            (raw & codes::SQLITE_SHM_SHARED != 0) ==> r == Ok::<WalLockMode, Error>(WalLockMode::Shared),
            (raw & codes::SQLITE_SHM_SHARED == 0 && raw & codes::SQLITE_SHM_EXCLUSIVE != 0)
                ==> r == Ok::<WalLockMode, Error>(WalLockMode::Exclusive),
            (raw & codes::SQLITE_SHM_SHARED == 0 && raw & codes::SQLITE_SHM_EXCLUSIVE == 0)
                ==> r == Err::<WalLockMode, Error>(Error { extended_code: codes::SQLITE_MISUSE }),
    {
        if (raw & codes::SQLITE_SHM_SHARED) != 0 {
            Ok(WalLockMode::Shared)
        } else if (raw & codes::SQLITE_SHM_EXCLUSIVE) != 0 {
            Ok(WalLockMode::Exclusive)
        } else {
            Err(Error::new(codes::SQLITE_MISUSE))
        }
    }

    /// Converts to raw SQLite flags.
    pub fn to_raw(&self) -> (c: i32)
        ensures
            *self == WalLockMode::Shared ==> c == codes::SQLITE_SHM_SHARED,
            *self == WalLockMode::Exclusive ==> c == codes::SQLITE_SHM_EXCLUSIVE,
    {
        match self {
            WalLockMode::Shared => codes::SQLITE_SHM_SHARED,
            WalLockMode::Exclusive => codes::SQLITE_SHM_EXCLUSIVE,
        }
    }
}

/// Decoding the raw flags of a mode gives the mode back.
pub proof fn lemma_wal_lock_mode_round_trip(m: WalLockMode)
    ensures
        m == WalLockMode::Shared ==> (codes::SQLITE_SHM_SHARED & codes::SQLITE_SHM_SHARED != 0),
        m == WalLockMode::Exclusive ==> (codes::SQLITE_SHM_EXCLUSIVE & codes::SQLITE_SHM_SHARED == 0
            && codes::SQLITE_SHM_EXCLUSIVE & codes::SQLITE_SHM_EXCLUSIVE != 0),
{
    assert(4i32 & 4i32 != 0) by (bit_vector);
    assert(8i32 & 4i32 == 0 && 8i32 & 8i32 != 0) by (bit_vector);
}

/// Whether lock slot `i` is in the set `mask`.
pub open spec fn wal_slot(mask: u16, i: u16) -> bool {
    mask & (1u16 << i) != 0
}

/// A set representing WAL locks: one bit per lock slot.
#[derive(Debug)]
pub struct WalLock {
    pub mask: u16,
}

impl WalLock {
    /// Slot index reserved for the WAL write lock.
    pub const WAL_WRITE_LOCK: usize = 0;
    /// Slot index reserved for the WAL checkpoint lock.
    pub const WAL_CKPT_LOCK: usize = 1;
    /// Slot index reserved for the WAL recovery lock.
    pub const WAL_RECOVER_LOCK: usize = 2;
    /// Slot index of the first WAL read lock.
    pub const WAL_READ_LOCK_0: usize = 3;

    /// The set of the `n` slots starting at `offset`.
    pub fn new(offset: usize, n: usize) -> (w: WalLock)
        requires
            offset + n < 16,
        ensures
            forall|i: u16| i < 16 ==> (wal_slot(w.mask, i) <==> offset <= i < offset + n),
    {
        let o = offset as u16;
        let e = (offset + n) as u16;
        let hi: u16 = 1u16 << e;
        let lo: u16 = 1u16 << o;
        proof {
            assert(o <= e && e < 16 ==> (1u16 << o) <= (1u16 << e)) by (bit_vector);
        }
        let mask: u16 = hi - lo;
        proof {
            assert(forall|i: u16| #![auto] o <= e && e < 16 && i < 16 ==>
                ((((1u16 << e) - (1u16 << o)) as u16) & (1u16 << i) != 0 <==> o <= i && i < e)) by (bit_vector);
        }
        WalLock { mask }
    }

    /// The set given by a raw mask.
    pub fn from_mask(mask: u16) -> (w: WalLock)
        ensures
            w.mask == mask,
    {
        WalLock { mask }
    }

    /// Whether the write lock is included.
    pub fn write(&self) -> (b: bool)
        ensures
            b == wal_slot(self.mask, 0),
    {
        self.mask & (1u16 << 0u16) != 0
    }

    /// Whether the checkpoint lock is included.
    pub fn checkpoint(&self) -> (b: bool)
        ensures
            b == wal_slot(self.mask, 1),
    {
        self.mask & (1u16 << 1u16) != 0
    }

    /// Whether the recover lock is included.
    pub fn recover(&self) -> (b: bool)
        ensures
            b == wal_slot(self.mask, 2),
    {
        self.mask & (1u16 << 2u16) != 0
    }

    /// Whether read lock `index` is included; `index` must be below 5.
    pub fn read(&self, index: usize) -> (r: Result<bool, Error>)
        ensures
            index >= 5 ==> r == Err::<bool, Error>(Error { extended_code: codes::SQLITE_MISUSE }),
            index < 5 ==> r == Ok::<bool, Error>(wal_slot(self.mask, (3 + index) as u16)),
    {
        if index >= 5 {
            return Err(Error::new(codes::SQLITE_MISUSE));
        }
        let slot = (3 + index) as u16;
        Ok(self.mask & (1u16 << slot) != 0)
    }
}

/// Atomic write capabilities.
#[derive(Clone, Copy, Debug, Default, PartialEq, Eq)]
pub enum AtomicWrite {
    /// No SQLITE_IOCAP_ATOMIC* bits are set.
    #[default]
    Never,
    /// Mirrors size-specific `SQLITE_IOCAP_ATOMICnnn` bitfields.
    Block {
        size_512: bool,
        size_1k: bool,
        size_2k: bool,
        size_4k: bool,
        size_8k: bool,
        size_16k: bool,
        size_32k: bool,
        size_64k: bool,
    },
    /// Mirrors SQLITE_IOCAP_ATOMIC.
    Always,
}

/// I/O characteristics of a file.
#[derive(Clone, Copy, Debug, Default, PartialEq, Eq)]
pub struct IoCapabilities {
    /// Mirrors `SQLITE_IOCAP_ATOMIC*`; captures the atomic write guarantee.
    pub atomic_write: AtomicWrite,
    /// Mirrors `SQLITE_IOCAP_SAFE_APPEND`.
    pub safe_append: bool,
    /// Mirrors `SQLITE_IOCAP_SEQUENTIAL`.
    pub sequential: bool,
    /// Mirrors `SQLITE_IOCAP_UNDELETABLE_WHEN_OPEN`.
    pub undeletable_when_open: bool,
    /// Mirrors `SQLITE_IOCAP_POWERSAFE_OVERWRITE`.
    pub powersafe_overwrite: bool,
    /// Mirrors `SQLITE_IOCAP_IMMUTABLE`.
    pub immutable: bool,
    /// Mirrors `SQLITE_IOCAP_BATCH_ATOMIC`.
    pub batch_atomic: bool,
    /// Mirrors `SQLITE_IOCAP_SUBPAGE_READ`.
    pub subpage_read: bool,
}

/// `flag` if `b`, else nothing.
pub open spec fn bit(b: bool, flag: i32) -> i32 {
    if b { flag } else { 0i32 }
}

/// The raw bits of an atomic-write capability.
pub open spec fn atomic_write_bits(a: AtomicWrite) -> i32 {
    match a {
        AtomicWrite::Never => 0i32,
        AtomicWrite::Block { size_512, size_1k, size_2k, size_4k, size_8k, size_16k, size_32k, size_64k } =>
            bit(size_512, 0x2) | bit(size_1k, 0x4) | bit(size_2k, 0x8) | bit(size_4k, 0x10)
            | bit(size_8k, 0x20) | bit(size_16k, 0x40) | bit(size_32k, 0x80) | bit(size_64k, 0x100),
        AtomicWrite::Always => 0x1i32,
    }
}

/// The raw bits of a set of capabilities.
pub open spec fn io_capability_bits(c: IoCapabilities) -> i32 {
    atomic_write_bits(c.atomic_write) | bit(c.safe_append, 0x200) | bit(c.sequential, 0x400)
        | bit(c.undeletable_when_open, 0x800) | bit(c.powersafe_overwrite, 0x1000)
        | bit(c.immutable, 0x2000) | bit(c.batch_atomic, 0x4000) | bit(c.subpage_read, 0x8000)
}

/// The `SQLITE_IOCAP_ATOMIC*` bits: `ATOMIC` and the eight size-specific
/// ones.
pub const IOCAP_ATOMIC_BITS: i32 = 0x1FF;

/// The capabilities decoded from raw bits: no `ATOMIC*` bit means no
/// atomic writes, the `ATOMIC` bit means atomic writes of any size, and
/// otherwise the size-specific bits are kept.
pub open spec fn io_capabilities_of(raw: i32) -> IoCapabilities {
    IoCapabilities {
        atomic_write: if raw & IOCAP_ATOMIC_BITS == 0 {
            AtomicWrite::Never
        } else if raw & 0x1 != 0 {
            AtomicWrite::Always
        } else {
            AtomicWrite::Block {
                size_512: raw & 0x2 != 0,
                size_1k: raw & 0x4 != 0,
                size_2k: raw & 0x8 != 0,
                size_4k: raw & 0x10 != 0,
                size_8k: raw & 0x20 != 0,
                size_16k: raw & 0x40 != 0,
                size_32k: raw & 0x80 != 0,
                size_64k: raw & 0x100 != 0,
            }
        },
        safe_append: raw & 0x200 != 0,
        sequential: raw & 0x400 != 0,
        undeletable_when_open: raw & 0x800 != 0,
        powersafe_overwrite: raw & 0x1000 != 0,
        immutable: raw & 0x2000 != 0,
        batch_atomic: raw & 0x4000 != 0,
        subpage_read: raw & 0x8000 != 0,
    }
}

impl IoCapabilities {
    /// Builds the structured capabilities from raw SQLite flag bits.
    pub fn from_raw(raw: i32) -> (c: IoCapabilities)
        ensures
            c == io_capabilities_of(raw),
    {
        let write_cap = if raw & IOCAP_ATOMIC_BITS == 0 {
            AtomicWrite::Never
        } else if (raw & codes::SQLITE_IOCAP_ATOMIC) != 0 {
            AtomicWrite::Always
        } else {
            AtomicWrite::Block {
                size_512: (raw & codes::SQLITE_IOCAP_ATOMIC512) != 0,
                size_1k: (raw & codes::SQLITE_IOCAP_ATOMIC1K) != 0,
                size_2k: (raw & codes::SQLITE_IOCAP_ATOMIC2K) != 0,
                size_4k: (raw & codes::SQLITE_IOCAP_ATOMIC4K) != 0,
                size_8k: (raw & codes::SQLITE_IOCAP_ATOMIC8K) != 0,
                size_16k: (raw & codes::SQLITE_IOCAP_ATOMIC16K) != 0,
                size_32k: (raw & codes::SQLITE_IOCAP_ATOMIC32K) != 0,
                size_64k: (raw & codes::SQLITE_IOCAP_ATOMIC64K) != 0,
            }
        };
        IoCapabilities {
            atomic_write: write_cap,
            safe_append: (raw & codes::SQLITE_IOCAP_SAFE_APPEND) != 0,
            sequential: (raw & codes::SQLITE_IOCAP_SEQUENTIAL) != 0,
            undeletable_when_open: (raw & codes::SQLITE_IOCAP_UNDELETABLE_WHEN_OPEN) != 0,
            powersafe_overwrite: (raw & codes::SQLITE_IOCAP_POWERSAFE_OVERWRITE) != 0,
            immutable: (raw & codes::SQLITE_IOCAP_IMMUTABLE) != 0,
            batch_atomic: (raw & codes::SQLITE_IOCAP_BATCH_ATOMIC) != 0,
            subpage_read: (raw & codes::SQLITE_IOCAP_SUBPAGE_READ) != 0,
        }
    }

    /// Converts the structured capabilities to raw SQLite flag bits.
    pub fn to_raw(&self) -> (flags: i32)
        ensures
            flags == io_capability_bits(*self),
    {
        let a: i32 = match self.atomic_write {
            AtomicWrite::Never => 0,
            AtomicWrite::Block { size_512, size_1k, size_2k, size_4k, size_8k, size_16k, size_32k, size_64k } => {
                (if size_512 { codes::SQLITE_IOCAP_ATOMIC512 } else { 0 })
                    | (if size_1k { codes::SQLITE_IOCAP_ATOMIC1K } else { 0 })
                    | (if size_2k { codes::SQLITE_IOCAP_ATOMIC2K } else { 0 })
                    | (if size_4k { codes::SQLITE_IOCAP_ATOMIC4K } else { 0 })
                    | (if size_8k { codes::SQLITE_IOCAP_ATOMIC8K } else { 0 })
                    | (if size_16k { codes::SQLITE_IOCAP_ATOMIC16K } else { 0 })
                    | (if size_32k { codes::SQLITE_IOCAP_ATOMIC32K } else { 0 })
                    | (if size_64k { codes::SQLITE_IOCAP_ATOMIC64K } else { 0 })
            },
            AtomicWrite::Always => codes::SQLITE_IOCAP_ATOMIC,
        };
        a | (if self.safe_append { codes::SQLITE_IOCAP_SAFE_APPEND } else { 0 })
            | (if self.sequential { codes::SQLITE_IOCAP_SEQUENTIAL } else { 0 })
            | (if self.undeletable_when_open { codes::SQLITE_IOCAP_UNDELETABLE_WHEN_OPEN } else { 0 })
            | (if self.powersafe_overwrite { codes::SQLITE_IOCAP_POWERSAFE_OVERWRITE } else { 0 })
            | (if self.immutable { codes::SQLITE_IOCAP_IMMUTABLE } else { 0 })
            | (if self.batch_atomic { codes::SQLITE_IOCAP_BATCH_ATOMIC } else { 0 })
            | (if self.subpage_read { codes::SQLITE_IOCAP_SUBPAGE_READ } else { 0 })
    }
}

/// Encoding the decoded capabilities of raw bits gives back the known
/// bits: all sixteen of them when the `ATOMIC` bit is clear, and only the
/// `ATOMIC` bit with the non-atomic ones when it is set (the size-specific
/// bits are implied by it).
pub proof fn lemma_io_capabilities_round_trip(raw: i32)
    ensures
        raw & 0x1 == 0 ==> io_capability_bits(io_capabilities_of(raw)) == raw & 0xFFFF,
        raw & 0x1 != 0 ==> io_capability_bits(io_capabilities_of(raw)) == raw & 0xFE01,
{
    let c = io_capabilities_of(raw);
    if raw & 0x1FF == 0 {
        assert(raw & 0x1 == 0) by (bit_vector)
            requires raw & 0x1FF == 0;
        assert(
            0i32 | (if raw & 0x200 != 0 { 0x200i32 } else { 0i32 }) | (if raw & 0x400 != 0 { 0x400i32 } else { 0i32 })
            | (if raw & 0x800 != 0 { 0x800i32 } else { 0i32 }) | (if raw & 0x1000 != 0 { 0x1000i32 } else { 0i32 })
            | (if raw & 0x2000 != 0 { 0x2000i32 } else { 0i32 }) | (if raw & 0x4000 != 0 { 0x4000i32 } else { 0i32 })
            | (if raw & 0x8000 != 0 { 0x8000i32 } else { 0i32 }) == raw & 0xFFFF
        ) by (bit_vector)
            requires raw & 0x1FF == 0;
    } else if raw & 0x1 != 0 {
        assert(
            0x1i32 | (if raw & 0x200 != 0 { 0x200i32 } else { 0i32 }) | (if raw & 0x400 != 0 { 0x400i32 } else { 0i32 })
            | (if raw & 0x800 != 0 { 0x800i32 } else { 0i32 }) | (if raw & 0x1000 != 0 { 0x1000i32 } else { 0i32 })
            | (if raw & 0x2000 != 0 { 0x2000i32 } else { 0i32 }) | (if raw & 0x4000 != 0 { 0x4000i32 } else { 0i32 })
            | (if raw & 0x8000 != 0 { 0x8000i32 } else { 0i32 }) == raw & 0xFE01
        ) by (bit_vector)
            requires raw & 0x1 != 0;
    } else {
        assert(
            (if raw & 0x2 != 0 { 0x2i32 } else { 0i32 }) | (if raw & 0x4 != 0 { 0x4i32 } else { 0i32 })
            | (if raw & 0x8 != 0 { 0x8i32 } else { 0i32 }) | (if raw & 0x10 != 0 { 0x10i32 } else { 0i32 })
            | (if raw & 0x20 != 0 { 0x20i32 } else { 0i32 }) | (if raw & 0x40 != 0 { 0x40i32 } else { 0i32 })
            | (if raw & 0x80 != 0 { 0x80i32 } else { 0i32 }) | (if raw & 0x100 != 0 { 0x100i32 } else { 0i32 })
            | (if raw & 0x200 != 0 { 0x200i32 } else { 0i32 }) | (if raw & 0x400 != 0 { 0x400i32 } else { 0i32 })
            | (if raw & 0x800 != 0 { 0x800i32 } else { 0i32 }) | (if raw & 0x1000 != 0 { 0x1000i32 } else { 0i32 })
            | (if raw & 0x2000 != 0 { 0x2000i32 } else { 0i32 }) | (if raw & 0x4000 != 0 { 0x4000i32 } else { 0i32 })
            | (if raw & 0x8000 != 0 { 0x8000i32 } else { 0i32 }) == raw & 0xFFFF
        ) by (bit_vector)
            requires raw & 0x1 == 0;
    }
}

/// A file opened by a VFS, with whether it was opened read-only.
pub struct OpenFile<F> {
    pub file: F,
    pub readonly: bool,
}

impl<T> OpenFile<T> {
    /// Creates a new `OpenFile`.
    pub fn new(file: T) -> (o: Self)
        ensures
            o.file == file,
            !o.readonly,
    {
        OpenFile { file, readonly: false }
    }

    /// Marks the file as readonly.
    pub fn readonly(self) -> (o: Self)
        ensures
            o.file == self.file,
            o.readonly,
    {
        let mut s = self;
        s.readonly = true;
        s
    }

    /// The open flags reported back to SQLite for a request with `flags`:
    /// a read-only file adds `SQLITE_OPEN_READONLY`.
    pub fn out_flags(&self, flags: i32) -> (f: i32)
        ensures
            f == (if self.readonly { flags | codes::SQLITE_OPEN_READONLY } else { flags }),
    {
        if self.readonly {
            flags | codes::SQLITE_OPEN_READONLY
        } else {
            flags
        }
    }
}

/// An error of a pragma handled by a VFS.
#[derive(Debug)]
pub struct PragmaError {
    /// Error code.
    pub code: Error,
    /// Optional error message.
    pub message: Option<String>,
}

impl PragmaError {
    /// Constructs a pragma error with an explicit message.
    pub fn new(code: Error, message: String) -> (e: Self)
        ensures
            e.code == code,
            e.message == Some(message),
    {
        PragmaError { code, message: Some(message) }
    }

    /// Constructs a pragma error without a message.
    pub fn from(code: Error) -> (e: Self)
        ensures
            e.code == code,
            e.message is None,
    {
        PragmaError { code, message: None }
    }

    /// The text the error displays, given the text its code displays:
    /// "<code>: <message>", or the code's text alone when there is no
    /// message.
    pub fn display(&self, code_text: &str) -> (t: String)
        ensures
            self.message matches Some(m) ==> t@ == code_text@ + ": "@ + m@,
            self.message is None ==> t@ == code_text@,
    {
        let mut t = String::from_str(code_text);
        match &self.message {
            Some(m) => {
                proof { reveal_strlit(": "); }
                t.append(": ");
                t.append(m.as_str());
            },
            None => {},
        }
        t
    }
}

/// Represents a lack of support for a category of file I/O methods.
pub struct NoSupport;

/// Records, in its type parameter, which categories of I/O methods (base,
/// WAL, fetch) a VFS supports.
pub struct VfsSupport<S> {
    pub support: PhantomData<S>,
}

/// The `iVersion` of the I/O method table: 1 for the base methods, 2 with
/// WAL support, 3 with fetch support.
pub open spec fn io_methods_version(wal: bool, fetch: bool) -> i32 {
    if fetch { 3 } else if wal { 2 } else { 1 }
}

/// The `iVersion` of the I/O method table for the supported categories.
pub fn methods_version(wal: bool, fetch: bool) -> (v: i32)
    ensures
        v == io_methods_version(wal, fetch),
{
    if fetch {
        3
    } else if wal {
        2
    } else {
        1
    }
}

/// Builder for VFS registration.
pub struct VfsRegistration<T, M> {
    pub vfs: T,
    pub max_pathlen: usize,
    pub make_default: bool,
    pub method_table: PhantomData<M>,
}

impl<T> VfsRegistration<T, VfsSupport<(T, NoSupport, NoSupport)>> {
    /// Creates a new VFS registration builder: paths of up to 512 bytes,
    /// not the default VFS, base I/O methods only.
    pub fn new(vfs: T) -> (r: Self)
        ensures
            r.vfs == vfs,
            r.max_pathlen == 512,
            !r.make_default,
    {
        VfsRegistration { vfs, max_pathlen: 512, make_default: false, method_table: PhantomData }
    }
}

impl<T, M> VfsRegistration<T, M> {
    /// Sets the maximum path length supported by the VFS.
    pub fn max_pathlen(self, len: usize) -> (r: Self)
        ensures
            r.vfs == self.vfs,
            r.max_pathlen == len,
            r.make_default == self.make_default,
    {
        VfsRegistration { vfs: self.vfs, max_pathlen: len, make_default: self.make_default, method_table: PhantomData }
    }

    /// Makes this VFS the default one.
    pub fn make_default(self) -> (r: Self)
        ensures
            r.vfs == self.vfs,
            r.max_pathlen == self.max_pathlen,
            r.make_default,
    {
        VfsRegistration { vfs: self.vfs, max_pathlen: self.max_pathlen, make_default: true, method_table: PhantomData }
    }
}

impl<T, Wal> VfsRegistration<T, VfsSupport<(T, Wal, NoSupport)>> {
    /// Enables fetch support (I/O methods version 3), with `F` the file
    /// type that implements fetching.
    pub fn with_fetch<F>(self) -> (r: VfsRegistration<T, VfsSupport<(T, Wal, F)>>)
        ensures
            r.vfs == self.vfs,
            r.max_pathlen == self.max_pathlen,
            r.make_default == self.make_default,
    {
        VfsRegistration { vfs: self.vfs, max_pathlen: self.max_pathlen, make_default: self.make_default, method_table: PhantomData }
    }
}

impl<T, Fetch> VfsRegistration<T, VfsSupport<(T, NoSupport, Fetch)>> {
    /// Enables WAL support (I/O methods version 2), with `F` the file type
    /// that implements shared memory.
    pub fn with_wal<F>(self) -> (r: VfsRegistration<T, VfsSupport<(T, F, Fetch)>>)
        ensures
            r.vfs == self.vfs,
            r.max_pathlen == self.max_pathlen,
            r.make_default == self.make_default,
    {
        VfsRegistration { vfs: self.vfs, max_pathlen: self.max_pathlen, make_default: self.make_default, method_table: PhantomData }
    }
}

/// A file path passed to VFS operations: the bytes of the C string, without
/// its terminating zero.
#[derive(Clone, Copy, Debug, PartialEq, Eq)]
pub struct VfsPath<'a>(pub &'a [u8]);

impl<'a> VfsPath<'a> {
    /// The path with these bytes.
    pub fn new(path: &'a [u8]) -> (p: Self)
        ensures
            p.0@ == path@,
    {
        VfsPath(path)
    }

    /// The path's bytes.
    pub fn as_bytes(&self) -> (b: &'a [u8])
        ensures
            b@ == self.0@,
    {
        self.0
    }
}

/// What kind of file SQLite asks a VFS to open.
#[derive(Clone, Copy, Debug)]
pub enum FileType<'a> {
    /// Mirrors SQLITE_OPEN_MAIN_DB.
    MainDb(VfsPath<'a>),
    /// Mirrors SQLITE_OPEN_MAIN_JOURNAL.
    MainJournal(VfsPath<'a>),
    /// Mirrors SQLITE_OPEN_TEMP_DB.
    TempDb,
    /// Mirrors SQLITE_OPEN_TEMP_JOURNAL.
    TempJournal,
    /// Mirrors SQLITE_OPEN_TRANSIENT_DB.
    TransientDb,
    /// Mirrors SQLITE_OPEN_SUBJOURNAL.
    Subjournal(VfsPath<'a>),
    /// Mirrors SQLITE_OPEN_SUPER_JOURNAL.
    SuperJournal(VfsPath<'a>),
    /// Mirrors SQLITE_OPEN_WAL.
    Wal(VfsPath<'a>),
}

impl<'a> FileType<'a> {
    /// The path of the file, for the kinds that have one.
    pub fn path(&self) -> (p: Option<VfsPath<'a>>)
        ensures
            (*self is TempDb || *self is TempJournal || *self is TransientDb) <==> p is None,
            *self matches FileType::MainDb(q) ==> p == Some(q),
            *self matches FileType::MainJournal(q) ==> p == Some(q),
            *self matches FileType::Subjournal(q) ==> p == Some(q),
            *self matches FileType::SuperJournal(q) ==> p == Some(q),
            *self matches FileType::Wal(q) ==> p == Some(q),
    {
        match self {
            FileType::MainDb(path) => Some(*path),
            FileType::MainJournal(path) => Some(*path),
            FileType::Subjournal(path) => Some(*path),
            FileType::SuperJournal(path) => Some(*path),
            FileType::Wal(path) => Some(*path),
            FileType::TempDb => None,
            FileType::TempJournal => None,
            FileType::TransientDb => None,
        }
    }
}

} // verus!
