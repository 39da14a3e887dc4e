//! A database connection as far as this crate keeps its state: the raw
//! SQLite handle and who owns it, and the prepared-statement cache.

use vstd::prelude::*;
use std::marker::PhantomData;
use crate::cache::StatementCache;
use crate::codes;
use vstd::string::StringSliceAdditionalSpecFns;
use vstd::string::StringExecFns;

verus! {

/// The number of prepared statements a new connection caches.
pub const STATEMENT_CACHE_DEFAULT_CAPACITY: usize = 16;

/// The raw connection: the handle of the `sqlite3` object (`0` once closed)
/// and whether this connection owns it and must close it. The copy of the
/// handle that interrupts go through is kept beside it, cleared on close.
#[derive(Debug)]
pub struct InnerConnection {
    db: u64,
    interrupt_db: u64,
    owned: bool,
}

/// What closing a raw connection asks for next.
#[derive(Debug, PartialEq, Eq, Structural, Clone, Copy)]
pub enum CloseStep {
    /// Nothing is left to close.
    Closed,
    /// `sqlite3_close` must be called on this handle and its result handed
    /// to `InnerConnection::finish_close`.
    CloseHandle(u64),
}

impl InnerConnection {
    /// An owned handle keeps its interrupt copy; a borrowed one has none.
    #[verifier::type_invariant]
    closed spec fn inv(self) -> bool {
        &&& self.owned && self.db != 0 ==> self.interrupt_db == self.db
        &&& !self.owned ==> self.interrupt_db == 0
    }

    /// The raw handle (`0` once closed).
    pub closed spec fn spec_db(&self) -> u64 {
        self.db
    }

    /// Whether the connection owns the handle.
    pub closed spec fn spec_owned(&self) -> bool {
        self.owned
    }

    /// The handle interrupts go to (`0` when there is none).
    pub closed spec fn spec_interrupt_db(&self) -> u64 {
        self.interrupt_db
    }

    /// Wraps a raw handle; only an owned handle can be interrupted through
    /// this connection.
    pub fn new(db: u64, owned: bool) -> (c: Self)
        ensures
            c.spec_db() == db,
            c.spec_owned() == owned,
            c.spec_interrupt_db() == (if owned { db } else { 0 }),
    {
        InnerConnection { db, interrupt_db: if owned { db } else { 0 }, owned }
    }

    /// The raw handle.
    pub fn db(&self) -> (db: u64)
        ensures
            db == self.spec_db(),
    {
        self.db
    }

    /// The handle interrupts go to (`0` when there is none).
    pub fn interrupt_db(&self) -> (db: u64)
        ensures
            db == self.spec_interrupt_db(),
    {
        self.interrupt_db
    }

    /// Starts closing: a closed connection has nothing to do; a borrowed
    /// handle is just forgotten; an owned one must be closed by SQLite.
    pub fn begin_close(&mut self) -> (step: CloseStep)
        ensures
            old(self).spec_db() == 0 ==> step == CloseStep::Closed && *final(self) == *old(self),
            old(self).spec_db() != 0 && !old(self).spec_owned() ==> step == CloseStep::Closed
                && final(self).spec_db() == 0 && final(self).spec_owned() == old(self).spec_owned()
                && final(self).spec_interrupt_db() == old(self).spec_interrupt_db(),
            old(self).spec_db() != 0 && old(self).spec_owned() ==> step == CloseStep::CloseHandle(
                old(self).spec_db(),
            ) && *final(self) == *old(self),
    {
        proof {
            use_type_invariant(&*self);
        }
        if self.db == 0 {
            return CloseStep::Closed;
        }
        if !self.owned {
            self.db = 0;
            return CloseStep::Closed;
        }
        CloseStep::CloseHandle(self.db)
    }

    /// Finishes closing with the result of `sqlite3_close`: on `SQLITE_OK`
    /// the handle and its interrupt copy are cleared; otherwise nothing
    /// changes and the code comes back as the error.
    pub fn finish_close(&mut self, rc: i32) -> (r: Result<(), i32>)
        ensures
            rc == codes::SQLITE_OK ==> r is Ok && final(self).spec_db() == 0 && final(self).spec_interrupt_db()
                == 0 && final(self).spec_owned() == old(self).spec_owned(),
            rc != codes::SQLITE_OK ==> r == Err::<(), i32>(rc) && *final(self) == *old(self),
    {
        if rc == codes::SQLITE_OK {
            let owned = self.owned;
            *self = InnerConnection { db: 0, interrupt_db: 0, owned };
            Ok(())
        } else {
            Err(rc)
        }
    }
}

/// The transaction state of a database.
#[derive(Clone, Copy, Debug, PartialEq, Eq, Structural)]
#[non_exhaustive]
pub enum TransactionState {
    /// No transaction is pending (`SQLITE_TXN_NONE`).
    NoTransaction,
    /// A read transaction is pending.
    Read,
    /// A write transaction is pending.
    Write,
}

/// The length `sqlite3_prepare_v3` is given for SQL of `len` bytes: the
/// length itself, or `SQLITE_TOOBIG` when it does not fit in a C `int`.
pub fn sql_length(sql: &str) -> (r: Result<i32, i32>)
    ensures
        sql.spec_bytes().len() <= i32::MAX ==> r == Ok::<i32, i32>(sql.spec_bytes().len() as i32),
        sql.spec_bytes().len() > i32::MAX ==> r == Err::<i32, i32>(codes::SQLITE_TOOBIG),
{
    let len = sql.as_bytes().len();
    if len <= 0x7fff_ffff {
        Ok(len as i32)
    } else {
        Err(codes::SQLITE_TOOBIG)
    }
}

/// The offset of the text left after the first statement, from how far
/// SQLite read (`consumed` bytes, `None` when it gave no tail pointer): 0
/// when nothing or everything was read.
pub fn prepare_tail(consumed: Option<isize>, len: i32) -> (tail: usize)
    ensures
        consumed is None ==> tail == 0,
        consumed matches Some(n) ==> (if n <= 0 || n >= len { tail == 0 } else { tail == n }),
{
    match consumed {
        None => 0,
        Some(n) => if n <= 0 || n >= len as isize {
            0
        } else {
            n as usize
        },
    }
}

/// The answer of `sqlite3_db_readonly`: 0 and 1 are the flag; -1 means the
/// name is not that of a database (`SQLITE_MISUSE`); anything else is
/// unexpected and reported with its own code.
pub fn readonly_result(r: i32) -> (res: Result<bool, i32>)
    ensures
        r == 0 ==> res == Ok::<bool, i32>(false),
        r == 1 ==> res == Ok::<bool, i32>(true),
        r == -1 ==> res == Err::<bool, i32>(codes::SQLITE_MISUSE),
        r != 0 && r != 1 && r != -1 ==> res == Err::<bool, i32>(r),
{
    if r == 0 {
        Ok(false)
    } else if r == 1 {
        Ok(true)
    } else if r == -1 {
        Err(codes::SQLITE_MISUSE)
    } else {
        Err(r)
    }
}

/// The answer of `sqlite3_txn_state`: 0, 1 and 2 are the states; -1 means
/// the name is not that of a schema (`SQLITE_MISUSE`); anything else is
/// unexpected and reported with its own code.
pub fn txn_state_result(r: i32) -> (res: Result<TransactionState, i32>)
    ensures
        r == 0 ==> res == Ok::<TransactionState, i32>(TransactionState::NoTransaction),
        r == 1 ==> res == Ok::<TransactionState, i32>(TransactionState::Read),
        r == 2 ==> res == Ok::<TransactionState, i32>(TransactionState::Write),
        r == -1 ==> res == Err::<TransactionState, i32>(codes::SQLITE_MISUSE),
        !(0 <= r <= 2) && r != -1 ==> res == Err::<TransactionState, i32>(r),
{
    if r == 0 {
        Ok(TransactionState::NoTransaction)
    } else if r == 1 {
        Ok(TransactionState::Read)
    } else if r == 2 {
        Ok(TransactionState::Write)
    } else if r == -1 {
        Err(codes::SQLITE_MISUSE)
    } else {
        Err(r)
    }
}

/// The address `sqlite3_mutex_alloc` returns when SQLite runs in
/// single-thread mode.
pub const SQLITE_SINGLETHREADED_MUTEX_MAGIC: usize = 8;

/// Whether SQLite may be used from this crate's safe interface: it must be
/// compiled thread-safe (`sqlite3_threadsafe` nonzero) and not configured
/// single-threaded (a mutex at the magic address).
pub fn threading_mode_is_safe(threadsafe: i32, mutex_addr: usize) -> (ok: bool)
    ensures
        ok == (threadsafe != 0 && mutex_addr != SQLITE_SINGLETHREADED_MUTEX_MAGIC),
{
    if threadsafe == 0 {
        return false;
    }
    mutex_addr != SQLITE_SINGLETHREADED_MUTEX_MAGIC
}

/// The first SQLite version (3.37.0) that takes `SQLITE_OPEN_EXRESCODE`.
pub const EXRESCODE_MIN_VERSION: i32 = 3_037_000;

/// The flags `sqlite3_open_v2` is given, and whether they already turn on
/// extended result codes: from SQLite 3.37.0 on, `SQLITE_OPEN_EXRESCODE`
/// is added; before, extended codes are turned on after opening.
pub fn open_flags(flags: i32, version_number: i32) -> (r: (i32, bool))
    ensures
        version_number >= EXRESCODE_MIN_VERSION ==> r == (flags | codes::SQLITE_OPEN_EXRESCODE, true),
        version_number < EXRESCODE_MIN_VERSION ==> r == (flags, false),
{
    if version_number >= EXRESCODE_MIN_VERSION {
        (flags | codes::SQLITE_OPEN_EXRESCODE, true)
    } else {
        (flags, false)
    }
}

/// The message of a failed open of `path` with result `rc`: the path alone
/// when SQLite gave no handle; "message: path" when it could not open the
/// file and said why; else SQLite's message as it is.
pub open spec fn open_error_text(handle_is_null: bool, rc: i32, errmsg: Option<Seq<char>>, path: Seq<char>) -> Option<Seq<char>> {
    if handle_is_null {
        Some(path)
    } else if rc & 0xff == codes::SQLITE_CANTOPEN && errmsg is Some {
        Some(errmsg->0 + ": "@ + path)
    } else {
        errmsg
    }
}

/// Builds the message of a failed open (see `open_error_text`).
pub fn open_error_message(handle_is_null: bool, rc: i32, errmsg: Option<String>, path: &str) -> (m: Option<String>)
    ensures
        (match m { Some(s) => Some(s@), None => None }) == open_error_text(
            handle_is_null,
            rc,
            match errmsg { Some(s) => Some(s@), None => None },
            path@,
        ),
{
    if handle_is_null {
        return Some(String::from_str(path));
    }
    match errmsg {
        Some(msg) => {
            if rc & 0xff == codes::SQLITE_CANTOPEN {
                proof { reveal_strlit(": "); }
                let mut s = msg;
                s.append(": ");
                s.append(path);
                Some(s)
            } else {
                Some(msg)
            }
        },
        None => None,
    }
}

/// A connection: the raw connection and its prepared-statement cache.
pub struct Connection {
    db: InnerConnection,
    cache: StatementCache,
}

impl Connection {
    /// The raw connection.
    pub closed spec fn spec_inner(&self) -> InnerConnection {
        self.db
    }

    /// The prepared-statement cache.
    pub closed spec fn spec_cache(&self) -> StatementCache {
        self.cache
    }

    /// The cached statements, least recently used first.
    pub closed spec fn cached(&self) -> Seq<(Seq<char>, u64)> {
        self.cache.entries()
    }

    /// The number of statements the cache holds at most.
    pub closed spec fn cache_capacity(&self) -> nat {
        self.cache.capacity_spec()
    }

    /// A connection over a raw handle, with an empty cache of the default
    /// capacity.
    pub fn from_handle(db: u64, owned: bool) -> (c: Self)
        ensures
            c.spec_inner().spec_db() == db,
            c.spec_inner().spec_owned() == owned,
            c.cached() == Seq::<(Seq<char>, u64)>::empty(),
            c.cache_capacity() == STATEMENT_CACHE_DEFAULT_CAPACITY,
    {
        Connection {
            db: InnerConnection::new(db, owned),
            cache: StatementCache::with_capacity(STATEMENT_CACHE_DEFAULT_CAPACITY),
        }
    }

    /// The raw handle.
    pub fn handle(&self) -> (db: u64)
        ensures
            db == self.spec_inner().spec_db(),
    {
        self.db.db()
    }

    /// The prepared-statement cache.
    pub fn cache(&mut self) -> (c: &mut StatementCache)
        ensures
            *c == old(self).spec_cache(),
            c.entries() == old(self).cached(),
            c.capacity_spec() == old(self).cache_capacity(),
            final(self).spec_inner() == old(self).spec_inner(),
            final(self).cached() == final(c).entries(),
            final(self).cache_capacity() == final(c).capacity_spec(),
    {
        &mut self.cache
    }

    /// Sets the maximum number of cached prepared statements, evicting the
    /// least recently used ones that no longer fit.
    pub fn set_prepared_statement_cache_capacity(&mut self, capacity: usize)
        ensures
            final(self).cached() == crate::cache::lru_shrink_spec(old(self).cached(), capacity as nat),
            final(self).cache_capacity() == capacity,
            final(self).spec_inner() == old(self).spec_inner(),
    {
        self.cache.set_capacity(capacity);
    }

    /// Removes all prepared statements from the cache.
    pub fn flush_prepared_statement_cache(&mut self)
        ensures
            final(self).cached() == Seq::<(Seq<char>, u64)>::empty(),
            final(self).cache_capacity() == old(self).cache_capacity(),
            final(self).spec_inner() == old(self).spec_inner(),
    {
        self.cache.flush();
    }

    /// Turns the connection into one that may hold borrowed in-memory
    /// databases for the lifetime `'a`.
    pub fn into_borrowing<'a>(self) -> (b: BorrowingConnection<'a>)
        ensures
            b.spec_conn() == self,
    {
        BorrowingConnection { conn: self, phantom: PhantomData }
    }
}

/// A connection that may deserialize borrowed data living for `'a`.
pub struct BorrowingConnection<'a> {
    conn: Connection,
    phantom: PhantomData<&'a mut ()>,
}

impl<'a> BorrowingConnection<'a> {
    /// The connection inside.
    pub closed spec fn spec_conn(&self) -> Connection {
        self.conn
    }

    /// The connection inside.
    pub fn connection(&mut self) -> (c: &mut Connection)
        ensures
            *c == old(self).spec_conn(),
            final(self).spec_conn() == *final(c),
    {
        &mut self.conn
    }

    /// Gives the connection back.
    pub fn into_inner(self) -> (c: Connection)
        ensures
            c == self.spec_conn(),
    {
        self.conn
    }
}

/// Turning a connection into a borrowing one and back gives the same
/// connection.
pub proof fn lemma_borrowing_round_trip(c: Connection, b: BorrowingConnection, back: Connection)
    requires
        b.spec_conn() == c,
        back == b.spec_conn(),
    ensures
        back == c,
{
}

} // verus!
