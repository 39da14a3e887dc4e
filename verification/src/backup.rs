//! The decisions of the online backup API: when to step again, when to
//! wait for a busy source, and what the finished backup reports.

use vstd::prelude::*;
use vstd::string::StringExecFns;
use crate::codes;

verus! {

/// An SQLite error: the result code and a message.
#[derive(Debug, PartialEq)]
pub struct SqliteError {
    pub code: i32,
    pub message: String,
}

/// The pages copied by each call of `sqlite3_backup_step`.
pub const BACKUP_PAGES_PER_STEP: i32 = 100;

/// How long a restore waits for a busy source, in milliseconds.
pub const RESTORE_BUSY_SLEEP_MS: i32 = 100;

/// How many busy answers a restore takes before it gives up.
pub const RESTORE_BUSY_LIMIT: u32 = 3;

/// What to do after a call of `sqlite3_backup_step`.
#[derive(Clone, Copy, Debug, PartialEq, Eq, Structural)]
pub enum BackupStep {
    /// Call `sqlite3_backup_step` again.
    Continue,
    /// Sleep this many milliseconds, then step again.
    SleepAndContinue(i32),
    /// Stop stepping, finish the backup, and report this result code.
    Finished(i32),
}

/// A backup steps while the copy goes on and stops at any other answer.
pub open spec fn backup_transition(rc: i32) -> BackupStep {
    if rc == codes::SQLITE_OK { BackupStep::Continue } else { BackupStep::Finished(rc) }
}

/// What a backup does after the step answered `rc`.
pub fn backup_next(rc: i32) -> (s: BackupStep)
    ensures
        s == backup_transition(rc),
{
    if rc == codes::SQLITE_OK {
        BackupStep::Continue
    } else {
        BackupStep::Finished(rc)
    }
}

/// A restore counts the busy answers it has had: it sleeps after each of
/// the first two and gives up at the third; it steps on while the copy goes
/// on and stops at any other answer.
pub open spec fn restore_transition(busy: nat, rc: i32) -> (nat, BackupStep) {
    if rc == codes::SQLITE_OK {
        (busy, BackupStep::Continue)
    } else if rc == codes::SQLITE_BUSY {
        if busy + 1 >= RESTORE_BUSY_LIMIT {
            (busy + 1, BackupStep::Finished(rc))
        } else {
            (busy + 1, BackupStep::SleepAndContinue(RESTORE_BUSY_SLEEP_MS))
        }
    } else {
        (busy, BackupStep::Finished(rc))
    }
}

/// The stepping loop of a restore: it remembers how many times the source
/// was busy.
#[derive(Debug)]
pub struct RestoreLoop {
    busy: u32,
}

impl RestoreLoop {
    /// The busy answers so far.
    pub closed spec fn spec_busy(&self) -> nat {
        self.busy as nat
    }

    /// The busy answers never exceed the limit.
    #[verifier::type_invariant]
    closed spec fn inv(self) -> bool {
        self.busy <= RESTORE_BUSY_LIMIT
    }

    /// A restore that has not stepped yet.
    pub fn new() -> (l: RestoreLoop)
        ensures
            l.spec_busy() == 0,
    {
        RestoreLoop { busy: 0 }
    }

    /// What the restore does after the step answered `rc`. Once the
    /// restore has finished it is not asked again.
    pub fn next(&mut self, rc: i32) -> (s: BackupStep)
        requires
            old(self).spec_busy() < RESTORE_BUSY_LIMIT,
        ensures
            (final(self).spec_busy(), s) == restore_transition(old(self).spec_busy(), rc),
    {
        if rc == codes::SQLITE_OK {
            BackupStep::Continue
        } else if rc == codes::SQLITE_BUSY {
            let busy = self.busy + 1;
            *self = RestoreLoop { busy };
            if busy >= RESTORE_BUSY_LIMIT {
                BackupStep::Finished(rc)
            } else {
                BackupStep::SleepAndContinue(RESTORE_BUSY_SLEEP_MS)
            }
        } else {
            BackupStep::Finished(rc)
        }
    }
}

/// A restore gives up at the third busy answer, sleeping after the first
/// two; a busy answer is never answered by plain stepping, and a successful
/// step neither counts nor stops.
pub proof fn lemma_restore_gives_up_at_third_busy()
    ensures
        restore_transition(0, codes::SQLITE_BUSY) == (1nat, BackupStep::SleepAndContinue(RESTORE_BUSY_SLEEP_MS)),
        restore_transition(1, codes::SQLITE_BUSY) == (2nat, BackupStep::SleepAndContinue(RESTORE_BUSY_SLEEP_MS)),
        restore_transition(2, codes::SQLITE_BUSY) == (3nat, BackupStep::Finished(codes::SQLITE_BUSY)),
        forall|n: nat| restore_transition(n, codes::SQLITE_OK) == (n, BackupStep::Continue),
        forall|n: nat, rc: i32| restore_transition(n, rc).0 <= n + 1,
{
}

/// The message a failed backup or restore reports.
pub open spec fn failure_message(prefix: Seq<char>, errmsg: Seq<char>) -> Seq<char> {
    prefix + errmsg
}

/// What a finished backup reports: success when the copy is done, else the
/// result code with "backup failed: " and SQLite's message.
pub fn backup_result(rc: i32, errmsg: String) -> (r: Result<(), SqliteError>)
    ensures
        rc == codes::SQLITE_DONE ==> r is Ok,
        rc != codes::SQLITE_DONE ==> (r matches Err(e) && e.code == rc && e.message@ == failure_message(
            "backup failed: "@,
            errmsg@,
        )),
{
    if rc == codes::SQLITE_DONE {
        return Ok(());
    }
    proof { reveal_strlit("backup failed: "); }
    let mut message = String::from_str("backup failed: ");
    message.append(errmsg.as_str());
    Err(SqliteError { code: rc, message })
}

/// What a finished restore reports: success when the copy is done; when the
/// source stayed busy or locked, the code with "restore failed: source
/// database busy"; else the code with "restore failed: " and SQLite's
/// message.
pub fn restore_result(rc: i32, errmsg: String) -> (r: Result<(), SqliteError>)
    ensures
        rc == codes::SQLITE_DONE ==> r is Ok,
        (rc == codes::SQLITE_BUSY || rc == codes::SQLITE_LOCKED) ==> (r matches Err(e) && e.code == rc
            && e.message@ == "restore failed: source database busy"@),
        (rc != codes::SQLITE_DONE && rc != codes::SQLITE_BUSY && rc != codes::SQLITE_LOCKED) ==> (r matches Err(e)
            && e.code == rc && e.message@ == failure_message("restore failed: "@, errmsg@)),
{
    if rc == codes::SQLITE_DONE {
        Ok(())
    } else if rc == codes::SQLITE_BUSY || rc == codes::SQLITE_LOCKED {
        Err(SqliteError { code: rc, message: String::from_str("restore failed: source database busy") })
    } else {
        proof { reveal_strlit("restore failed: "); }
        let mut message = String::from_str("restore failed: ");
        message.append(errmsg.as_str());
        Err(SqliteError { code: rc, message })
    }
}

/// What `sqlite3_backup_init` failing reports: SQLite's error code with the
/// operation's prefix and SQLite's message.
pub fn init_failure(errcode: i32, errmsg: String, restore: bool) -> (e: SqliteError)
    ensures
        e.code == errcode,
        restore ==> e.message@ == failure_message("restore failed: "@, errmsg@),
        !restore ==> e.message@ == failure_message("backup failed: "@, errmsg@),
{
    let mut message = if restore {
        proof { reveal_strlit("restore failed: "); }
        String::from_str("restore failed: ")
    } else {
        proof { reveal_strlit("backup failed: "); }
        String::from_str("backup failed: ")
    };
    message.append(errmsg.as_str());
    SqliteError { code: errcode, message }
}

} // verus!
