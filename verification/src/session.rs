//! The decisions of the session extension's callbacks: how conflict codes
//! are read, what a conflict handler's answer becomes, and what a changeset
//! operation reports.

use vstd::prelude::*;
use crate::codes;
use crate::hooks::{Action, action_of_code};

verus! {

/// Constants passed to the conflict handler.
#[derive(Clone, Copy, Debug, PartialEq, Eq, Structural)]
#[allow(non_camel_case_types)]
pub enum ConflictType {
    UNKNOWN,
    SQLITE_CHANGESET_DATA,
    SQLITE_CHANGESET_NOTFOUND,
    SQLITE_CHANGESET_CONFLICT,
    SQLITE_CHANGESET_CONSTRAINT,
    SQLITE_CHANGESET_FOREIGN_KEY,
}

/// The conflict type a raw code stands for; codes SQLite does not define
/// are `UNKNOWN`.
pub open spec fn conflict_type_of(code: i32) -> ConflictType {
    if code == codes::SQLITE_CHANGESET_DATA {
        ConflictType::SQLITE_CHANGESET_DATA
    } else if code == codes::SQLITE_CHANGESET_NOTFOUND {
        ConflictType::SQLITE_CHANGESET_NOTFOUND
    } else if code == codes::SQLITE_CHANGESET_CONFLICT {
        ConflictType::SQLITE_CHANGESET_CONFLICT
    } else if code == codes::SQLITE_CHANGESET_CONSTRAINT {
        ConflictType::SQLITE_CHANGESET_CONSTRAINT
    } else if code == codes::SQLITE_CHANGESET_FOREIGN_KEY {
        ConflictType::SQLITE_CHANGESET_FOREIGN_KEY
    } else {
        ConflictType::UNKNOWN
    }
}

/// The raw code of a conflict type (`-1` for an unknown one).
pub open spec fn conflict_type_code(t: ConflictType) -> i32 {
    match t {
        ConflictType::UNKNOWN => -1i32,
        ConflictType::SQLITE_CHANGESET_DATA => codes::SQLITE_CHANGESET_DATA,
        ConflictType::SQLITE_CHANGESET_NOTFOUND => codes::SQLITE_CHANGESET_NOTFOUND,
        ConflictType::SQLITE_CHANGESET_CONFLICT => codes::SQLITE_CHANGESET_CONFLICT,
        ConflictType::SQLITE_CHANGESET_CONSTRAINT => codes::SQLITE_CHANGESET_CONSTRAINT,
        ConflictType::SQLITE_CHANGESET_FOREIGN_KEY => codes::SQLITE_CHANGESET_FOREIGN_KEY,
    }
}

impl ConflictType {
    /// Reads a raw conflict code.
    pub fn from(code: i32) -> (t: ConflictType)
        ensures
            t == conflict_type_of(code),
    {
        if code == codes::SQLITE_CHANGESET_DATA {
            ConflictType::SQLITE_CHANGESET_DATA
        } else if code == codes::SQLITE_CHANGESET_NOTFOUND {
            ConflictType::SQLITE_CHANGESET_NOTFOUND
        } else if code == codes::SQLITE_CHANGESET_CONFLICT {
            ConflictType::SQLITE_CHANGESET_CONFLICT
        } else if code == codes::SQLITE_CHANGESET_CONSTRAINT {
            ConflictType::SQLITE_CHANGESET_CONSTRAINT
        } else if code == codes::SQLITE_CHANGESET_FOREIGN_KEY {
            ConflictType::SQLITE_CHANGESET_FOREIGN_KEY
        } else {
            ConflictType::UNKNOWN
        }
    }

    /// The raw code of the conflict type (`-1` for `UNKNOWN`).
    pub fn code(self) -> (c: i32)
        ensures
            c == conflict_type_code(self),
    {
        match self {
            ConflictType::UNKNOWN => -1,
            ConflictType::SQLITE_CHANGESET_DATA => codes::SQLITE_CHANGESET_DATA,
            ConflictType::SQLITE_CHANGESET_NOTFOUND => codes::SQLITE_CHANGESET_NOTFOUND,
            ConflictType::SQLITE_CHANGESET_CONFLICT => codes::SQLITE_CHANGESET_CONFLICT,
            ConflictType::SQLITE_CHANGESET_CONSTRAINT => codes::SQLITE_CHANGESET_CONSTRAINT,
            ConflictType::SQLITE_CHANGESET_FOREIGN_KEY => codes::SQLITE_CHANGESET_FOREIGN_KEY,
        }
    }
}

/// Reading back the code of a known conflict type gives the type; every
/// other code reads as `UNKNOWN`.
pub proof fn lemma_conflict_type_round_trip(t: ConflictType, code: i32)
    ensures
        t != ConflictType::UNKNOWN ==> conflict_type_of(conflict_type_code(t)) == t,
        conflict_type_of(code) != ConflictType::UNKNOWN ==> conflict_type_code(conflict_type_of(code)) == code,
{
}

/// Constants returned by the conflict handler.
#[derive(Clone, Copy, Debug, PartialEq, Eq, Structural)]
#[allow(non_camel_case_types)]
pub enum ConflictAction {
    SQLITE_CHANGESET_OMIT,
    SQLITE_CHANGESET_REPLACE,
    SQLITE_CHANGESET_ABORT,
}

/// The raw code of a conflict handler's answer.
pub open spec fn conflict_action_code(a: ConflictAction) -> i32 {
    match a {
        ConflictAction::SQLITE_CHANGESET_OMIT => codes::SQLITE_CHANGESET_OMIT,
        ConflictAction::SQLITE_CHANGESET_REPLACE => codes::SQLITE_CHANGESET_REPLACE,
        ConflictAction::SQLITE_CHANGESET_ABORT => codes::SQLITE_CHANGESET_ABORT,
    }
}

impl ConflictAction {
    /// The raw code handed back to SQLite.
    pub fn code(self) -> (c: i32)
        ensures
            c == conflict_action_code(self),
    {
        match self {
            ConflictAction::SQLITE_CHANGESET_OMIT => codes::SQLITE_CHANGESET_OMIT,
            ConflictAction::SQLITE_CHANGESET_REPLACE => codes::SQLITE_CHANGESET_REPLACE,
            ConflictAction::SQLITE_CHANGESET_ABORT => codes::SQLITE_CHANGESET_ABORT,
        }
    }
}

/// What the conflict callback answers SQLite: the handler's action, or
/// `SQLITE_CHANGESET_ABORT` when the handler panicked (`None`).
pub fn conflict_answer(outcome: Option<ConflictAction>) -> (c: i32)
    ensures
        c == (match outcome {
            Some(a) => conflict_action_code(a),
            None => codes::SQLITE_CHANGESET_ABORT,
        }),
{
    match outcome {
        Some(action) => action.code(),
        None => codes::SQLITE_CHANGESET_ABORT,
    }
}

/// A change in a changeset: the table it touches, its number of columns,
/// what kind of change it is and whether it was indirect.
#[derive(Debug)]
pub struct Operation {
    table_name: String,
    number_of_columns: i32,
    code: Action,
    indirect: bool,
}

impl Operation {
    /// The table's name.
    pub closed spec fn spec_table_name(&self) -> Seq<char> {
        self.table_name@
    }

    /// The number of columns.
    pub closed spec fn spec_number_of_columns(&self) -> i32 {
        self.number_of_columns
    }

    /// The kind of change.
    pub closed spec fn spec_code(&self) -> Action {
        self.code
    }

    /// Whether the change was indirect.
    pub closed spec fn spec_indirect(&self) -> bool {
        self.indirect
    }

    /// The operation from what `sqlite3changeset_op` reports: the table,
    /// the column count, the raw operation code and the raw indirect flag
    /// (nonzero meaning indirect).
    pub fn from_raw(table_name: String, number_of_columns: i32, code: i32, indirect: i32) -> (op: Operation)
        ensures
            op.spec_table_name() == table_name@,
            op.spec_number_of_columns() == number_of_columns,
            op.spec_code() == action_of_code(code),
            op.spec_indirect() == (indirect != 0),
    {
        Operation { table_name, number_of_columns, code: Action::from(code), indirect: indirect != 0 }
    }

    /// The name of the table the change touches.
    pub fn table_name(&self) -> (s: &str)
        ensures
            s@ == self.spec_table_name(),
    {
        self.table_name.as_str()
    }

    /// The number of columns of the table.
    pub fn number_of_columns(&self) -> (n: i32)
        ensures
            n == self.spec_number_of_columns(),
    {
        self.number_of_columns
    }

    /// The kind of change: insert, update or delete.
    pub fn code(&self) -> (a: Action)
        ensures
            a == self.spec_code(),
    {
        self.code
    }

    /// Whether the change was indirect.
    pub fn indirect(&self) -> (b: bool)
        ensures
            b == self.spec_indirect(),
    {
        self.indirect
    }
}

/// The primary-key definition of a changeset's table, from the bytes that
/// `sqlite3changeset_pk` reports: column `i` belongs to the primary key
/// exactly when byte `i` is nonzero.
pub fn primary_key_flags(pks: &[u8]) -> (flags: Vec<bool>)
    ensures
        flags@.len() == pks@.len(),
        forall|i: int| 0 <= i < pks@.len() ==> flags@[i] == (pks@[i] != 0),
{
    let mut flags: Vec<bool> = Vec::with_capacity(pks.len());
    let mut i: usize = 0;
    while i < pks.len()
        invariant
            i <= pks@.len(),
            flags@.len() == i,
            forall|j: int| 0 <= j < i ==> flags@[j] == (pks@[j] != 0),
        decreases pks@.len() - i,
    {
        flags.push(pks[i] != 0);
        i = i + 1;
    }
    flags
}

} // verus!
