//! Run-time limit categories.

use vstd::prelude::*;
use crate::codes;

verus! {

/// Run-time limit categories, for use with `Connection::limit` and
/// `Connection::set_limit`.
#[derive(Clone, Copy, Debug, PartialEq, Eq, Structural)]
#[non_exhaustive]
pub enum Limit {
    /// The maximum size of any string or BLOB or table row, in bytes.
    Length,
    /// The maximum length of an SQL statement, in bytes.
    SqlLength,
    /// The maximum number of columns in a table definition, a result set,
    /// an index, or an ORDER BY or GROUP BY clause.
    Columns,
    /// The maximum depth of the parse tree on any expression.
    ExprDepth,
    /// The maximum number of terms in a compound SELECT statement.
    CompoundSelectTerms,
    /// The maximum number of instructions in a virtual machine program.
    VdbeInstructions,
    /// The maximum number of arguments on a function.
    FunctionArgs,
    /// The maximum number of attached databases.
    AttachedDatabases,
    /// The maximum length of the pattern argument to LIKE or GLOB.
    LikePatternLength,
    /// The maximum index number of any parameter in an SQL statement.
    NumParams,
    /// The maximum depth of recursion for triggers.
    TriggerDepth,
    /// The maximum number of auxiliary worker threads of one statement.
    WorkerThreads,
}

/// The `SQLITE_LIMIT_*` code of a category.
pub open spec fn limit_code(limit: Limit) -> i32 {
    match limit {
        Limit::Length => codes::SQLITE_LIMIT_LENGTH,
        Limit::SqlLength => codes::SQLITE_LIMIT_SQL_LENGTH,
        Limit::Columns => codes::SQLITE_LIMIT_COLUMN,
        Limit::ExprDepth => codes::SQLITE_LIMIT_EXPR_DEPTH,
        Limit::CompoundSelectTerms => codes::SQLITE_LIMIT_COMPOUND_SELECT,
        Limit::VdbeInstructions => codes::SQLITE_LIMIT_VDBE_OP,
        Limit::FunctionArgs => codes::SQLITE_LIMIT_FUNCTION_ARG,
        Limit::AttachedDatabases => codes::SQLITE_LIMIT_ATTACHED,
        Limit::LikePatternLength => codes::SQLITE_LIMIT_LIKE_PATTERN_LENGTH,
        Limit::NumParams => codes::SQLITE_LIMIT_VARIABLE_NUMBER,
        Limit::TriggerDepth => codes::SQLITE_LIMIT_TRIGGER_DEPTH,
        Limit::WorkerThreads => codes::SQLITE_LIMIT_WORKER_THREADS,
    }
}

impl Limit {
    /// An alias for `Limit::Length`.
    pub const SQLITE_LIMIT_LENGTH: Limit = Limit::Length;
    /// An alias for `Limit::SqlLength`.
    pub const SQLITE_LIMIT_SQL_LENGTH: Limit = Limit::SqlLength;
    /// An alias for `Limit::Columns`.
    pub const SQLITE_LIMIT_COLUMN: Limit = Limit::Columns;
    /// An alias for `Limit::ExprDepth`.
    pub const SQLITE_LIMIT_EXPR_DEPTH: Limit = Limit::ExprDepth;
    /// An alias for `Limit::CompoundSelectTerms`.
    pub const SQLITE_LIMIT_COMPOUND_SELECT: Limit = Limit::CompoundSelectTerms;
    /// An alias for `Limit::VdbeInstructions`.
    pub const SQLITE_LIMIT_VDBE_OP: Limit = Limit::VdbeInstructions;
    /// An alias for `Limit::FunctionArgs`.
    pub const SQLITE_LIMIT_FUNCTION_ARG: Limit = Limit::FunctionArgs;
    /// An alias for `Limit::AttachedDatabases`.
    pub const SQLITE_LIMIT_ATTACHED: Limit = Limit::AttachedDatabases;
    /// An alias for `Limit::LikePatternLength`.
    pub const SQLITE_LIMIT_LIKE_PATTERN_LENGTH: Limit = Limit::LikePatternLength;
    /// An alias for `Limit::NumParams`.
    pub const SQLITE_LIMIT_VARIABLE_NUMBER: Limit = Limit::NumParams;
    /// An alias for `Limit::TriggerDepth`.
    pub const SQLITE_LIMIT_TRIGGER_DEPTH: Limit = Limit::TriggerDepth;
    /// An alias for `Limit::WorkerThreads`.
    pub const SQLITE_LIMIT_WORKER_THREADS: Limit = Limit::WorkerThreads;

    /// The `SQLITE_LIMIT_*` code handed to `sqlite3_limit`.
    pub fn code(self) -> (c: i32)
        ensures
            c == limit_code(self),
    {
        match self {
            Limit::Length => codes::SQLITE_LIMIT_LENGTH,
            Limit::SqlLength => codes::SQLITE_LIMIT_SQL_LENGTH,
            Limit::Columns => codes::SQLITE_LIMIT_COLUMN,
            Limit::ExprDepth => codes::SQLITE_LIMIT_EXPR_DEPTH,
            Limit::CompoundSelectTerms => codes::SQLITE_LIMIT_COMPOUND_SELECT,
            Limit::VdbeInstructions => codes::SQLITE_LIMIT_VDBE_OP,
            Limit::FunctionArgs => codes::SQLITE_LIMIT_FUNCTION_ARG,
            Limit::AttachedDatabases => codes::SQLITE_LIMIT_ATTACHED,
            Limit::LikePatternLength => codes::SQLITE_LIMIT_LIKE_PATTERN_LENGTH,
            Limit::NumParams => codes::SQLITE_LIMIT_VARIABLE_NUMBER,
            Limit::TriggerDepth => codes::SQLITE_LIMIT_TRIGGER_DEPTH,
            Limit::WorkerThreads => codes::SQLITE_LIMIT_WORKER_THREADS,
        }
    }
}

/// Distinct categories have distinct codes, and the codes run from 0 to 11.
pub proof fn lemma_limit_codes_distinct(a: Limit, b: Limit)
    ensures
        (limit_code(a) == limit_code(b)) == (a == b),
        0 <= limit_code(a) <= 11,
{
}

} // verus!
