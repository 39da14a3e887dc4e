//! Commit, rollback, update and authorizer hook data: decoding of the
//! action codes SQLite passes to the hook callbacks.

use vstd::prelude::*;
use crate::codes;
use crate::util::str_eq;

verus! {

/// Action codes passed to an update hook.
#[derive(Clone, Copy, Debug, PartialEq, Eq)]
#[allow(non_camel_case_types)]
pub enum Action {
    /// Unsupported / unexpected action
    UNKNOWN,
    /// DELETE command
    SQLITE_DELETE,
    /// INSERT command
    SQLITE_INSERT,
    /// UPDATE command
    SQLITE_UPDATE,
}

/// The action denoted by a raw update-hook code.
pub open spec fn action_of_code(code: i32) -> Action {
    if code == codes::SQLITE_DELETE {
        Action::SQLITE_DELETE
    } else if code == codes::SQLITE_INSERT {
        Action::SQLITE_INSERT
    } else if code == codes::SQLITE_UPDATE {
        Action::SQLITE_UPDATE
    } else {
        Action::UNKNOWN
    }
}

/// The raw code of an action (`-1` for an unknown one).
pub open spec fn code_of_action(a: Action) -> i32 {
    match a {
        Action::UNKNOWN => -1i32,
        Action::SQLITE_DELETE => codes::SQLITE_DELETE,
        Action::SQLITE_INSERT => codes::SQLITE_INSERT,
        Action::SQLITE_UPDATE => codes::SQLITE_UPDATE,
    }
}

impl Action {
    /// Decodes the raw action code of an update hook.
    pub fn from(code: i32) -> (a: Action)
        ensures
            a == action_of_code(code),
    {
        if code == codes::SQLITE_DELETE {
            Action::SQLITE_DELETE
        } else if code == codes::SQLITE_INSERT {
            Action::SQLITE_INSERT
        } else if code == codes::SQLITE_UPDATE {
            Action::SQLITE_UPDATE
        } else {
            Action::UNKNOWN
        }
    }

    /// The raw SQLite code of this action (`-1` for `UNKNOWN`).
    pub fn code(&self) -> (c: i32)
        ensures
            c == code_of_action(*self),
    {
        match self {
            Action::UNKNOWN => -1,
            Action::SQLITE_DELETE => codes::SQLITE_DELETE,
            Action::SQLITE_INSERT => codes::SQLITE_INSERT,
            Action::SQLITE_UPDATE => codes::SQLITE_UPDATE,
        }
    }
}

/// Decoding a known action's code gives the action back, and decoding
/// any code gives an action whose code is that code or `-1`.
pub proof fn lemma_action_code_round_trip(a: Action, code: i32)
    ensures
        a != Action::UNKNOWN ==> action_of_code(code_of_action(a)) == a,
        action_of_code(code) != Action::UNKNOWN ==> code_of_action(action_of_code(code)) == code,
        action_of_code(code) == Action::UNKNOWN ==> code_of_action(action_of_code(code)) == -1,
{
}

/// A transaction operation.
#[derive(Clone, Copy, Debug, PartialEq, Eq)]
pub enum TransactionOperation {
    Unknown,
    Begin,
    Release,
    Rollback,
}

/// The operation named by the text SQLite passes to the authorizer.
pub open spec fn transaction_operation_of(s: Seq<char>) -> TransactionOperation {
    if s == "BEGIN"@ {
        TransactionOperation::Begin
    } else if s == "RELEASE"@ {
        TransactionOperation::Release
    } else if s == "ROLLBACK"@ {
        TransactionOperation::Rollback
    } else {
        TransactionOperation::Unknown
    }
}

impl TransactionOperation {
    /// Parses the operation text ("BEGIN", "RELEASE", "ROLLBACK").
    pub fn from_str(op_str: &str) -> (op: TransactionOperation)
        ensures
            op == transaction_operation_of(op_str@),
    {
        if str_eq(op_str, "BEGIN") {
            TransactionOperation::Begin
        } else if str_eq(op_str, "RELEASE") {
            TransactionOperation::Release
        } else if str_eq(op_str, "ROLLBACK") {
            TransactionOperation::Rollback
        } else {
            TransactionOperation::Unknown
        }
    }
}

/// The answer of an authorizer callback.
#[derive(Clone, Copy, Debug, PartialEq, Eq)]
pub enum Authorization {
    /// Authorize the action.
    Allow,
    /// Don't allow access, but don't trigger an error either.
    Ignore,
    /// Trigger an error.
    Deny,
}

/// The raw code SQLite expects for an authorization.
pub open spec fn authorization_code(a: Authorization) -> i32 {
    match a {
        Authorization::Allow => codes::SQLITE_OK,
        Authorization::Ignore => codes::SQLITE_IGNORE,
        Authorization::Deny => codes::SQLITE_DENY,
    }
}

impl Authorization {
    /// Encodes the authorization as the code returned to SQLite.
    pub fn into_raw(self) -> (c: i32)
        ensures
            c == authorization_code(self),
    {
        match self {
            Authorization::Allow => codes::SQLITE_OK,
            Authorization::Ignore => codes::SQLITE_IGNORE,
            Authorization::Deny => codes::SQLITE_DENY,
        }
    }
}

/// Distinct authorizations are answered with distinct codes.
pub proof fn lemma_authorization_code_injective(a: Authorization, b: Authorization)
    ensures
        authorization_code(a) == authorization_code(b) ==> a == b,
{
}


/// The context received by an authorizer hook.
#[derive(Clone, Copy, Debug, PartialEq)]
pub struct AuthContext<'c> {
    /// The action to be authorized.
    pub action: AuthAction<'c>,
    /// The database name, if applicable.
    pub database_name: Option<&'c str>,
    /// The inner-most trigger or view responsible for the access attempt.
    pub accessor: Option<&'c str>,
}

/// Actions and arguments found within a statement during preparation.
#[derive(Clone, Copy, Debug, PartialEq)]
pub enum AuthAction<'c> {
    /// An action code this library does not know, with its raw arguments.
    Unknown { code: i32, arg1: Option<&'c str>, arg2: Option<&'c str> },
    CreateIndex { index_name: &'c str, table_name: &'c str },
    CreateTable { table_name: &'c str },
    CreateTempIndex { index_name: &'c str, table_name: &'c str },
    CreateTempTable { table_name: &'c str },
    CreateTempTrigger { trigger_name: &'c str, table_name: &'c str },
    CreateTempView { view_name: &'c str },
    CreateTrigger { trigger_name: &'c str, table_name: &'c str },
    CreateView { view_name: &'c str },
    Delete { table_name: &'c str },
    DropIndex { index_name: &'c str, table_name: &'c str },
    DropTable { table_name: &'c str },
    DropTempIndex { index_name: &'c str, table_name: &'c str },
    DropTempTable { table_name: &'c str },
    DropTempTrigger { trigger_name: &'c str, table_name: &'c str },
    DropTempView { view_name: &'c str },
    DropTrigger { trigger_name: &'c str, table_name: &'c str },
    DropView { view_name: &'c str },
    Insert { table_name: &'c str },
    Pragma { pragma_name: &'c str, pragma_value: Option<&'c str> },
    Read { table_name: &'c str, column_name: &'c str },
    Select,
    Transaction { operation: TransactionOperation },
    Update { table_name: &'c str, column_name: &'c str },
    /// Attaching a database file, given by its file name.
    Attach { filename: &'c str },
    Detach { database_name: &'c str },
    AlterTable { database_name: &'c str, table_name: &'c str },
    Reindex { index_name: &'c str },
    Analyze { table_name: &'c str },
    CreateVtable { table_name: &'c str, module_name: &'c str },
    DropVtable { table_name: &'c str, module_name: &'c str },
    Function { function_name: &'c str },
    Savepoint { operation: TransactionOperation, savepoint_name: &'c str },
    Recursive,
}

/// The action an authorizer receives for a raw action code and its two
/// arguments: each known code needs its arguments present (as SQLite
/// documents them); anything else is reported as `Unknown` with the raw
/// values.
pub open spec fn auth_action_of<'c>(code: i32, arg1: Option<&'c str>, arg2: Option<&'c str>) -> AuthAction<'c> {
    let unknown = AuthAction::Unknown { code, arg1, arg2 };
    let both = arg1 is Some && arg2 is Some;
    let first = arg1 is Some;
    if code == codes::SQLITE_CREATE_INDEX {
        if both { AuthAction::CreateIndex { index_name: arg1->0, table_name: arg2->0 } } else { unknown }
    } else if code == codes::SQLITE_CREATE_TABLE {
        if first { AuthAction::CreateTable { table_name: arg1->0 } } else { unknown }
    } else if code == codes::SQLITE_CREATE_TEMP_INDEX {
        if both { AuthAction::CreateTempIndex { index_name: arg1->0, table_name: arg2->0 } } else { unknown }
    } else if code == codes::SQLITE_CREATE_TEMP_TABLE {
        if first { AuthAction::CreateTempTable { table_name: arg1->0 } } else { unknown }
    } else if code == codes::SQLITE_CREATE_TEMP_TRIGGER {
        if both { AuthAction::CreateTempTrigger { trigger_name: arg1->0, table_name: arg2->0 } } else { unknown }
    } else if code == codes::SQLITE_CREATE_TEMP_VIEW {
        if first { AuthAction::CreateTempView { view_name: arg1->0 } } else { unknown }
    } else if code == codes::SQLITE_CREATE_TRIGGER {
        if both { AuthAction::CreateTrigger { trigger_name: arg1->0, table_name: arg2->0 } } else { unknown }
    } else if code == codes::SQLITE_CREATE_VIEW {
        if first { AuthAction::CreateView { view_name: arg1->0 } } else { unknown }
    } else if code == codes::SQLITE_DELETE {
        if first && arg2 is None { AuthAction::Delete { table_name: arg1->0 } } else { unknown }
    } else if code == codes::SQLITE_DROP_INDEX {
        if both { AuthAction::DropIndex { index_name: arg1->0, table_name: arg2->0 } } else { unknown }
    } else if code == codes::SQLITE_DROP_TABLE {
        if first { AuthAction::DropTable { table_name: arg1->0 } } else { unknown }
    } else if code == codes::SQLITE_DROP_TEMP_INDEX {
        if both { AuthAction::DropTempIndex { index_name: arg1->0, table_name: arg2->0 } } else { unknown }
    } else if code == codes::SQLITE_DROP_TEMP_TABLE {
        if first { AuthAction::DropTempTable { table_name: arg1->0 } } else { unknown }
    } else if code == codes::SQLITE_DROP_TEMP_TRIGGER {
        if both { AuthAction::DropTempTrigger { trigger_name: arg1->0, table_name: arg2->0 } } else { unknown }
    } else if code == codes::SQLITE_DROP_TEMP_VIEW {
        if first { AuthAction::DropTempView { view_name: arg1->0 } } else { unknown }
    } else if code == codes::SQLITE_DROP_TRIGGER {
        if both { AuthAction::DropTrigger { trigger_name: arg1->0, table_name: arg2->0 } } else { unknown }
    } else if code == codes::SQLITE_DROP_VIEW {
        if first { AuthAction::DropView { view_name: arg1->0 } } else { unknown }
    } else if code == codes::SQLITE_INSERT {
        if first { AuthAction::Insert { table_name: arg1->0 } } else { unknown }
    } else if code == codes::SQLITE_PRAGMA {
        if first { AuthAction::Pragma { pragma_name: arg1->0, pragma_value: arg2 } } else { unknown }
    } else if code == codes::SQLITE_READ {
        if both { AuthAction::Read { table_name: arg1->0, column_name: arg2->0 } } else { unknown }
    } else if code == codes::SQLITE_SELECT {
        AuthAction::Select
    } else if code == codes::SQLITE_TRANSACTION {
        if first {
            AuthAction::Transaction { operation: transaction_operation_of((arg1->0)@) }
        } else {
            unknown
        }
    } else if code == codes::SQLITE_UPDATE {
        if both { AuthAction::Update { table_name: arg1->0, column_name: arg2->0 } } else { unknown }
    } else if code == codes::SQLITE_ATTACH {
        if first { AuthAction::Attach { filename: arg1->0 } } else { unknown }
    } else if code == codes::SQLITE_DETACH {
        if first { AuthAction::Detach { database_name: arg1->0 } } else { unknown }
    } else if code == codes::SQLITE_ALTER_TABLE {
        if both { AuthAction::AlterTable { database_name: arg1->0, table_name: arg2->0 } } else { unknown }
    } else if code == codes::SQLITE_REINDEX {
        if first { AuthAction::Reindex { index_name: arg1->0 } } else { unknown }
    } else if code == codes::SQLITE_ANALYZE {
        if first { AuthAction::Analyze { table_name: arg1->0 } } else { unknown }
    } else if code == codes::SQLITE_CREATE_VTABLE {
        if both { AuthAction::CreateVtable { table_name: arg1->0, module_name: arg2->0 } } else { unknown }
    } else if code == codes::SQLITE_DROP_VTABLE {
        if both { AuthAction::DropVtable { table_name: arg1->0, module_name: arg2->0 } } else { unknown }
    } else if code == codes::SQLITE_FUNCTION {
        if arg2 is Some { AuthAction::Function { function_name: arg2->0 } } else { unknown }
    } else if code == codes::SQLITE_SAVEPOINT {
        if both {
            AuthAction::Savepoint {
                operation: transaction_operation_of((arg1->0)@),
                savepoint_name: arg2->0,
            }
        } else {
            unknown
        }
    } else if code == codes::SQLITE_RECURSIVE {
        AuthAction::Recursive
    } else {
        unknown
    }
}

impl<'c> AuthAction<'c> {
    /// Decodes the action code and the two action arguments an authorizer
    /// callback receives.
    pub fn from_raw(code: i32, arg1: Option<&'c str>, arg2: Option<&'c str>) -> (a: Self)
        ensures
            a == auth_action_of(code, arg1, arg2),
    {
        let unknown = AuthAction::Unknown { code, arg1, arg2 };
        if code == codes::SQLITE_CREATE_INDEX {
            match (arg1, arg2) {
                (Some(index_name), Some(table_name)) => AuthAction::CreateIndex { index_name, table_name },
                _ => unknown,
            }
        } else if code == codes::SQLITE_CREATE_TABLE {
            match arg1 {
                Some(table_name) => AuthAction::CreateTable { table_name },
                None => unknown,
            }
        } else if code == codes::SQLITE_CREATE_TEMP_INDEX {
            match (arg1, arg2) {
                (Some(index_name), Some(table_name)) => AuthAction::CreateTempIndex { index_name, table_name },
                _ => unknown,
            }
        } else if code == codes::SQLITE_CREATE_TEMP_TABLE {
            match arg1 {
                Some(table_name) => AuthAction::CreateTempTable { table_name },
                None => unknown,
            }
        } else if code == codes::SQLITE_CREATE_TEMP_TRIGGER {
            match (arg1, arg2) {
                (Some(trigger_name), Some(table_name)) => AuthAction::CreateTempTrigger { trigger_name, table_name },
                _ => unknown,
            }
        } else if code == codes::SQLITE_CREATE_TEMP_VIEW {
            match arg1 {
                Some(view_name) => AuthAction::CreateTempView { view_name },
                None => unknown,
            }
        } else if code == codes::SQLITE_CREATE_TRIGGER {
            match (arg1, arg2) {
                (Some(trigger_name), Some(table_name)) => AuthAction::CreateTrigger { trigger_name, table_name },
                _ => unknown,
            }
        } else if code == codes::SQLITE_CREATE_VIEW {
            match arg1 {
                Some(view_name) => AuthAction::CreateView { view_name },
                None => unknown,
            }
        } else if code == codes::SQLITE_DELETE {
            match (arg1, arg2) {
                (Some(table_name), None) => AuthAction::Delete { table_name },
                _ => unknown,
            }
        } else if code == codes::SQLITE_DROP_INDEX {
            match (arg1, arg2) {
                (Some(index_name), Some(table_name)) => AuthAction::DropIndex { index_name, table_name },
                _ => unknown,
            }
        } else if code == codes::SQLITE_DROP_TABLE {
            match arg1 {
                Some(table_name) => AuthAction::DropTable { table_name },
                None => unknown,
            }
        } else if code == codes::SQLITE_DROP_TEMP_INDEX {
            match (arg1, arg2) {
                (Some(index_name), Some(table_name)) => AuthAction::DropTempIndex { index_name, table_name },
                _ => unknown,
            }
        } else if code == codes::SQLITE_DROP_TEMP_TABLE {
            match arg1 {
                Some(table_name) => AuthAction::DropTempTable { table_name },
                None => unknown,
            }
        } else if code == codes::SQLITE_DROP_TEMP_TRIGGER {
            match (arg1, arg2) {
                (Some(trigger_name), Some(table_name)) => AuthAction::DropTempTrigger { trigger_name, table_name },
                _ => unknown,
            }
        } else if code == codes::SQLITE_DROP_TEMP_VIEW {
            match arg1 {
                Some(view_name) => AuthAction::DropTempView { view_name },
                None => unknown,
            }
        } else if code == codes::SQLITE_DROP_TRIGGER {
            match (arg1, arg2) {
                (Some(trigger_name), Some(table_name)) => AuthAction::DropTrigger { trigger_name, table_name },
                _ => unknown,
            }
        } else if code == codes::SQLITE_DROP_VIEW {
            match arg1 {
                Some(view_name) => AuthAction::DropView { view_name },
                None => unknown,
            }
        } else if code == codes::SQLITE_INSERT {
            match arg1 {
                Some(table_name) => AuthAction::Insert { table_name },
                None => unknown,
            }
        } else if code == codes::SQLITE_PRAGMA {
            match arg1 {
                Some(pragma_name) => AuthAction::Pragma { pragma_name, pragma_value: arg2 },
                None => unknown,
            }
        } else if code == codes::SQLITE_READ {
            match (arg1, arg2) {
                (Some(table_name), Some(column_name)) => AuthAction::Read { table_name, column_name },
                _ => unknown,
            }
        } else if code == codes::SQLITE_SELECT {
            AuthAction::Select
        } else if code == codes::SQLITE_TRANSACTION {
            match arg1 {
                Some(operation_str) => AuthAction::Transaction {
                    operation: TransactionOperation::from_str(operation_str),
                },
                None => unknown,
            }
        } else if code == codes::SQLITE_UPDATE {
            match (arg1, arg2) {
                (Some(table_name), Some(column_name)) => AuthAction::Update { table_name, column_name },
                _ => unknown,
            }
        } else if code == codes::SQLITE_ATTACH {
            match arg1 {
                Some(filename) => AuthAction::Attach { filename },
                None => unknown,
            }
        } else if code == codes::SQLITE_DETACH {
            match arg1 {
                Some(database_name) => AuthAction::Detach { database_name },
                None => unknown,
            }
        } else if code == codes::SQLITE_ALTER_TABLE {
            match (arg1, arg2) {
                (Some(database_name), Some(table_name)) => AuthAction::AlterTable { database_name, table_name },
                _ => unknown,
            }
        } else if code == codes::SQLITE_REINDEX {
            match arg1 {
                Some(index_name) => AuthAction::Reindex { index_name },
                None => unknown,
            }
        } else if code == codes::SQLITE_ANALYZE {
            match arg1 {
                Some(table_name) => AuthAction::Analyze { table_name },
                None => unknown,
            }
        } else if code == codes::SQLITE_CREATE_VTABLE {
            match (arg1, arg2) {
                (Some(table_name), Some(module_name)) => AuthAction::CreateVtable { table_name, module_name },
                _ => unknown,
            }
        } else if code == codes::SQLITE_DROP_VTABLE {
            match (arg1, arg2) {
                (Some(table_name), Some(module_name)) => AuthAction::DropVtable { table_name, module_name },
                _ => unknown,
            }
        } else if code == codes::SQLITE_FUNCTION {
            match arg2 {
                Some(function_name) => AuthAction::Function { function_name },
                None => unknown,
            }
        } else if code == codes::SQLITE_SAVEPOINT {
            match (arg1, arg2) {
                (Some(operation_str), Some(savepoint_name)) => AuthAction::Savepoint {
                    operation: TransactionOperation::from_str(operation_str),
                    savepoint_name,
                },
                _ => unknown,
            }
        } else if code == codes::SQLITE_RECURSIVE {
            AuthAction::Recursive
        } else {
            unknown
        }
    }
}

impl<'c> AuthContext<'c> {
    /// Builds the context an authorizer callback receives from the raw
    /// values SQLite hands it (the strings already decoded, `None` where
    /// SQLite passed a null or non-UTF-8 pointer).
    pub fn from_raw(
        code: i32,
        arg1: Option<&'c str>,
        arg2: Option<&'c str>,
        database_name: Option<&'c str>,
        accessor: Option<&'c str>,
    ) -> (ctx: Self)
        ensures
            ctx.action == auth_action_of(code, arg1, arg2),
            ctx.database_name == database_name,
            ctx.accessor == accessor,
    {
        AuthContext { action: AuthAction::from_raw(code, arg1, arg2), database_name, accessor }
    }
}

/// Each authorizer action code of `sqlite3.h` decodes to the action of the
/// same name, with its arguments in the fields SQLite documents for that
/// code: the first argument is the object named (the index, table,
/// trigger, view, pragma, database or file), the second the table it
/// belongs to, the column, the pragma's value, the module or the savepoint,
/// as the code says; a function call names the function in its second
/// argument. The statement uses the codes' numbers, so it pins the mapping
/// whatever the constants are called.
pub proof fn lemma_auth_action_codes<'c>(a: &'c str, b: &'c str, o1: Option<&'c str>, o2: Option<&'c str>)
    ensures
        auth_action_of(1, Some(a), Some(b)) == (AuthAction::CreateIndex { index_name: a, table_name: b }),
        auth_action_of(2, Some(a), o2) == (AuthAction::CreateTable { table_name: a }),
        auth_action_of(3, Some(a), Some(b)) == (AuthAction::CreateTempIndex { index_name: a, table_name: b }),
        auth_action_of(4, Some(a), o2) == (AuthAction::CreateTempTable { table_name: a }),
        auth_action_of(5, Some(a), Some(b)) == (AuthAction::CreateTempTrigger { trigger_name: a, table_name: b }),
        auth_action_of(6, Some(a), o2) == (AuthAction::CreateTempView { view_name: a }),
        auth_action_of(7, Some(a), Some(b)) == (AuthAction::CreateTrigger { trigger_name: a, table_name: b }),
        auth_action_of(8, Some(a), o2) == (AuthAction::CreateView { view_name: a }),
        auth_action_of(9, Some(a), None) == (AuthAction::Delete { table_name: a }),
        auth_action_of(10, Some(a), Some(b)) == (AuthAction::DropIndex { index_name: a, table_name: b }),
        auth_action_of(11, Some(a), o2) == (AuthAction::DropTable { table_name: a }),
        auth_action_of(12, Some(a), Some(b)) == (AuthAction::DropTempIndex { index_name: a, table_name: b }),
        auth_action_of(13, Some(a), o2) == (AuthAction::DropTempTable { table_name: a }),
        auth_action_of(14, Some(a), Some(b)) == (AuthAction::DropTempTrigger { trigger_name: a, table_name: b }),
        auth_action_of(15, Some(a), o2) == (AuthAction::DropTempView { view_name: a }),
        auth_action_of(16, Some(a), Some(b)) == (AuthAction::DropTrigger { trigger_name: a, table_name: b }),
        auth_action_of(17, Some(a), o2) == (AuthAction::DropView { view_name: a }),
        auth_action_of(18, Some(a), o2) == (AuthAction::Insert { table_name: a }),
        auth_action_of(19, Some(a), o2) == (AuthAction::Pragma { pragma_name: a, pragma_value: o2 }),
        auth_action_of(20, Some(a), Some(b)) == (AuthAction::Read { table_name: a, column_name: b }),
        auth_action_of(21, o1, o2) == AuthAction::Select,
        auth_action_of(22, Some(a), o2) == (AuthAction::Transaction { operation: transaction_operation_of(a@) }),
        auth_action_of(23, Some(a), Some(b)) == (AuthAction::Update { table_name: a, column_name: b }),
        auth_action_of(24, Some(a), o2) == (AuthAction::Attach { filename: a }),
        auth_action_of(25, Some(a), o2) == (AuthAction::Detach { database_name: a }),
        auth_action_of(26, Some(a), Some(b)) == (AuthAction::AlterTable { database_name: a, table_name: b }),
        auth_action_of(27, Some(a), o2) == (AuthAction::Reindex { index_name: a }),
        auth_action_of(28, Some(a), o2) == (AuthAction::Analyze { table_name: a }),
        auth_action_of(29, Some(a), Some(b)) == (AuthAction::CreateVtable { table_name: a, module_name: b }),
        auth_action_of(30, Some(a), Some(b)) == (AuthAction::DropVtable { table_name: a, module_name: b }),
        auth_action_of(31, o1, Some(b)) == (AuthAction::Function { function_name: b }),
        auth_action_of(32, Some(a), Some(b)) == (AuthAction::Savepoint {
            operation: transaction_operation_of(a@),
            savepoint_name: b,
        }),
        auth_action_of(33, o1, o2) == AuthAction::Recursive,
        transaction_operation_of("BEGIN"@) == TransactionOperation::Begin,
        transaction_operation_of("RELEASE"@) == TransactionOperation::Release,
        transaction_operation_of("ROLLBACK"@) == TransactionOperation::Rollback,
        (a@ != "BEGIN"@ && a@ != "RELEASE"@ && a@ != "ROLLBACK"@)
            ==> transaction_operation_of(a@) == TransactionOperation::Unknown,
{
    reveal_strlit("BEGIN");
    reveal_strlit("RELEASE");
    reveal_strlit("ROLLBACK");
    assert("BEGIN"@[0] != "RELEASE"@[0]);
    assert("BEGIN"@[0] != "ROLLBACK"@[0]);
    assert("RELEASE"@[1] != "ROLLBACK"@[1]);
}

/// A known action code with the arguments SQLite documents for it is
/// never reported as `Unknown`; and an `Unknown` report always carries
/// the raw code and arguments unchanged.
pub proof fn lemma_auth_action_unknown_keeps_raw<'c>(code: i32, arg1: Option<&'c str>, arg2: Option<&'c str>)
    ensures
        auth_action_of(code, arg1, arg2) is Unknown ==> {
            &&& auth_action_of(code, arg1, arg2)->Unknown_code == code
            &&& auth_action_of(code, arg1, arg2)->Unknown_arg1 == arg1
            &&& auth_action_of(code, arg1, arg2)->Unknown_arg2 == arg2
        },
        (codes::SQLITE_CREATE_INDEX <= code <= codes::SQLITE_RECURSIVE && arg1 is Some && arg2 is Some
            && code != codes::SQLITE_DELETE)
            ==> !(auth_action_of(code, arg1, arg2) is Unknown),
{
}

/// A string argument of an authorizer callback as the hook sees it: absent
/// when SQLite passed none, and also when its bytes are not UTF-8.
pub fn optional_str<'c>(bytes: Option<&'c [u8]>) -> (s: Option<&'c str>)
    ensures
        bytes is None ==> s is None,
        bytes matches Some(b) ==> (s is Some <==> vstd::utf8::valid_utf8(b@)),
        bytes matches Some(b) ==> (s matches Some(t) ==> t@ == vstd::utf8::decode_utf8(b@)),
{
    match bytes {
        None => None,
        Some(b) => match crate::util::str_from_utf8(b) {
            Ok(t) => {
                proof { crate::util::decode_utf8_encode_utf8_text(t); }
                Some(t)
            },
            Err(_) => None,
        },
    }
}

/// What a hook answering yes or no returns to SQLite (the commit hook, the
/// progress handler, a session's table filter): 1 for `true`; 0 for
/// `false`, and also when the hook panicked (`None`).
pub fn callback_answer(outcome: Option<bool>) -> (c: i32)
    ensures
        c == (if outcome == Some(true) { 1i32 } else { 0i32 }),
{
    match outcome {
        Some(true) => 1,
        _ => 0,
    }
}

/// What the authorizer callback returns to SQLite: the code of the hook's
/// authorization, or `SQLITE_ERROR` when the hook panicked (`None`).
pub fn authorizer_answer(outcome: Option<Authorization>) -> (c: i32)
    ensures
        c == (match outcome {
            Some(a) => authorization_code(a),
            None => codes::SQLITE_ERROR,
        }),
{
    match outcome {
        Some(auth) => auth.into_raw(),
        None => codes::SQLITE_ERROR,
    }
}

} // verus!
