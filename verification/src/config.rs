//! Database connection configuration options.

use vstd::prelude::*;
use crate::codes;

verus! {

/// Database connection configuration options, for use with
/// `Connection::db_config` and `Connection::set_db_config`.
#[derive(Clone, Copy, Debug, PartialEq, Eq, Structural)]
#[non_exhaustive]
pub enum DbConfig {
    /// Enable or disable the enforcement of foreign key constraints.
    ForeignKeysEnabled,
    /// Enable or disable triggers.
    TriggersEnabled,
    /// Enable or disable the fts3_tokenizer() function.
    Fts3TokenizerEnabled,
    /// Skip the checkpoint when the last connection to a WAL database closes.
    NoCheckpointOnClose,
    /// Enable or disable the query planner stability guarantee.
    QueryPlannerStabilityEnabled,
    /// Include triggers in the output of EXPLAIN QUERY PLAN.
    TriggersInExplainQueryPlan,
    /// Reset a database back to an empty database with no schema.
    ResetDatabase,
    /// Activate or deactivate the "defensive" flag.
    Defensive,
    /// Activate or deactivate the "writable_schema" flag.
    WritableSchema,
    /// Activate or deactivate the legacy behavior of ALTER TABLE RENAME.
    LegacyAlterTable,
    /// Activate or deactivate double-quoted string literals in DML.
    DoubleQuotedStringInDML,
    /// Activate or deactivate double-quoted string literals in DDL.
    DoubleQuotedStringInDDL,
    /// Enable or disable views.
    EnableViews,
    /// Activate or deactivate the legacy file format flag.
    LegacyFileFormat,
    /// Tell SQLite to assume that database schemas are untainted.
    TrustedSchema,
}

/// The `SQLITE_DBCONFIG_*` code of an option.
pub open spec fn db_config_code(config: DbConfig) -> i32 {
    match config {
        DbConfig::ForeignKeysEnabled => codes::SQLITE_DBCONFIG_ENABLE_FKEY,
        DbConfig::TriggersEnabled => codes::SQLITE_DBCONFIG_ENABLE_TRIGGER,
        DbConfig::Fts3TokenizerEnabled => codes::SQLITE_DBCONFIG_ENABLE_FTS3_TOKENIZER,
        DbConfig::NoCheckpointOnClose => codes::SQLITE_DBCONFIG_NO_CKPT_ON_CLOSE,
        DbConfig::QueryPlannerStabilityEnabled => codes::SQLITE_DBCONFIG_ENABLE_QPSG,
        DbConfig::TriggersInExplainQueryPlan => codes::SQLITE_DBCONFIG_TRIGGER_EQP,
        DbConfig::ResetDatabase => codes::SQLITE_DBCONFIG_RESET_DATABASE,
        DbConfig::Defensive => codes::SQLITE_DBCONFIG_DEFENSIVE,
        DbConfig::WritableSchema => codes::SQLITE_DBCONFIG_WRITABLE_SCHEMA,
        DbConfig::LegacyAlterTable => codes::SQLITE_DBCONFIG_LEGACY_ALTER_TABLE,
        DbConfig::DoubleQuotedStringInDML => codes::SQLITE_DBCONFIG_DQS_DML,
        DbConfig::DoubleQuotedStringInDDL => codes::SQLITE_DBCONFIG_DQS_DDL,
        DbConfig::EnableViews => codes::SQLITE_DBCONFIG_ENABLE_VIEW,
        DbConfig::LegacyFileFormat => codes::SQLITE_DBCONFIG_LEGACY_FILE_FORMAT,
        DbConfig::TrustedSchema => codes::SQLITE_DBCONFIG_TRUSTED_SCHEMA,
    }
}

impl DbConfig {
    /// An alias for `DbConfig::ForeignKeysEnabled`.
    pub const SQLITE_DBCONFIG_ENABLE_FKEY: DbConfig = DbConfig::ForeignKeysEnabled;
    /// An alias for `DbConfig::TriggersEnabled`.
    pub const SQLITE_DBCONFIG_ENABLE_TRIGGER: DbConfig = DbConfig::TriggersEnabled;
    /// An alias for `DbConfig::Fts3TokenizerEnabled`.
    pub const SQLITE_DBCONFIG_ENABLE_FTS3_TOKENIZER: DbConfig = DbConfig::Fts3TokenizerEnabled;
    /// An alias for `DbConfig::NoCheckpointOnClose`.
    pub const SQLITE_DBCONFIG_NO_CKPT_ON_CLOSE: DbConfig = DbConfig::NoCheckpointOnClose;
    /// An alias for `DbConfig::QueryPlannerStabilityEnabled`.
    pub const SQLITE_DBCONFIG_ENABLE_QPSG: DbConfig = DbConfig::QueryPlannerStabilityEnabled;
    /// An alias for `DbConfig::TriggersInExplainQueryPlan`.
    pub const SQLITE_DBCONFIG_TRIGGER_EQP: DbConfig = DbConfig::TriggersInExplainQueryPlan;
    /// An alias for `DbConfig::ResetDatabase`.
    pub const SQLITE_DBCONFIG_RESET_DATABASE: DbConfig = DbConfig::ResetDatabase;
    /// An alias for `DbConfig::Defensive`.
    pub const SQLITE_DBCONFIG_DEFENSIVE: DbConfig = DbConfig::Defensive;
    /// An alias for `DbConfig::WritableSchema`.
    pub const SQLITE_DBCONFIG_WRITABLE_SCHEMA: DbConfig = DbConfig::WritableSchema;
    /// An alias for `DbConfig::LegacyAlterTable`.
    pub const SQLITE_DBCONFIG_LEGACY_ALTER_TABLE: DbConfig = DbConfig::LegacyAlterTable;
    /// An alias for `DbConfig::DoubleQuotedStringInDML`.
    pub const SQLITE_DBCONFIG_DQS_DML: DbConfig = DbConfig::DoubleQuotedStringInDML;
    /// An alias for `DbConfig::DoubleQuotedStringInDDL`.
    pub const SQLITE_DBCONFIG_DQS_DDL: DbConfig = DbConfig::DoubleQuotedStringInDDL;
    /// An alias for `DbConfig::EnableViews`.
    pub const SQLITE_DBCONFIG_ENABLE_VIEW: DbConfig = DbConfig::EnableViews;
    /// An alias for `DbConfig::LegacyFileFormat`.
    pub const SQLITE_DBCONFIG_LEGACY_FILE_FORMAT: DbConfig = DbConfig::LegacyFileFormat;
    /// An alias for `DbConfig::TrustedSchema`.
    pub const SQLITE_DBCONFIG_TRUSTED_SCHEMA: DbConfig = DbConfig::TrustedSchema;

    /// The `SQLITE_DBCONFIG_*` code handed to `sqlite3_db_config`.
    pub fn code(self) -> (c: i32)
        ensures
            c == db_config_code(self),
    {
        match self {
            DbConfig::ForeignKeysEnabled => codes::SQLITE_DBCONFIG_ENABLE_FKEY,
            DbConfig::TriggersEnabled => codes::SQLITE_DBCONFIG_ENABLE_TRIGGER,
            DbConfig::Fts3TokenizerEnabled => codes::SQLITE_DBCONFIG_ENABLE_FTS3_TOKENIZER,
            DbConfig::NoCheckpointOnClose => codes::SQLITE_DBCONFIG_NO_CKPT_ON_CLOSE,
            DbConfig::QueryPlannerStabilityEnabled => codes::SQLITE_DBCONFIG_ENABLE_QPSG,
            DbConfig::TriggersInExplainQueryPlan => codes::SQLITE_DBCONFIG_TRIGGER_EQP,
            DbConfig::ResetDatabase => codes::SQLITE_DBCONFIG_RESET_DATABASE,
            DbConfig::Defensive => codes::SQLITE_DBCONFIG_DEFENSIVE,
            DbConfig::WritableSchema => codes::SQLITE_DBCONFIG_WRITABLE_SCHEMA,
            DbConfig::LegacyAlterTable => codes::SQLITE_DBCONFIG_LEGACY_ALTER_TABLE,
            DbConfig::DoubleQuotedStringInDML => codes::SQLITE_DBCONFIG_DQS_DML,
            DbConfig::DoubleQuotedStringInDDL => codes::SQLITE_DBCONFIG_DQS_DDL,
            DbConfig::EnableViews => codes::SQLITE_DBCONFIG_ENABLE_VIEW,
            DbConfig::LegacyFileFormat => codes::SQLITE_DBCONFIG_LEGACY_FILE_FORMAT,
            DbConfig::TrustedSchema => codes::SQLITE_DBCONFIG_TRUSTED_SCHEMA,
        }
    }
}

/// Distinct options have distinct codes.
pub proof fn lemma_db_config_codes_distinct(a: DbConfig, b: DbConfig)
    ensures
        (db_config_code(a) == db_config_code(b)) == (a == b),
        1002 <= db_config_code(a) <= 1017,
{
}

} // verus!
