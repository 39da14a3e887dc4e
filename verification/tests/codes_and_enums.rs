use rusqlite::codes;
use rusqlite::config::DbConfig;
use rusqlite::limits::Limit;

#[test]
fn test_dbconfig_values() {
    let all = [
        (DbConfig::ForeignKeysEnabled, DbConfig::SQLITE_DBCONFIG_ENABLE_FKEY, codes::SQLITE_DBCONFIG_ENABLE_FKEY),
        (DbConfig::TriggersEnabled, DbConfig::SQLITE_DBCONFIG_ENABLE_TRIGGER, codes::SQLITE_DBCONFIG_ENABLE_TRIGGER),
        (
            DbConfig::Fts3TokenizerEnabled,
            DbConfig::SQLITE_DBCONFIG_ENABLE_FTS3_TOKENIZER,
            codes::SQLITE_DBCONFIG_ENABLE_FTS3_TOKENIZER,
        ),
        (DbConfig::NoCheckpointOnClose, DbConfig::SQLITE_DBCONFIG_NO_CKPT_ON_CLOSE, codes::SQLITE_DBCONFIG_NO_CKPT_ON_CLOSE),
        (DbConfig::QueryPlannerStabilityEnabled, DbConfig::SQLITE_DBCONFIG_ENABLE_QPSG, codes::SQLITE_DBCONFIG_ENABLE_QPSG),
        (DbConfig::TriggersInExplainQueryPlan, DbConfig::SQLITE_DBCONFIG_TRIGGER_EQP, codes::SQLITE_DBCONFIG_TRIGGER_EQP),
        (DbConfig::ResetDatabase, DbConfig::SQLITE_DBCONFIG_RESET_DATABASE, codes::SQLITE_DBCONFIG_RESET_DATABASE),
        (DbConfig::Defensive, DbConfig::SQLITE_DBCONFIG_DEFENSIVE, codes::SQLITE_DBCONFIG_DEFENSIVE),
        (DbConfig::WritableSchema, DbConfig::SQLITE_DBCONFIG_WRITABLE_SCHEMA, codes::SQLITE_DBCONFIG_WRITABLE_SCHEMA),
        (DbConfig::LegacyAlterTable, DbConfig::SQLITE_DBCONFIG_LEGACY_ALTER_TABLE, codes::SQLITE_DBCONFIG_LEGACY_ALTER_TABLE),
        (DbConfig::DoubleQuotedStringInDML, DbConfig::SQLITE_DBCONFIG_DQS_DML, codes::SQLITE_DBCONFIG_DQS_DML),
        (DbConfig::DoubleQuotedStringInDDL, DbConfig::SQLITE_DBCONFIG_DQS_DDL, codes::SQLITE_DBCONFIG_DQS_DDL),
        (DbConfig::EnableViews, DbConfig::SQLITE_DBCONFIG_ENABLE_VIEW, codes::SQLITE_DBCONFIG_ENABLE_VIEW),
        (DbConfig::LegacyFileFormat, DbConfig::SQLITE_DBCONFIG_LEGACY_FILE_FORMAT, codes::SQLITE_DBCONFIG_LEGACY_FILE_FORMAT),
        (DbConfig::TrustedSchema, DbConfig::SQLITE_DBCONFIG_TRUSTED_SCHEMA, codes::SQLITE_DBCONFIG_TRUSTED_SCHEMA),
    ];
    for (rust_name, sqlite_name, code) in all {
        assert_eq!(rust_name.code(), code);
        assert_eq!(sqlite_name.code(), code);
    }
}

#[test]
fn test_limit_values() {
    let all = [
        (Limit::Length, Limit::SQLITE_LIMIT_LENGTH, codes::SQLITE_LIMIT_LENGTH),
        (Limit::SqlLength, Limit::SQLITE_LIMIT_SQL_LENGTH, codes::SQLITE_LIMIT_SQL_LENGTH),
        (Limit::Columns, Limit::SQLITE_LIMIT_COLUMN, codes::SQLITE_LIMIT_COLUMN),
        (Limit::ExprDepth, Limit::SQLITE_LIMIT_EXPR_DEPTH, codes::SQLITE_LIMIT_EXPR_DEPTH),
        (Limit::CompoundSelectTerms, Limit::SQLITE_LIMIT_COMPOUND_SELECT, codes::SQLITE_LIMIT_COMPOUND_SELECT),
        (Limit::VdbeInstructions, Limit::SQLITE_LIMIT_VDBE_OP, codes::SQLITE_LIMIT_VDBE_OP),
        (Limit::FunctionArgs, Limit::SQLITE_LIMIT_FUNCTION_ARG, codes::SQLITE_LIMIT_FUNCTION_ARG),
        (Limit::AttachedDatabases, Limit::SQLITE_LIMIT_ATTACHED, codes::SQLITE_LIMIT_ATTACHED),
        (Limit::LikePatternLength, Limit::SQLITE_LIMIT_LIKE_PATTERN_LENGTH, codes::SQLITE_LIMIT_LIKE_PATTERN_LENGTH),
        (Limit::NumParams, Limit::SQLITE_LIMIT_VARIABLE_NUMBER, codes::SQLITE_LIMIT_VARIABLE_NUMBER),
        (Limit::TriggerDepth, Limit::SQLITE_LIMIT_TRIGGER_DEPTH, codes::SQLITE_LIMIT_TRIGGER_DEPTH),
        (Limit::WorkerThreads, Limit::SQLITE_LIMIT_WORKER_THREADS, codes::SQLITE_LIMIT_WORKER_THREADS),
    ];
    for (rust_name, sqlite_name, code) in all {
        assert_eq!(rust_name.code(), code);
        assert_eq!(sqlite_name.code(), code);
    }
    assert_eq!(Limit::TriggerDepth.code(), 10);
    assert_eq!(Limit::WorkerThreads.code(), 11);
}

#[test]
fn db_config_first_and_last_codes() {
    assert_eq!(DbConfig::ForeignKeysEnabled.code(), 1002);
    assert_eq!(DbConfig::DoubleQuotedStringInDDL.code(), 1014);
    assert_eq!(DbConfig::TrustedSchema.code(), 1017);
}
