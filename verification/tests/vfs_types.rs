use rusqlite::codes;
use rusqlite::hooks::{AuthAction, AuthContext, TransactionOperation};
use rusqlite::vfs::{
    self, AtomicWrite, Error, IoCapabilities, LockLevel, NoSupport, OpenFile, SyncOptions, VfsRegistration, WalLock,
    WalLockMode,
};

#[test]
fn lock_levels_round_trip() {
    for code in 0..=4 {
        assert_eq!(LockLevel::from_raw(code).to_raw(), code);
    }
    assert_eq!(LockLevel::from_raw(codes::SQLITE_LOCK_EXCLUSIVE), LockLevel::Exclusive);
    assert!(LockLevel::Shared < LockLevel::Reserved);
}

#[test]
fn wal_locks() {
    let w = WalLock::new(0, 3);
    assert!(w.write() && w.checkpoint() && w.recover());
    assert_eq!(w.read(0), Ok(false));
    let r = WalLock::new(4, 2);
    assert_eq!(r.read(1), Ok(true));
    assert_eq!(r.read(2), Ok(true));
    assert_eq!(r.read(0), Ok(false));
    assert_eq!(r.read(5), Err(Error::new(codes::SQLITE_MISUSE)));
    assert_eq!(WalLock::from_mask(0b110).mask, 0b110);
    assert_eq!(WalLockMode::try_from_raw(codes::SQLITE_SHM_LOCK | codes::SQLITE_SHM_SHARED), Ok(WalLockMode::Shared));
    assert_eq!(WalLockMode::try_from_raw(codes::SQLITE_SHM_LOCK | codes::SQLITE_SHM_EXCLUSIVE), Ok(WalLockMode::Exclusive));
    assert!(WalLockMode::try_from_raw(0).is_err());
    assert_eq!(WalLockMode::Exclusive.to_raw(), codes::SQLITE_SHM_EXCLUSIVE);
}

#[test]
fn io_capabilities_round_trip() {
    let caps = IoCapabilities {
        atomic_write: AtomicWrite::Always,
        safe_append: true,
        sequential: false,
        undeletable_when_open: false,
        powersafe_overwrite: true,
        immutable: false,
        batch_atomic: false,
        subpage_read: false,
    };
    let raw = caps.to_raw();
    assert_eq!(raw, codes::SQLITE_IOCAP_ATOMIC | codes::SQLITE_IOCAP_SAFE_APPEND | codes::SQLITE_IOCAP_POWERSAFE_OVERWRITE);
    assert_eq!(IoCapabilities::from_raw(raw), caps);
    let block = IoCapabilities::from_raw(codes::SQLITE_IOCAP_ATOMIC512 | codes::SQLITE_IOCAP_ATOMIC4K);
    assert_eq!(block.to_raw(), codes::SQLITE_IOCAP_ATOMIC512 | codes::SQLITE_IOCAP_ATOMIC4K);
    // No `ATOMIC*` bit: no atomic writes, whatever the other bits.
    let append = IoCapabilities::from_raw(codes::SQLITE_IOCAP_SAFE_APPEND);
    assert_eq!(append.atomic_write, AtomicWrite::Never);
    assert!(append.safe_append && !append.sequential && !append.powersafe_overwrite);
    assert_eq!(append.to_raw(), codes::SQLITE_IOCAP_SAFE_APPEND);
    assert_eq!(IoCapabilities::from_raw(0).atomic_write, AtomicWrite::Never);
}

#[test]
fn sync_options_and_open_flags() {
    let o = SyncOptions::from_raw(codes::SQLITE_SYNC_FULL | codes::SQLITE_SYNC_DATAONLY);
    assert!(o.full && o.data_only);
    assert_eq!(o.to_raw(), codes::SQLITE_SYNC_FULL | codes::SQLITE_SYNC_DATAONLY);
    let f = OpenFile::new(5u8).readonly();
    assert!(f.readonly);
    assert_eq!(f.out_flags(6), 6 | codes::SQLITE_OPEN_READONLY);
    assert_eq!(vfs::methods_version(false, false), 1);
    assert_eq!(vfs::methods_version(true, false), 2);
    assert_eq!(vfs::methods_version(true, true), 3);
}

#[test]
fn registration_builder() {
    let r: VfsRegistration<u8, vfs::VfsSupport<(u8, NoSupport, NoSupport)>> = VfsRegistration::new(7u8);
    assert_eq!(r.max_pathlen, 512);
    assert!(!r.make_default);
    let r = r.max_pathlen(1024).make_default();
    assert_eq!(r.max_pathlen, 1024);
    assert!(r.make_default);
    let r = r.with_fetch::<u16>().with_wal::<u32>();
    assert_eq!(r.vfs, 7);
    assert_eq!(r.max_pathlen, 1024);
}

#[test]
fn authorizer_actions() {
    assert_eq!(
        AuthAction::from_raw(codes::SQLITE_CREATE_INDEX, Some("idx"), Some("tbl")),
        AuthAction::CreateIndex { index_name: "idx", table_name: "tbl" }
    );
    assert_eq!(
        AuthAction::from_raw(codes::SQLITE_READ, Some("t"), Some("c")),
        AuthAction::Read { table_name: "t", column_name: "c" }
    );
    assert_eq!(
        AuthAction::from_raw(codes::SQLITE_TRANSACTION, Some("COMMIT"), None),
        AuthAction::Transaction { operation: TransactionOperation::Unknown }
    );
    assert_eq!(
        AuthAction::from_raw(codes::SQLITE_TRANSACTION, Some("BEGIN"), None),
        AuthAction::Transaction { operation: TransactionOperation::Begin }
    );
    assert_eq!(
        AuthAction::from_raw(codes::SQLITE_PRAGMA, Some("user_version"), None),
        AuthAction::Pragma { pragma_name: "user_version", pragma_value: None }
    );
    assert_eq!(AuthAction::from_raw(codes::SQLITE_SELECT, None, None), AuthAction::Select);
    assert_eq!(
        AuthAction::from_raw(9999, Some("x"), None),
        AuthAction::Unknown { code: 9999, arg1: Some("x"), arg2: None }
    );
    let ctx = AuthContext::from_raw(codes::SQLITE_INSERT, Some("t"), None, Some("main"), None);
    assert_eq!(ctx.action, AuthAction::Insert { table_name: "t" });
    assert_eq!(ctx.database_name, Some("main"));
}
