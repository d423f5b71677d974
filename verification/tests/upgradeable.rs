use soroban_devkit_contracts::common::Addr;
use soroban_devkit_contracts::upgradeable::migration::{run, LATEST_VERSION};
use soroban_devkit_contracts::upgradeable::{
    UpgradeableContract, UpgradeableError, UpgradeableEvent,
};

const ADMIN: Addr = 1;
const NEW_ADMIN: Addr = 2;
const ANOTHER_ADMIN: Addr = 3;
const ATTACKER: Addr = 4;

fn setup() -> UpgradeableContract {
    let mut c = UpgradeableContract::new();
    c.initialize(ADMIN).unwrap();
    c
}

#[test]
fn test_initialize_sets_version_1() {
    let c = setup();
    assert_eq!(c.version(), 1);
    assert_eq!(c.admin(), ADMIN);
}

#[test]
fn test_migrate_is_idempotent() {
    let mut c = setup();
    c.migrate();
    let version_after_first = c.version();
    c.migrate();
    assert_eq!(c.version(), version_after_first);
}

#[test]
fn lib_test_double_initialize_panics() {
    let mut c = setup();
    assert_eq!(c.initialize(ADMIN), Err(UpgradeableError::AlreadyInitialized));
}

#[test]
fn test_transfer_admin_moves_admin_rights() {
    let mut c = setup();
    c.transfer_admin(ADMIN, NEW_ADMIN).unwrap();
    assert_eq!(c.admin(), NEW_ADMIN);
    c.transfer_admin(NEW_ADMIN, ANOTHER_ADMIN).unwrap();
    assert_eq!(c.admin(), ANOTHER_ADMIN);
}

#[test]
fn test_transfer_admin_rejects_a_stale_current_admin() {
    let mut c = setup();
    assert_eq!(c.transfer_admin(ATTACKER, NEW_ADMIN), Err(UpgradeableError::NotAdmin));
    assert_eq!(c.admin(), ADMIN);
}

#[test]
fn upgradeable_initialize_reports_event() {
    let mut c = UpgradeableContract::new();
    assert_eq!(c.version(), 0);
    assert_eq!(c.initialize(ADMIN), Ok(UpgradeableEvent::Initialized { admin: ADMIN, version: 1 }));
}

#[test]
fn upgradeable_migrate_moves_one_to_two() {
    let mut c = setup();
    let (authorizer, event) = c.migrate();
    assert_eq!(authorizer, ADMIN);
    assert_eq!(event, UpgradeableEvent::Migrated { from_version: 1, to_version: 2 });
    assert_eq!(c.version(), 2);
    assert_eq!(c.migrate().1, UpgradeableEvent::Migrated { from_version: 2, to_version: 2 });
}

#[test]
fn upgradeable_upgrade_is_admin_gated_and_changes_no_state() {
    let c = setup();
    let hash = [7u8; 32];
    let (authorizer, event) = c.upgrade(hash);
    assert_eq!(authorizer, ADMIN);
    assert_eq!(event, UpgradeableEvent::Upgraded { new_wasm_hash: hash });
    assert_eq!(c.version(), 1);
}

#[test]
fn upgradeable_old_admin_loses_rights_after_transfer() {
    let mut c = setup();
    c.transfer_admin(ADMIN, NEW_ADMIN).unwrap();
    assert_eq!(c.transfer_admin(ADMIN, ATTACKER), Err(UpgradeableError::NotAdmin));
}

#[test]
fn migration_run_steps_toward_latest() {
    assert_eq!(LATEST_VERSION, 2);
    assert_eq!(run(0), 1);
    assert_eq!(run(1), 2);
    assert_eq!(run(2), 2);
    assert_eq!(run(9), 9);
}

#[test]
fn upgradeable_error_codes_are_stable() {
    assert_eq!(UpgradeableError::AlreadyInitialized.code(), 1);
    assert_eq!(UpgradeableError::NotAdmin.code(), 2);
    assert_eq!(UpgradeableError::MigrationFailed.code(), 3);
}
