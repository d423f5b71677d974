//! The upgradeable-contract pattern: admin-gated WASM replacement, versioned migrations
//! run once after an upgrade, and transfer of the admin role.
use vstd::prelude::*;
use crate::common::Addr;

pub mod migration;

use self::migration::{run, migrated};

verus! {

/// Why an upgradeable-contract operation was refused.
#[derive(Copy, Clone, Debug, PartialEq, Eq, Structural)]
pub enum UpgradeableError {
    /// initialize() has already been called.
    AlreadyInitialized,
    /// The caller is not the admin.
    NotAdmin,
    /// The migration failed to complete.
    MigrationFailed,
}

impl UpgradeableError {
    /// The stable on-chain number of this error.
    pub fn code(&self) -> (c: u32)
        ensures
            c == match *self {
                UpgradeableError::AlreadyInitialized => 1u32,
                UpgradeableError::NotAdmin => 2u32,
                UpgradeableError::MigrationFailed => 3u32,
            },
    {
        match self {
            UpgradeableError::AlreadyInitialized => 1,
            UpgradeableError::NotAdmin => 2,
            UpgradeableError::MigrationFailed => 3,
        }
    }
}

/// An event that an upgradeable-contract operation publishes.
#[derive(Copy, Clone, Debug, PartialEq, Eq)]
pub enum UpgradeableEvent {
    Initialized { admin: Addr, version: u32 },
    /// The contract's code was replaced by the WASM with this hash.
    Upgraded { new_wasm_hash: [u8; 32] },
    Migrated { from_version: u32, to_version: u32 },
    AdminTransferred { from: Addr, to: Addr },
}

/// The contract's ledger state, as mathematical values.
pub struct UpgradeableState {
    pub admin: Option<Addr>,
    /// The stored version; absent reads as 0.
    pub version: Option<u32>,
}

impl UpgradeableState {
    pub open spec fn is_initialized(self) -> bool {
        self.admin is Some
    }

    /// The current version: the stored one, or 0.
    pub open spec fn current_version(self) -> u32 {
        match self.version {
            Some(v) => v,
            None => 0,
        }
    }

    /// As the operations keep it: once initialized, the version is at least 1.
    pub open spec fn well_formed(self) -> bool {
        self.is_initialized() ==> self.current_version() >= 1
    }
}

/// The upgradeable contract.
pub struct UpgradeableContract {
    admin: Option<Addr>,
    version: Option<u32>,
}

impl View for UpgradeableContract {
    type V = UpgradeableState;

    closed spec fn view(&self) -> UpgradeableState {
        UpgradeableState { admin: self.admin, version: self.version }
    }
}

impl UpgradeableContract {
    /// A contract with nothing stored.
    pub fn new() -> (c: UpgradeableContract)
        ensures
            c@.admin is None,
            c@.version is None,
            c@.well_formed(),
    {
        UpgradeableContract { admin: None, version: None }
    }

    // ----- storage layer -----

    pub fn set_admin(&mut self, admin: Addr)
        ensures
            final(self)@ == (UpgradeableState { admin: Some(admin), ..old(self)@ }),
    {
        self.admin = Some(admin);
    }

    pub fn get_admin(&self) -> (a: Addr)
        requires
            self@.is_initialized(),
        ensures
            a == self@.admin->0,
    {
        self.admin.unwrap()
    }

    pub fn set_version(&mut self, version: u32)
        ensures
            final(self)@ == (UpgradeableState { version: Some(version), ..old(self)@ }),
    {
        self.version = Some(version);
    }

    /// The stored version; 0 where none is stored.
    pub fn get_version(&self) -> (v: u32)
        ensures
            v == self@.current_version(),
    {
        match self.version {
            Some(v) => v,
            None => 0,
        }
    }

    /// Whether an admin is stored, i.e. whether initialize() has run.
    pub fn is_initialized(&self) -> (b: bool)
        ensures
            b == self@.is_initialized(),
    {
        self.admin.is_some()
    }

    // ----- contract interface -----

    /// Stores the admin and version 1. Refused with `AlreadyInitialized`, changing nothing,
    /// once an admin is stored.
    pub fn initialize(&mut self, admin: Addr) -> (r: Result<UpgradeableEvent, UpgradeableError>)
        ensures
            old(self)@.is_initialized() ==> r == Err::<UpgradeableEvent, UpgradeableError>(
                UpgradeableError::AlreadyInitialized,
            ) && final(self)@ == old(self)@,
            !old(self)@.is_initialized() ==> r == Ok::<UpgradeableEvent, UpgradeableError>(
                UpgradeableEvent::Initialized { admin, version: 1 },
            ) && final(self)@ == (UpgradeableState { admin: Some(admin), version: Some(1) }),
            old(self)@.well_formed() ==> final(self)@.well_formed(),
    {
        if self.is_initialized() {
            return Err(UpgradeableError::AlreadyInitialized);
        }
        self.set_admin(admin);
        self.set_version(1);
        Ok(UpgradeableEvent::Initialized { admin, version: 1 })
    }

    /// Asks for the code to be replaced by the WASM with hash `new_wasm_hash`, which the
    /// host does. Returns the address that must authorize (the admin) and the `Upgraded`
    /// event; the stored state is untouched.
    pub fn upgrade(&self, new_wasm_hash: [u8; 32]) -> (r: (Addr, UpgradeableEvent))
        requires
            self@.is_initialized(),
        ensures
            r.0 == self@.admin->0,
            r.1 == (UpgradeableEvent::Upgraded { new_wasm_hash }),
    {
        let admin = self.get_admin();
        (admin, UpgradeableEvent::Upgraded { new_wasm_hash })
    }

    /// Runs the migration from the current version and stores the result. Returns the
    /// address that must authorize (the admin) and the `Migrated` event. Idempotent once
    /// initialized (see `lemma_migrate_idempotent`).
    pub fn migrate(&mut self) -> (r: (Addr, UpgradeableEvent))
        requires
            old(self)@.is_initialized(),
        ensures
            r.0 == old(self)@.admin->0,
            r.1 == (UpgradeableEvent::Migrated {
                from_version: old(self)@.current_version(),
                to_version: migrated(old(self)@.current_version()),
            }),
            final(self)@ == (UpgradeableState {
                version: Some(migrated(old(self)@.current_version())),
                ..old(self)@
            }),
            old(self)@.well_formed() ==> final(self)@.well_formed(),
    {
        let admin = self.get_admin();
        let current_version = self.get_version();
        let new_version = run(current_version);
        self.set_version(new_version);
        (admin, UpgradeableEvent::Migrated { from_version: current_version, to_version: new_version })
    }

    /// The current version.
    pub fn version(&self) -> (v: u32)
        ensures
            v == self@.current_version(),
    {
        self.get_version()
    }

    /// The current admin.
    pub fn admin(&self) -> (a: Addr)
        requires
            self@.is_initialized(),
        ensures
            a == self@.admin->0,
    {
        self.get_admin()
    }

    /// The admin (`current_admin`, who must authorize) hands the admin role to
    /// `new_admin`. Refused with `NotAdmin`, changing nothing, when `current_admin` is not
    /// the stored admin.
    pub fn transfer_admin(&mut self, current_admin: Addr, new_admin: Addr) -> (r: Result<
        UpgradeableEvent,
        UpgradeableError,
    >)
        requires
            old(self)@.is_initialized(),
        ensures
            current_admin != old(self)@.admin->0 ==> r == Err::<UpgradeableEvent, UpgradeableError>(
                UpgradeableError::NotAdmin,
            ) && final(self)@ == old(self)@,
            current_admin == old(self)@.admin->0 ==> r == Ok::<UpgradeableEvent, UpgradeableError>(
                UpgradeableEvent::AdminTransferred { from: current_admin, to: new_admin },
            ) && final(self)@ == (UpgradeableState { admin: Some(new_admin), ..old(self)@ }),
            old(self)@.well_formed() ==> final(self)@.well_formed(),
    {
        let stored = self.get_admin();
        if current_admin != stored {
            return Err(UpgradeableError::NotAdmin);
        }
        self.set_admin(new_admin);
        Ok(UpgradeableEvent::AdminTransferred { from: current_admin, to: new_admin })
    }
}

/// migrate() is idempotent: on an initialized contract as the operations keep it, a
/// second migrate leaves the version where the first left it.
pub proof fn lemma_migrate_idempotent(s: UpgradeableState)
    requires
        s.is_initialized(),
        s.well_formed(),
    ensures
        ({
            let once = UpgradeableState { version: Some(migrated(s.current_version())), ..s };
            let twice = UpgradeableState { version: Some(migrated(once.current_version())), ..once };
            twice == once
        }),
{
    migration::lemma_migration_idempotent(s.current_version());
}

} // verus!
