//! Role-based access control.
//!
//! Roles are open-ended symbols. A super admin, fixed at initialization, may grant and
//! revoke any role and designate, for each role, an admin role whose holders may grant and
//! revoke it too. The super admin holds no role until one is granted explicitly.
use std::collections::HashMap;
use vstd::prelude::*;
use crate::common::{Addr, Sym, pair_key, pair_view, lemma_pair_view_insert};

verus! {

broadcast use vstd::std_specs::hash::group_hash_axioms;

/// Why an access-control operation was refused.
#[derive(Copy, Clone, Debug, PartialEq, Eq, Structural)]
pub enum AccessControlError {
    /// The caller is not the super admin.
    NotSuperAdmin,
    /// The caller does not hold the admin role of the target role.
    NotRoleAdmin,
    /// No admin role has been set for the target role.
    RoleAdminNotSet,
    /// initialize() has already been called.
    AlreadyInitialized,
}

impl AccessControlError {
    /// The stable on-chain number of this error.
    pub fn code(&self) -> (c: u32)
        ensures
            c == match *self {
                AccessControlError::NotSuperAdmin => 1u32,
                AccessControlError::NotRoleAdmin => 2u32,
                AccessControlError::RoleAdminNotSet => 3u32,
                AccessControlError::AlreadyInitialized => 4u32,
            },
    {
        match self {
            AccessControlError::NotSuperAdmin => 1,
            AccessControlError::NotRoleAdmin => 2,
            AccessControlError::RoleAdminNotSet => 3,
            AccessControlError::AlreadyInitialized => 4,
        }
    }
}

/// An event that an access-control operation publishes.
#[derive(Copy, Clone, Debug, PartialEq, Eq, Structural)]
pub enum AccessControlEvent {
    RoleGranted { role: Sym, to: Addr, by: Addr },
    RoleRevoked { role: Sym, from: Addr, by: Addr },
}

/// The contract's ledger state, as mathematical values.
pub struct AccessControlState {
    pub super_admin: Option<Addr>,
    /// Stored memberships, keyed by `(role, address)`; no entry means no membership.
    pub roles: Map<(Sym, Addr), bool>,
    /// The admin role of each role that has one.
    pub role_admins: Map<Sym, Sym>,
}

impl AccessControlState {
    pub open spec fn is_initialized(self) -> bool {
        self.super_admin is Some
    }

    /// Whether `addr` holds `role`.
    pub open spec fn has_role(self, role: Sym, addr: Addr) -> bool {
        self.roles.contains_key((role, addr)) && self.roles[(role, addr)]
    }

    /// Whether `caller` may grant and revoke `role`: it is the super admin, or `role` has an
    /// admin role and `caller` holds it.
    pub open spec fn may_administer(self, caller: Addr, role: Sym) -> bool {
        ||| caller == self.super_admin->0
        ||| self.role_admins.contains_key(role) && self.has_role(self.role_admins[role], caller)
    }

    /// Why `caller` may not administer `role`, when it may not.
    pub open spec fn refusal(self, caller: Addr, role: Sym) -> AccessControlError {
        if !self.role_admins.contains_key(role) {
            AccessControlError::RoleAdminNotSet
        } else {
            AccessControlError::NotRoleAdmin
        }
    }

    pub open spec fn with_role(self, role: Sym, addr: Addr, value: bool) -> AccessControlState {
        AccessControlState { roles: self.roles.insert((role, addr), value), ..self }
    }
}

/// The access-control contract.
pub struct AccessControlContract {
    super_admin: Option<Addr>,
    roles: HashMap<u128, bool>,
    role_admins: HashMap<Sym, Sym>,
}

impl View for AccessControlContract {
    type V = AccessControlState;

    closed spec fn view(&self) -> AccessControlState {
        AccessControlState {
            super_admin: self.super_admin,
            roles: pair_view(self.roles@),
            role_admins: self.role_admins@,
        }
    }
}

impl AccessControlContract {
    /// A contract with nothing stored.
    pub fn new() -> (c: AccessControlContract)
        ensures
            c@.super_admin is None,
            c@.roles == Map::<(Sym, Addr), bool>::empty(),
            c@.role_admins == Map::<Sym, Sym>::empty(),
    {
        let c = AccessControlContract {
            super_admin: None,
            roles: HashMap::new(),
            role_admins: HashMap::new(),
        };
        assert(pair_view(c.roles@) =~= Map::<(Sym, Addr), bool>::empty());
        c
    }

    // ----- storage layer -----

    /// Whether a super admin is stored, i.e. whether initialize() has run.
    pub fn is_initialized(&self) -> (b: bool)
        ensures
            b == self@.is_initialized(),
    {
        self.super_admin.is_some()
    }

    pub fn set_super_admin(&mut self, addr: Addr)
        ensures
            final(self)@ == (AccessControlState { super_admin: Some(addr), ..old(self)@ }),
    {
        self.super_admin = Some(addr);
    }

    pub fn get_super_admin(&self) -> (a: Addr)
        requires
            self@.is_initialized(),
        ensures
            a == self@.super_admin->0,
    {
        self.super_admin.unwrap()
    }

    /// Stores whether `addr` holds `role`.
    pub fn set_role(&mut self, role: Sym, addr: Addr, has_role: bool)
        ensures
            final(self)@ == old(self)@.with_role(role, addr, has_role),
    {
        let ghost before = self.roles@;
        self.roles.insert(pair_key(role, addr), has_role);
        proof {
            lemma_pair_view_insert(before, role, addr, has_role);
        }
    }

    /// Whether `addr` holds `role`; false where nothing is stored.
    pub fn get_role(&self, role: Sym, addr: Addr) -> (b: bool)
        ensures
            b == self@.has_role(role, addr),
    {
        match self.roles.get(&pair_key(role, addr)) {
            Some(v) => *v,
            None => false,
        }
    }

    /// Stores `admin_role` as the admin role of `role`.
    pub fn store_role_admin(&mut self, role: Sym, admin_role: Sym)
        ensures
            final(self)@ == (AccessControlState {
                role_admins: old(self)@.role_admins.insert(role, admin_role),
                ..old(self)@
            }),
    {
        self.role_admins.insert(role, admin_role);
    }

    /// The admin role of `role`, if one is set.
    pub fn get_role_admin(&self, role: Sym) -> (r: Option<Sym>)
        ensures
            self@.role_admins.contains_key(role) ==> r == Some(self@.role_admins[role]),
            !self@.role_admins.contains_key(role) ==> r is None,
    {
        match self.role_admins.get(&role) {
            Some(a) => Some(*a),
            None => None,
        }
    }

    /// `Ok` when `caller` may administer `role`; else `RoleAdminNotSet` when `role` has no
    /// admin role, `NotRoleAdmin` when `caller` does not hold it.
    pub fn require_role_admin(&self, caller: Addr, role: Sym) -> (r: Result<(), AccessControlError>)
        requires
            self@.is_initialized(),
        ensures
            self@.may_administer(caller, role) ==> r is Ok,
            !self@.may_administer(caller, role) ==> r == Err::<(), AccessControlError>(
                self@.refusal(caller, role),
            ),
    {
        let super_admin = self.get_super_admin();
        if caller == super_admin {
            return Ok(());
        }
        let admin_role = match self.get_role_admin(role) {
            Some(a) => a,
            None => return Err(AccessControlError::RoleAdminNotSet),
        };
        if !self.get_role(admin_role, caller) {
            return Err(AccessControlError::NotRoleAdmin);
        }
        Ok(())
    }

    // ----- contract interface -----

    /// Stores the super admin; no role is granted to anyone. Refused with
    /// `AlreadyInitialized`, changing nothing, once a super admin is stored.
    pub fn initialize(&mut self, super_admin: Addr) -> (r: Result<(), AccessControlError>)
        ensures
            old(self)@.is_initialized() ==> r == Err::<(), AccessControlError>(
                AccessControlError::AlreadyInitialized,
            ) && final(self)@ == old(self)@,
            !old(self)@.is_initialized() ==> r is Ok && final(self)@ == (AccessControlState {
                super_admin: Some(super_admin),
                ..old(self)@
            }),
    {
        if self.is_initialized() {
            return Err(AccessControlError::AlreadyInitialized);
        }
        self.set_super_admin(super_admin);
        Ok(())
    }

    /// `caller` (who must authorize) grants `role` to `to`. Refused, changing nothing, as
    /// require_role_admin refuses.
    pub fn grant_role(&mut self, caller: Addr, role: Sym, to: Addr) -> (r: Result<
        AccessControlEvent,
        AccessControlError,
    >)
        requires
            old(self)@.is_initialized(),
        ensures
            old(self)@.may_administer(caller, role) ==> r == Ok::<
                AccessControlEvent,
                AccessControlError,
            >(AccessControlEvent::RoleGranted { role, to, by: caller }) && final(self)@ == old(self)@.with_role(role, to, true) && final(self)@.has_role(role, to),
            !old(self)@.may_administer(caller, role) ==> r == Err::<
                AccessControlEvent,
                AccessControlError,
            >(old(self)@.refusal(caller, role)) && final(self)@ == old(self)@,
    {
        match self.require_role_admin(caller, role) {
            Ok(()) => {},
            Err(e) => return Err(e),
        }
        self.set_role(role, to, true);
        Ok(AccessControlEvent::RoleGranted { role, to, by: caller })
    }

    /// `caller` (who must authorize) revokes `role` from `from`. Refused, changing nothing,
    /// as require_role_admin refuses.
    pub fn revoke_role(&mut self, caller: Addr, role: Sym, from: Addr) -> (r: Result<
        AccessControlEvent,
        AccessControlError,
    >)
        requires
            old(self)@.is_initialized(),
        ensures
            old(self)@.may_administer(caller, role) ==> r == Ok::<
                AccessControlEvent,
                AccessControlError,
            >(AccessControlEvent::RoleRevoked { role, from, by: caller }) && final(self)@ == old(self)@.with_role(role, from, false) && !final(self)@.has_role(role, from),
            !old(self)@.may_administer(caller, role) ==> r == Err::<
                AccessControlEvent,
                AccessControlError,
            >(old(self)@.refusal(caller, role)) && final(self)@ == old(self)@,
    {
        match self.require_role_admin(caller, role) {
            Ok(()) => {},
            Err(e) => return Err(e),
        }
        self.set_role(role, from, false);
        Ok(AccessControlEvent::RoleRevoked { role, from, by: caller })
    }

    /// Whether `addr` holds `role`.
    pub fn has_role(&self, role: Sym, addr: Addr) -> (b: bool)
        ensures
            b == self@.has_role(role, addr),
    {
        self.get_role(role, addr)
    }

    /// The super admin (`caller`, who must authorize) makes `admin_role` the admin role of
    /// `role`. Refused with `NotSuperAdmin`, changing nothing, for anyone else.
    pub fn set_role_admin(&mut self, caller: Addr, role: Sym, admin_role: Sym) -> (r: Result<
        (),
        AccessControlError,
    >)
        requires
            old(self)@.is_initialized(),
        ensures
            caller != old(self)@.super_admin->0 ==> r == Err::<(), AccessControlError>(
                AccessControlError::NotSuperAdmin,
            ) && final(self)@ == old(self)@,
            caller == old(self)@.super_admin->0 ==> r is Ok && final(self)@ == (AccessControlState {
                role_admins: old(self)@.role_admins.insert(role, admin_role),
                ..old(self)@
            }),
    {
        let super_admin = self.get_super_admin();
        if caller != super_admin {
            return Err(AccessControlError::NotSuperAdmin);
        }
        self.store_role_admin(role, admin_role);
        Ok(())
    }
}

/// A grant is seen by has_role for that role and address, and changes no other
/// membership; a revoke likewise removes exactly that membership.
pub proof fn lemma_grant_revoke_read_back(s: AccessControlState, role: Sym, addr: Addr, role2: Sym, addr2: Addr)
    ensures
        s.with_role(role, addr, true).has_role(role, addr),
        !s.with_role(role, addr, false).has_role(role, addr),
        (role2, addr2) != (role, addr) ==> s.with_role(role, addr, true).has_role(role2, addr2)
            == s.has_role(role2, addr2) && s.with_role(role, addr, false).has_role(role2, addr2)
            == s.has_role(role2, addr2),
{
}

/// Delegation: once the super admin has made `admin_role` the admin role of `role` and
/// granted `admin_role` to `delegate`, the delegate may administer `role`.
pub proof fn lemma_delegated_admin(s: AccessControlState, role: Sym, admin_role: Sym, delegate: Addr)
    requires
        s.is_initialized(),
    ensures
        ({
            let t = AccessControlState { role_admins: s.role_admins.insert(role, admin_role), ..s }.with_role(
                admin_role,
                delegate,
                true,
            );
            t.may_administer(delegate, role)
        }),
{
}

/// Only the super admin, or a holder of the role's designated admin role, may grant or
/// revoke a role; the super admin always may, and so does every holder of the designated
/// admin role.
pub proof fn lemma_only_admins_administer(s: AccessControlState, caller: Addr, role: Sym)
    requires
        s.is_initialized(),
    ensures
        s.may_administer(caller, role) ==> caller == s.super_admin->0 || (s.role_admins.contains_key(
            role,
        ) && s.roles.contains_key((s.role_admins[role], caller)) && s.roles[(
            s.role_admins[role],
            caller,
        )]),
        caller == s.super_admin->0 ==> s.may_administer(caller, role),
        s.role_admins.contains_key(role) && s.roles.contains_key((s.role_admins[role], caller))
            && s.roles[(s.role_admins[role], caller)] ==> s.may_administer(caller, role),
{
}

/// Holding a role confers no power over it: granting `role` to `to`, who is not the super
/// admin and does not hold the role's admin role (which is not `role` itself), does not let
/// `to` grant or revoke `role`.
pub proof fn lemma_holding_a_role_is_not_administering_it(s: AccessControlState, role: Sym, to: Addr)
    requires
        s.is_initialized(),
        to != s.super_admin->0,
        s.role_admins.contains_key(role) ==> s.role_admins[role] != role && !(s.roles.contains_key(
            (s.role_admins[role], to),
        ) && s.roles[(s.role_admins[role], to)]),
    ensures
        s.with_role(role, to, true).has_role(role, to),
        !s.with_role(role, to, true).may_administer(to, role),
{
    let t = s.with_role(role, to, true);
    if s.role_admins.contains_key(role) {
        assert((s.role_admins[role], to) != (role, to));
    }
}

} // verus!
