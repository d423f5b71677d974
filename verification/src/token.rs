//! A SEP-41 style fungible token: balances, allowances, admin-gated minting.
use std::collections::HashMap;
use vstd::prelude::*;
use crate::common::{Addr, fits_i128, pair_key, pair_view, lemma_pair_view_insert};

verus! {

broadcast use vstd::std_specs::hash::group_hash_axioms;

/// Why a token operation was refused.
#[derive(Copy, Clone, Debug, PartialEq, Eq, Structural)]
pub enum TokenError {
    /// The payer's balance is too low for the requested transfer.
    InsufficientBalance,
    /// The spender's allowance is too low for the requested transfer_from.
    InsufficientAllowance,
    /// The caller is not the admin.
    NotAdmin,
    /// initialize() has already been called.
    AlreadyInitialized,
    /// clawback was asked for but the clawback flag is off.
    ClawbackNotEnabled,
    /// An amount that is zero or negative was given to mint, transfer, transfer_from or
    /// approve.
    InvalidAmount,
}

impl TokenError {
    /// The stable on-chain number of this error.
    pub fn code(&self) -> (c: u32)
        ensures
            c == match *self {
                TokenError::InsufficientBalance => 1u32,
                TokenError::InsufficientAllowance => 2u32,
                TokenError::NotAdmin => 3u32,
                TokenError::AlreadyInitialized => 4u32,
                TokenError::ClawbackNotEnabled => 5u32,
                TokenError::InvalidAmount => 6u32,
            },
    {
        match self {
            TokenError::InsufficientBalance => 1,
            TokenError::InsufficientAllowance => 2,
            TokenError::NotAdmin => 3,
            TokenError::AlreadyInitialized => 4,
            TokenError::ClawbackNotEnabled => 5,
            TokenError::InvalidAmount => 6,
        }
    }
}

/// An event that a token operation publishes.
#[derive(Copy, Clone, Debug, PartialEq, Eq, Structural)]
pub enum TokenEvent {
    /// `amount` moved from `from` to `to`.
    Transfer { from: Addr, to: Addr, amount: i128 },
    /// `amount` was minted to `to`.
    Mint { to: Addr, amount: i128 },
    /// `from` allowed `spender` to move up to `amount`, for `expiry_ledger` ledgers.
    Approve { from: Addr, spender: Addr, amount: i128, expiry_ledger: u32 },
}

/// Name, symbol and number of decimals, fixed at initialization.
pub struct TokenMetadata {
    pub name: String,
    pub symbol: String,
    pub decimals: u32,
}

/// Token metadata as mathematical values.
pub struct MetadataView {
    pub name: Seq<char>,
    pub symbol: Seq<char>,
    pub decimals: u32,
}

/// The token's ledger state, as mathematical values.
pub struct TokenState {
    pub admin: Option<Addr>,
    /// Name, symbol and decimals, once initialized.
    pub metadata: Option<MetadataView>,
    pub clawback_enabled: bool,
    /// Stored balances; an address with no entry holds 0.
    pub balances: Map<Addr, i128>,
    /// Stored allowances, keyed by `(owner, spender)`; no entry means 0.
    pub allowances: Map<(Addr, Addr), i128>,
}

impl TokenState {
    pub open spec fn is_initialized(self) -> bool {
        self.admin is Some
    }

    /// The balance of `a`: its stored entry, or 0 where there is none.
    pub open spec fn balance(self, a: Addr) -> i128 {
        if self.balances.contains_key(a) {
            self.balances[a]
        } else {
            0
        }
    }

    /// What `spender` may still move on behalf of `from`: the stored entry, or 0.
    pub open spec fn allowance(self, from: Addr, spender: Addr) -> i128 {
        if self.allowances.contains_key((from, spender)) {
            self.allowances[(from, spender)]
        } else {
            0
        }
    }

    pub open spec fn with_balance(self, a: Addr, amount: i128) -> TokenState {
        TokenState { balances: self.balances.insert(a, amount), ..self }
    }

    pub open spec fn with_allowance(self, from: Addr, spender: Addr, amount: i128) -> TokenState {
        TokenState { allowances: self.allowances.insert((from, spender), amount), ..self }
    }

    /// The balance of `from` after paying out `amount`.
    pub open spec fn debited(self, from: Addr, amount: i128) -> TokenState {
        self.with_balance(from, (self.balance(from) - amount) as i128)
    }

    /// The state after `amount` moves from `from` to `to`: `from` is debited first, then
    /// `to` is credited on top of what it holds at that point (so a transfer to oneself
    /// leaves the balance as it was).
    pub open spec fn moved(self, from: Addr, to: Addr, amount: i128) -> TokenState {
        let s = self.debited(from, amount);
        s.with_balance(to, (s.balance(to) + amount) as i128)
    }

    /// The arithmetic of `moved` stays within `i128`.
    pub open spec fn move_fits(self, from: Addr, to: Addr, amount: i128) -> bool {
        &&& fits_i128(self.balance(from) - amount)
        &&& fits_i128(self.debited(from, amount).balance(to) + amount)
    }
}

/// The token contract: its ledger state and the operations on it.
pub struct TokenContract {
    admin: Option<Addr>,
    metadata: Option<TokenMetadata>,
    clawback_enabled: bool,
    balances: HashMap<Addr, i128>,
    allowances: HashMap<u128, i128>,
}

impl View for TokenContract {
    type V = TokenState;

    closed spec fn view(&self) -> TokenState {
        TokenState {
            admin: self.admin,
            metadata: match self.metadata {
                Some(m) => Some(MetadataView { name: m.name@, symbol: m.symbol@, decimals: m.decimals }),
                None => None,
            },
            clawback_enabled: self.clawback_enabled,
            balances: self.balances@,
            allowances: pair_view(self.allowances@),
        }
    }
}

impl TokenContract {
    /// A token with nothing stored yet.
    pub fn new() -> (c: TokenContract)
        ensures
            c@.admin is None,
            c@.metadata is None,
            !c@.clawback_enabled,
            c@.balances == Map::<Addr, i128>::empty(),
            c@.allowances == Map::<(Addr, Addr), i128>::empty(),
    {
        let c = TokenContract {
            admin: None,
            metadata: None,
            clawback_enabled: false,
            balances: HashMap::new(),
            allowances: HashMap::new(),
        };
        assert(pair_view(c.allowances@) =~= Map::<(Addr, Addr), i128>::empty());
        c
    }

    // ----- storage layer -----

    /// Whether an admin has been stored, i.e. whether initialize() has run.
    pub fn is_initialized(&self) -> (b: bool)
        ensures
            b == self@.is_initialized(),
    {
        self.admin.is_some()
    }

    pub fn set_admin(&mut self, admin: Addr)
        ensures
            final(self)@ == (TokenState { admin: Some(admin), ..old(self)@ }),
    {
        self.admin = Some(admin);
    }

    pub fn get_admin(&self) -> (a: Addr)
        requires
            self@.is_initialized(),
        ensures
            a == self@.admin->0,
    {
        self.admin.unwrap()
    }

    pub fn set_clawback_enabled(&mut self, enabled: bool)
        ensures
            final(self)@ == (TokenState { clawback_enabled: enabled, ..old(self)@ }),
    {
        self.clawback_enabled = enabled;
    }

    pub fn get_clawback_enabled(&self) -> (b: bool)
        ensures
            b == self@.clawback_enabled,
    {
        self.clawback_enabled
    }

    pub fn get_balance(&self, addr: Addr) -> (b: i128)
        ensures
            b == self@.balance(addr),
    {
        match self.balances.get(&addr) {
            Some(b) => *b,
            None => 0,
        }
    }

    pub fn set_balance(&mut self, addr: Addr, amount: i128)
        ensures
            final(self)@ == old(self)@.with_balance(addr, amount),
    {
        self.balances.insert(addr, amount);
    }

    pub fn get_allowance(&self, from: Addr, spender: Addr) -> (a: i128)
        ensures
            a == self@.allowance(from, spender),
    {
        match self.allowances.get(&pair_key(from, spender)) {
            Some(a) => *a,
            None => 0,
        }
    }

    /// Stores the remaining allowance of `spender` over `from`'s funds.
    pub fn set_allowance_amount(&mut self, from: Addr, spender: Addr, amount: i128)
        ensures
            final(self)@ == old(self)@.with_allowance(from, spender, amount),
    {
        let ghost before = self.allowances@;
        let k = pair_key(from, spender);
        self.allowances.insert(k, amount);
        proof {
            lemma_pair_view_insert(before, from, spender, amount);
        }
    }

    pub fn set_metadata(&mut self, name: String, symbol: String, decimals: u32)
        ensures
            final(self)@ == (TokenState { metadata: Some(MetadataView { name: name@, symbol: symbol@, decimals }), ..old(self)@ }),
    {
        self.metadata = Some(TokenMetadata { name, symbol, decimals });
    }

    pub fn get_name(&self) -> (s: String)
        requires
            self@.metadata is Some,
        ensures
            s@ == self@.metadata->0.name,
    {
        match &self.metadata {
            Some(m) => m.name.clone(),
            None => String::new(),
        }
    }

    pub fn get_symbol(&self) -> (s: String)
        requires
            self@.metadata is Some,
        ensures
            s@ == self@.metadata->0.symbol,
    {
        match &self.metadata {
            Some(m) => m.symbol.clone(),
            None => String::new(),
        }
    }

    /// The number of decimals; 7 where none has been stored.
    pub fn get_decimals(&self) -> (d: u32)
        ensures
            d == match self@.metadata {
                Some(m) => m.decimals,
                None => 7u32,
            },
    {
        match &self.metadata {
            Some(m) => m.decimals,
            None => 7,
        }
    }

    // ----- contract interface -----

    /// Stores the admin and the metadata, and turns the clawback flag off. Refused with
    /// `AlreadyInitialized`, leaving everything as it was, once an admin is stored.
    pub fn initialize(&mut self, admin: Addr, name: String, symbol: String, decimals: u32) -> (r:
        Result<(), TokenError>)
        ensures
            old(self)@.is_initialized() ==> r == Err::<(), TokenError>(TokenError::AlreadyInitialized)
                && final(self)@ == old(self)@,
            !old(self)@.is_initialized() ==> r is Ok && final(self)@ == (TokenState {
                admin: Some(admin),
                metadata: Some(MetadataView { name: name@, symbol: symbol@, decimals }),
                clawback_enabled: false,
                ..old(self)@
            }),
    {
        if self.is_initialized() {
            return Err(TokenError::AlreadyInitialized);
        }
        self.set_admin(admin);
        self.set_metadata(name, symbol, decimals);
        self.set_clawback_enabled(false);
        Ok(())
    }

    /// Mints `amount` to `to`. Returns the address that must authorize the call (the
    /// admin) and the `Mint` event. Refused with `InvalidAmount`, changing nothing, when
    /// `amount` is not positive.
    pub fn mint(&mut self, to: Addr, amount: i128) -> (r: Result<(Addr, TokenEvent), TokenError>)
        requires
            old(self)@.is_initialized(),
            amount > 0 ==> fits_i128(old(self)@.balance(to) + amount),
        ensures
            amount <= 0 ==> r == Err::<(Addr, TokenEvent), TokenError>(TokenError::InvalidAmount)
                && final(self)@ == old(self)@,
            amount > 0 ==> {
                &&& r == Ok::<(Addr, TokenEvent), TokenError>(
                    (old(self)@.admin->0, TokenEvent::Mint { to, amount }),
                )
                &&& final(self)@ == old(self)@.with_balance(
                    to,
                    (old(self)@.balance(to) + amount) as i128,
                )
                &&& final(self)@.balance(to) == old(self)@.balance(to) + amount
                &&& forall|a: Addr| a != to ==> final(self)@.balance(a) == old(self)@.balance(a)
            },
    {
        let admin = self.get_admin();
        if amount <= 0 {
            return Err(TokenError::InvalidAmount);
        }
        let balance = self.get_balance(to);
        self.set_balance(to, balance + amount);
        Ok((admin, TokenEvent::Mint { to, amount }))
    }

    /// Moves `amount` from `from` (who must authorize) to `to`. Refused, changing nothing,
    /// with `InvalidAmount` when `amount` is not positive, else with `InsufficientBalance`
    /// when `from` holds less than `amount`.
    pub fn transfer(&mut self, from: Addr, to: Addr, amount: i128) -> (r: Result<
        TokenEvent,
        TokenError,
    >)
        requires
            amount > 0 && old(self)@.balance(from) >= amount ==> old(self)@.move_fits(
                from,
                to,
                amount,
            ),
        ensures
            amount <= 0 ==> r == Err::<TokenEvent, TokenError>(TokenError::InvalidAmount) && final(self)@ == old(self)@,
            amount > 0 && old(self)@.balance(from) < amount ==> r == Err::<TokenEvent, TokenError>(
                TokenError::InsufficientBalance,
            ) && final(self)@ == old(self)@,
            amount > 0 && old(self)@.balance(from) >= amount ==> r == Ok::<TokenEvent, TokenError>(
                TokenEvent::Transfer { from, to, amount },
            ) && final(self)@ == old(self)@.moved(from, to, amount),
            // what is paid out is paid in: the two balances keep their sum, the others stay
            from != to ==> final(self)@.balance(from) + final(self)@.balance(to)
                == old(self)@.balance(from) + old(self)@.balance(to),
            from == to ==> final(self)@.balance(from) == old(self)@.balance(from),
            forall|a: Addr| a != from && a != to ==> final(self)@.balance(a) == old(self)@.balance(a),
    {
        if amount <= 0 {
            return Err(TokenError::InvalidAmount);
        }
        let from_balance = self.get_balance(from);
        if from_balance < amount {
            return Err(TokenError::InsufficientBalance);
        }
        self.set_balance(from, from_balance - amount);
        let to_balance = self.get_balance(to);
        self.set_balance(to, to_balance + amount);
        Ok(TokenEvent::Transfer { from, to, amount })
    }

    /// Lets `spender` move up to `amount` of `from`'s funds (`from` must authorize);
    /// replaces any earlier allowance. `expiry_ledger` is how long the ledger keeps the
    /// allowance, which the host enforces. Refused with `InvalidAmount`, changing nothing,
    /// when `amount` is not positive.
    pub fn approve(&mut self, from: Addr, spender: Addr, amount: i128, expiry_ledger: u32) -> (r:
        Result<TokenEvent, TokenError>)
        ensures
            amount <= 0 ==> r == Err::<TokenEvent, TokenError>(TokenError::InvalidAmount) && final(self)@ == old(self)@,
            amount > 0 ==> r == Ok::<TokenEvent, TokenError>(
                TokenEvent::Approve { from, spender, amount, expiry_ledger },
            ) && final(self)@ == old(self)@.with_allowance(from, spender, amount) && final(self)@.allowance(from, spender) == amount,
    {
        if amount <= 0 {
            return Err(TokenError::InvalidAmount);
        }
        self.set_allowance_amount(from, spender, amount);
        Ok(TokenEvent::Approve { from, spender, amount, expiry_ledger })
    }

    /// `spender` (who must authorize) moves `amount` from `from` to `to` out of its
    /// allowance, which shrinks by `amount`. Refused, changing nothing, with
    /// `InvalidAmount` when `amount` is not positive, else with `InsufficientAllowance` when
    /// the allowance is below `amount`, else with `InsufficientBalance` when `from` holds
    /// less than `amount`.
    pub fn transfer_from(&mut self, spender: Addr, from: Addr, to: Addr, amount: i128) -> (r:
        Result<TokenEvent, TokenError>)
        requires
            amount > 0 && old(self)@.allowance(from, spender) >= amount && old(self)@.balance(from)
                >= amount ==> fits_i128(old(self)@.allowance(from, spender) - amount)
                && old(self)@.move_fits(from, to, amount),
        ensures
            amount <= 0 ==> r == Err::<TokenEvent, TokenError>(TokenError::InvalidAmount) && final(self)@ == old(self)@,
            amount > 0 && old(self)@.allowance(from, spender) < amount ==> r == Err::<TokenEvent, TokenError>(
                TokenError::InsufficientAllowance,
            ) && final(self)@ == old(self)@,
            amount > 0 && old(self)@.allowance(from, spender) >= amount && old(self)@.balance(from)
                < amount ==> r == Err::<TokenEvent, TokenError>(TokenError::InsufficientBalance)
                && final(self)@ == old(self)@,
            amount > 0 && old(self)@.allowance(from, spender) >= amount && old(self)@.balance(from)
                >= amount ==> r == Ok::<TokenEvent, TokenError>(TokenEvent::Transfer { from, to, amount })
                && final(self)@ == old(self)@.with_allowance(
                from,
                spender,
                (old(self)@.allowance(from, spender) - amount) as i128,
            ).moved(from, to, amount)
                && final(self)@.allowance(from, spender) == old(self)@.allowance(from, spender) - amount,
    {
        if amount <= 0 {
            return Err(TokenError::InvalidAmount);
        }
        let allowance = self.get_allowance(from, spender);
        if allowance < amount {
            return Err(TokenError::InsufficientAllowance);
        }
        let from_balance = self.get_balance(from);
        if from_balance < amount {
            return Err(TokenError::InsufficientBalance);
        }
        self.set_allowance_amount(from, spender, allowance - amount);
        self.set_balance(from, from_balance - amount);
        let to_balance = self.get_balance(to);
        self.set_balance(to, to_balance + amount);
        Ok(TokenEvent::Transfer { from, to, amount })
    }

    /// The balance of `id`; 0 for an address that never held any.
    pub fn balance(&self, id: Addr) -> (b: i128)
        ensures
            b == self@.balance(id),
    {
        self.get_balance(id)
    }

    /// What `spender` may still move on behalf of `from`.
    pub fn allowance(&self, from: Addr, spender: Addr) -> (a: i128)
        ensures
            a == self@.allowance(from, spender),
    {
        self.get_allowance(from, spender)
    }

    pub fn symbol(&self) -> (s: String)
        requires
            self@.metadata is Some,
        ensures
            s@ == self@.metadata->0.symbol,
    {
        self.get_symbol()
    }

    pub fn name(&self) -> (s: String)
        requires
            self@.metadata is Some,
        ensures
            s@ == self@.metadata->0.name,
    {
        self.get_name()
    }

    pub fn decimals(&self) -> (d: u32)
        ensures
            d == match self@.metadata {
                Some(m) => m.decimals,
                None => 7u32,
            },
    {
        self.get_decimals()
    }
}

} // verus!
