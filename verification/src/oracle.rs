//! A price feed: the admin publishes a price per asset, anyone reads it back and checks
//! whether it is older than a maximum age of the reader's choosing.
use std::collections::HashMap;
use vstd::prelude::*;
use crate::common::{Addr, Sym};

verus! {

broadcast use vstd::std_specs::hash::group_hash_axioms;

/// Why an oracle operation was refused.
#[derive(Copy, Clone, Debug, PartialEq, Eq, Structural)]
pub enum OracleError {
    /// No price has ever been published for the requested asset.
    NoPriceData,
    /// set_price was called with a zero or negative price.
    InvalidPrice,
    /// initialize() has already been called.
    AlreadyInitialized,
}

impl OracleError {
    /// The stable on-chain number of this error.
    pub fn code(&self) -> (c: u32)
        ensures
            c == match *self {
                OracleError::NoPriceData => 1u32,
                OracleError::InvalidPrice => 2u32,
                OracleError::AlreadyInitialized => 3u32,
            },
    {
        match self {
            OracleError::NoPriceData => 1,
            OracleError::InvalidPrice => 2,
            OracleError::AlreadyInitialized => 3,
        }
    }
}

/// One published price point for one asset.
#[derive(Copy, Clone, Debug, PartialEq, Eq, Structural)]
pub struct PriceData {
    /// The price, in a fixed-point unit agreed on off-chain; the contract only stores it.
    pub price: i128,
    /// Ledger timestamp (seconds) the price was published at.
    pub timestamp: u64,
}

/// The event set_price publishes.
#[derive(Copy, Clone, Debug, PartialEq, Eq, Structural)]
pub enum OracleEvent {
    PriceUpdated { asset: Sym, price: i128, timestamp: u64 },
}

/// The oracle's ledger state, as mathematical values.
pub struct OracleState {
    pub admin: Option<Addr>,
    /// The latest price point of each asset that has one.
    pub prices: Map<Sym, PriceData>,
}

impl OracleState {
    /// Every stored price is positive, as set_price keeps it.
    pub open spec fn well_formed(self) -> bool {
        forall|a: Sym| #[trigger] self.prices.contains_key(a) ==> self.prices[a].price > 0
    }
}

/// Whether a price published at `timestamp` is older than `max_age` seconds at `now`
/// (a timestamp in the future counts as age 0).
pub open spec fn stale(timestamp: u64, max_age: u64, now: u64) -> bool {
    (if now >= timestamp { now - timestamp } else { 0 }) > max_age
}

/// The oracle contract.
pub struct OracleContract {
    admin: Option<Addr>,
    prices: HashMap<Sym, PriceData>,
}

impl View for OracleContract {
    type V = OracleState;

    closed spec fn view(&self) -> OracleState {
        OracleState { admin: self.admin, prices: self.prices@ }
    }
}

impl OracleContract {
    /// An oracle with nothing stored.
    pub fn new() -> (c: OracleContract)
        ensures
            c@.admin is None,
            c@.prices == Map::<Sym, PriceData>::empty(),
            c@.well_formed(),
    {
        OracleContract { admin: None, prices: HashMap::new() }
    }

    // ----- storage layer -----

    /// Whether an admin is stored, i.e. whether initialize() has run.
    pub fn is_initialized(&self) -> (b: bool)
        ensures
            b == self@.admin is Some,
    {
        self.admin.is_some()
    }

    pub fn set_admin(&mut self, admin: Addr)
        ensures
            final(self)@ == (OracleState { admin: Some(admin), ..old(self)@ }),
    {
        self.admin = Some(admin);
    }

    pub fn get_admin(&self) -> (a: Addr)
        requires
            self@.admin is Some,
        ensures
            a == self@.admin->0,
    {
        self.admin.unwrap()
    }

    /// Stores `data` as the latest price point of `asset`.
    pub fn set_price_data(&mut self, asset: Sym, data: PriceData)
        ensures
            final(self)@ == (OracleState { prices: old(self)@.prices.insert(asset, data), ..old(self)@ }),
    {
        self.prices.insert(asset, data);
    }

    /// The latest price point of `asset`, if any.
    pub fn get_price_data(&self, asset: Sym) -> (d: Option<PriceData>)
        ensures
            self@.prices.contains_key(asset) ==> d == Some(self@.prices[asset]),
            !self@.prices.contains_key(asset) ==> d is None,
    {
        match self.prices.get(&asset) {
            Some(d) => Some(*d),
            None => None,
        }
    }

    // ----- contract interface -----

    /// Stores the admin. Refused with `AlreadyInitialized`, changing nothing, once one is
    /// stored.
    pub fn initialize(&mut self, admin: Addr) -> (r: Result<(), OracleError>)
        ensures
            old(self)@.admin is Some ==> r == Err::<(), OracleError>(OracleError::AlreadyInitialized)
                && final(self)@ == old(self)@,
            old(self)@.admin is None ==> r is Ok && final(self)@ == (OracleState {
                admin: Some(admin),
                ..old(self)@
            }),
    {
        if self.is_initialized() {
            return Err(OracleError::AlreadyInitialized);
        }
        self.set_admin(admin);
        Ok(())
    }

    /// Publishes `price` for `asset`, stamped with `now`. Returns the address that must
    /// authorize (the admin) and the `PriceUpdated` event. Refused with `InvalidPrice`,
    /// changing nothing, when `price` is not positive.
    pub fn set_price(&mut self, asset: Sym, price: i128, now: u64) -> (r: Result<
        (Addr, OracleEvent),
        OracleError,
    >)
        requires
            old(self)@.admin is Some,
        ensures
            price <= 0 ==> r == Err::<(Addr, OracleEvent), OracleError>(OracleError::InvalidPrice)
                && final(self)@ == old(self)@,
            price > 0 ==> r == Ok::<(Addr, OracleEvent), OracleError>(
                (
                    old(self)@.admin->0,
                    OracleEvent::PriceUpdated { asset, price, timestamp: now },
                ),
            ) && final(self)@ == (OracleState {
                prices: old(self)@.prices.insert(asset, PriceData { price, timestamp: now }),
                ..old(self)@
            }),
            old(self)@.well_formed() ==> final(self)@.well_formed(),
    {
        let admin = self.get_admin();
        if price <= 0 {
            return Err(OracleError::InvalidPrice);
        }
        let data = PriceData { price, timestamp: now };
        self.set_price_data(asset, data);
        Ok((admin, OracleEvent::PriceUpdated { asset, price, timestamp: data.timestamp }))
    }

    /// The latest price point of `asset`; `NoPriceData` where none was published.
    pub fn get_price(&self, asset: Sym) -> (r: Result<PriceData, OracleError>)
        ensures
            self@.prices.contains_key(asset) ==> r == Ok::<PriceData, OracleError>(
                self@.prices[asset],
            ),
            !self@.prices.contains_key(asset) ==> r == Err::<PriceData, OracleError>(
                OracleError::NoPriceData,
            ),
    {
        match self.get_price_data(asset) {
            Some(d) => Ok(d),
            None => Err(OracleError::NoPriceData),
        }
    }

    /// Whether the latest price of `asset` is older than `max_age` seconds at `now`;
    /// `NoPriceData` where none was published.
    pub fn is_stale(&self, asset: Sym, max_age: u64, now: u64) -> (r: Result<bool, OracleError>)
        ensures
            self@.prices.contains_key(asset) ==> r == Ok::<bool, OracleError>(
                stale(self@.prices[asset].timestamp, max_age, now),
            ),
            !self@.prices.contains_key(asset) ==> r == Err::<bool, OracleError>(
                OracleError::NoPriceData,
            ),
    {
        let data = match self.get_price(asset) {
            Ok(d) => d,
            Err(e) => return Err(e),
        };
        Ok(now.saturating_sub(data.timestamp) > max_age)
    }

    /// The configured admin.
    pub fn admin(&self) -> (a: Addr)
        requires
            self@.admin is Some,
        ensures
            a == self@.admin->0,
    {
        self.get_admin()
    }
}

/// What is read is what was last published: after set_price accepts `price` for `asset`
/// at `now`, get_price of `asset` answers that price stamped `now`, other assets'
/// prices are unchanged, and a reader with any `max_age` sees it fresh at `now`.
pub proof fn lemma_price_read_after_write(s: OracleState, asset: Sym, price: i128, now: u64, other: Sym, max_age: u64)
    requires
        other != asset,
    ensures
        ({
            let t = OracleState { prices: s.prices.insert(asset, PriceData { price, timestamp: now }), ..s };
            &&& t.prices[asset] == PriceData { price, timestamp: now }
            &&& t.prices.contains_key(other) == s.prices.contains_key(other)
            &&& t.prices[other] == s.prices[other]
            &&& !stale(t.prices[asset].timestamp, max_age, now)
        }),
{
}

/// Staleness in plain terms: a price stamped `timestamp` is stale at `now` exactly when
/// more than `max_age` seconds separate them, i.e. `now > timestamp + max_age`; so it stays
/// fresh through age `max_age` itself and once stale remains stale later on.
pub proof fn lemma_stale_means_older_than_max_age(timestamp: u64, max_age: u64, now: u64, later: u64)
    ensures
        stale(timestamp, max_age, now) <==> now > timestamp + max_age,
        stale(timestamp, max_age, now) && later >= now ==> stale(timestamp, max_age, later),
{
}

} // verus!
