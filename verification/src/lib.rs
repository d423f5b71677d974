//! Verified models of a family of Soroban reference contracts: a SEP-41 style token,
//! role-based access control, an M-of-N multisig wallet, a price oracle, an upgradeable
//! contract with versioned migrations, a time-locked escrow, linear vesting with a cliff,
//! one-address-one-vote governance, and an event fixture.
//!
//! Each contract is a state machine over plain values. Ledger storage, authorization
//! checks, event publication and cross-contract token calls are host operations: the
//! library decides, and returns what the host must do (who must authorize, which events
//! to publish, which token transfers to make).
pub mod common;
pub mod token;
pub mod vesting;
pub mod escrow;
pub mod multisig;
pub mod dao_voting;
pub mod oracle;
pub mod access_control;
pub mod upgradeable;
pub mod event_rich;
