use soroban_devkit_contracts::common::Addr;
use soroban_devkit_contracts::token::{TokenContract, TokenError, TokenEvent};

const ADMIN: Addr = 1;
const ALICE: Addr = 2;
const BOB: Addr = 3;
const SPENDER: Addr = 4;
const STRANGER: Addr = 5;

fn token(name: &str, symbol: &str, decimals: u32) -> TokenContract {
    let mut t = TokenContract::new();
    t.initialize(ADMIN, name.to_string(), symbol.to_string(), decimals).unwrap();
    t
}

#[test]
fn test_mint_and_balance() {
    let mut t = token("DevKit Token", "DKT", 7);
    let (authorizer, event) = t.mint(ALICE, 1_000_000).unwrap();
    assert_eq!(authorizer, ADMIN);
    assert_eq!(event, TokenEvent::Mint { to: ALICE, amount: 1_000_000 });
    assert_eq!(t.balance(ALICE), 1_000_000);
}

#[test]
fn test_name_and_symbol_reflect_initialize_args() {
    let t = token("USD Coin", "USDC", 6);
    assert_eq!(t.name(), "USD Coin");
    assert_eq!(t.symbol(), "USDC");
    assert_eq!(t.decimals(), 6);
}

#[test]
fn test_balance_of_uninitialized_address_is_zero() {
    let t = token("DevKit Token", "DKT", 7);
    assert_eq!(t.balance(STRANGER), 0);
}

#[test]
fn test_transfer() {
    let mut t = token("DevKit Token", "DKT", 7);
    t.mint(ALICE, 1_000_000).unwrap();
    let event = t.transfer(ALICE, BOB, 400_000).unwrap();
    assert_eq!(event, TokenEvent::Transfer { from: ALICE, to: BOB, amount: 400_000 });
    assert_eq!(t.balance(ALICE), 600_000);
    assert_eq!(t.balance(BOB), 400_000);
}

#[test]
fn test_transfer_from_moves_balance() {
    let mut t = token("DevKit Token", "DKT", 7);
    t.mint(ALICE, 1_000_000).unwrap();
    t.approve(ALICE, SPENDER, 500_000, 1000).unwrap();
    t.transfer_from(SPENDER, ALICE, BOB, 200_000).unwrap();
    assert_eq!(t.balance(ALICE), 800_000);
    assert_eq!(t.balance(BOB), 200_000);
}

#[test]
fn test_transfer_from_reduces_allowance() {
    let mut t = token("DevKit Token", "DKT", 7);
    t.mint(ALICE, 1_000_000).unwrap();
    t.approve(ALICE, SPENDER, 500_000, 1000).unwrap();
    t.transfer_from(SPENDER, ALICE, BOB, 200_000).unwrap();
    assert_eq!(t.allowance(ALICE, SPENDER), 300_000);
}

#[test]
fn test_transfer_from_fails_over_allowance() {
    let mut t = token("DevKit Token", "DKT", 7);
    t.mint(ALICE, 1_000_000).unwrap();
    t.approve(ALICE, SPENDER, 100_000, 1000).unwrap();
    assert_eq!(
        t.transfer_from(SPENDER, ALICE, BOB, 200_000),
        Err(TokenError::InsufficientAllowance)
    );
    assert_eq!(t.balance(ALICE), 1_000_000);
    assert_eq!(t.allowance(ALICE, SPENDER), 100_000);
}

#[test]
fn test_transfer_from_fails_over_balance() {
    let mut t = token("DevKit Token", "DKT", 7);
    t.mint(ALICE, 100_000).unwrap();
    t.approve(ALICE, SPENDER, 500_000, 1000).unwrap();
    assert_eq!(
        t.transfer_from(SPENDER, ALICE, BOB, 200_000),
        Err(TokenError::InsufficientBalance)
    );
    assert_eq!(t.allowance(ALICE, SPENDER), 500_000);
}

#[test]
fn token_transfer_refuses_overdraft_and_changes_nothing() {
    let mut t = token("DevKit Token", "DKT", 7);
    t.mint(ALICE, 10).unwrap();
    assert_eq!(t.transfer(ALICE, BOB, 11), Err(TokenError::InsufficientBalance));
    assert_eq!(t.balance(ALICE), 10);
    assert_eq!(t.balance(BOB), 0);
}

#[test]
fn token_transfer_to_self_keeps_balance() {
    let mut t = token("DevKit Token", "DKT", 7);
    t.mint(ALICE, 70).unwrap();
    t.transfer(ALICE, ALICE, 30).unwrap();
    assert_eq!(t.balance(ALICE), 70);
}

#[test]
fn token_transfer_conserves_the_sum() {
    let mut t = token("DevKit Token", "DKT", 7);
    t.mint(ALICE, 900).unwrap();
    t.mint(BOB, 100).unwrap();
    t.transfer(ALICE, BOB, 250).unwrap();
    assert_eq!(t.balance(ALICE) + t.balance(BOB), 1000);
    assert_eq!(t.balance(ALICE), 650);
}

#[test]
fn token_initialize_twice_is_refused() {
    let mut t = token("DevKit Token", "DKT", 7);
    assert_eq!(
        t.initialize(STRANGER, "Other".to_string(), "OTH".to_string(), 2),
        Err(TokenError::AlreadyInitialized)
    );
    assert_eq!(t.get_admin(), ADMIN);
    assert_eq!(t.name(), "DevKit Token");
    assert!(!t.get_clawback_enabled());
}

#[test]
fn token_decimals_default_to_seven_before_initialize() {
    let t = TokenContract::new();
    assert!(!t.is_initialized());
    assert_eq!(t.decimals(), 7);
}

#[test]
fn token_approve_replaces_allowance_and_reports_expiry() {
    let mut t = token("DevKit Token", "DKT", 7);
    t.approve(ALICE, SPENDER, 500, 10).unwrap();
    let e = t.approve(ALICE, SPENDER, 20, 99).unwrap();
    assert_eq!(e, TokenEvent::Approve { from: ALICE, spender: SPENDER, amount: 20, expiry_ledger: 99 });
    assert_eq!(t.allowance(ALICE, SPENDER), 20);
    assert_eq!(t.allowance(SPENDER, ALICE), 0);
}

#[test]
fn token_error_codes_are_stable() {
    assert_eq!(TokenError::InsufficientBalance.code(), 1);
    assert_eq!(TokenError::InsufficientAllowance.code(), 2);
    assert_eq!(TokenError::NotAdmin.code(), 3);
    assert_eq!(TokenError::AlreadyInitialized.code(), 4);
    assert_eq!(TokenError::ClawbackNotEnabled.code(), 5);
    assert_eq!(TokenError::InvalidAmount.code(), 6);
}

#[test]
fn token_mint_refuses_non_positive_amounts() {
    let mut t = token("DevKit Token", "DKT", 7);
    t.mint(ALICE, 50).unwrap();
    assert_eq!(t.mint(ALICE, 0), Err(TokenError::InvalidAmount));
    assert_eq!(t.mint(ALICE, -5), Err(TokenError::InvalidAmount));
    assert_eq!(t.balance(ALICE), 50);
}

#[test]
fn token_transfer_refuses_non_positive_amounts() {
    let mut t = token("DevKit Token", "DKT", 7);
    t.mint(ALICE, 50).unwrap();
    t.mint(BOB, 40).unwrap();
    assert_eq!(t.transfer(ALICE, BOB, 0), Err(TokenError::InvalidAmount));
    assert_eq!(t.transfer(ALICE, BOB, -5), Err(TokenError::InvalidAmount));
    assert_eq!(t.balance(ALICE), 50);
    assert_eq!(t.balance(BOB), 40);
}

#[test]
fn token_transfer_from_refuses_non_positive_amounts() {
    let mut t = token("DevKit Token", "DKT", 7);
    t.mint(ALICE, 50).unwrap();
    assert_eq!(t.transfer_from(SPENDER, ALICE, BOB, -5), Err(TokenError::InvalidAmount));
    t.approve(ALICE, SPENDER, 30, 100).unwrap();
    assert_eq!(t.transfer_from(SPENDER, ALICE, BOB, 0), Err(TokenError::InvalidAmount));
    assert_eq!(t.balance(ALICE), 50);
    assert_eq!(t.balance(BOB), 0);
    assert_eq!(t.allowance(ALICE, SPENDER), 30);
}

#[test]
fn token_approve_refuses_non_positive_amounts() {
    let mut t = token("DevKit Token", "DKT", 7);
    t.approve(ALICE, SPENDER, 30, 100).unwrap();
    assert_eq!(t.approve(ALICE, SPENDER, 0, 100), Err(TokenError::InvalidAmount));
    assert_eq!(t.approve(ALICE, SPENDER, -1, 100), Err(TokenError::InvalidAmount));
    assert_eq!(t.allowance(ALICE, SPENDER), 30);
}
