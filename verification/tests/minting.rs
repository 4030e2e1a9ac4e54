use soulbound_token_minter::errors::ErrorCode;
use soulbound_token_minter::identity::{EnforcementPolicy, Identity};
use soulbound_token_minter::mint::{create_mint_account, verify_non_transferable, MintConfig};
use soulbound_token_minter::purchase::mint_soulbound_tokens;
use soulbound_token_minter::registry::{CustomerCounter, MAX_CUSTOMERS};

fn artist() -> Identity {
    Identity { key: 1 }
}

fn buyer() -> Identity {
    Identity { key: 2 }
}

fn fresh_mint(policy: EnforcementPolicy) -> (MintConfig, CustomerCounter) {
    create_mint_account(
        artist(),
        String::from("Tour Ticket"),
        String::from("TIX"),
        0,
        policy,
        false,
    )
    .unwrap()
}

#[test]
fn create_mint_sets_single_authority() {
    let (config, counter) = fresh_mint(EnforcementPolicy::MintExtension);
    assert_eq!(config.authority, artist());
    assert_eq!(config.freeze_authority, artist());
    assert_eq!(config.decimals, 0);
    assert_eq!(config.supply, 0);
    assert_eq!(config.enforcement, EnforcementPolicy::MintExtension);
    assert_eq!(counter.issuer, artist());
    assert_eq!(counter.count, 0);
    assert_eq!(counter.buyers.len(), 0);
}

#[test]
fn create_mint_duplicate_rejected() {
    let r = create_mint_account(
        artist(),
        String::from("Tour Ticket"),
        String::from("TIX"),
        0,
        EnforcementPolicy::MintExtension,
        true,
    );
    assert_eq!(r.unwrap_err(), ErrorCode::DuplicateMint);
}

#[test]
fn verify_non_transferable_reports_policy() {
    let (with_extension, _) = fresh_mint(EnforcementPolicy::MintExtension);
    let (with_freeze, _) = fresh_mint(EnforcementPolicy::PostIssuanceFreeze);
    assert!(verify_non_transferable(&with_extension));
    assert!(!verify_non_transferable(&with_freeze));
}

#[test]
fn purchase_settles_payment_and_counts_buyer() {
    // Issuer A creates a mint with 0 decimals; buyer B purchases 5 tokens at
    // price 100: funds move by 500, B holds 5 tokens, one unique buyer.
    let (config, mut counter) = fresh_mint(EnforcementPolicy::MintExtension);
    let mut buyer_funds: u64 = 1_000;
    let mut artist_funds: u64 = 0;
    let mut buyer_balance: u64 = 0;
    let receipt = mint_soulbound_tokens(
        &config,
        &mut counter,
        artist(),
        buyer(),
        5,
        String::from("B"),
        1,
        100,
        &mut buyer_funds,
        &mut artist_funds,
        &mut buyer_balance,
    )
    .unwrap();
    assert_eq!(buyer_funds, 500);
    assert_eq!(artist_funds, 500);
    assert_eq!(buyer_balance, 5);
    assert_eq!(counter.count, 1);
    assert_eq!(receipt.artist, artist());
    assert_eq!(receipt.buyer, buyer());
    assert_eq!(receipt.amount, 5);
    assert_eq!(receipt.buyer_name, "B");
    assert_eq!(receipt.ticket_number, 1);
    assert_eq!(receipt.unique_buyers, 1);
    assert!(!receipt.freeze_required);
}

#[test]
fn repeat_purchase_keeps_unique_count() {
    // The same buyer purchases 3 more tokens: the unique-buyer count stays
    // at 1 and the balance becomes 8.
    let (config, mut counter) = fresh_mint(EnforcementPolicy::MintExtension);
    let mut buyer_funds: u64 = 1_000;
    let mut artist_funds: u64 = 0;
    let mut buyer_balance: u64 = 0;
    for (amount, ticket) in [(5u64, 1u64), (3, 2)] {
        mint_soulbound_tokens(
            &config,
            &mut counter,
            artist(),
            buyer(),
            amount,
            String::from("B"),
            ticket,
            100,
            &mut buyer_funds,
            &mut artist_funds,
            &mut buyer_balance,
        )
        .unwrap();
    }
    assert_eq!(buyer_balance, 8);
    assert_eq!(counter.count, 1);
    assert_eq!(buyer_funds, 200);
    assert_eq!(artist_funds, 800);
}

#[test]
fn many_purchases_count_buyer_once() {
    let (config, mut counter) = fresh_mint(EnforcementPolicy::MintExtension);
    let mut buyer_funds: u64 = 10_000;
    let mut artist_funds: u64 = 0;
    let mut buyer_balance: u64 = 0;
    for ticket in 0..20u64 {
        mint_soulbound_tokens(
            &config,
            &mut counter,
            artist(),
            buyer(),
            1,
            String::from("B"),
            ticket,
            10,
            &mut buyer_funds,
            &mut artist_funds,
            &mut buyer_balance,
        )
        .unwrap();
    }
    assert_eq!(counter.count, 1);
    assert_eq!(buyer_balance, 20);
}

#[test]
fn purchase_by_non_authority_fails() {
    let (config, mut counter) = fresh_mint(EnforcementPolicy::MintExtension);
    let mut buyer_funds: u64 = 1_000;
    let mut artist_funds: u64 = 0;
    let mut buyer_balance: u64 = 0;
    let r = mint_soulbound_tokens(
        &config,
        &mut counter,
        Identity { key: 99 },
        buyer(),
        5,
        String::from("B"),
        1,
        100,
        &mut buyer_funds,
        &mut artist_funds,
        &mut buyer_balance,
    );
    assert_eq!(r.unwrap_err(), ErrorCode::UnauthorizedMinter);
    assert_eq!(buyer_funds, 1_000);
    assert_eq!(artist_funds, 0);
    assert_eq!(buyer_balance, 0);
    assert_eq!(counter.count, 0);
}

#[test]
fn purchase_of_zero_tokens_fails() {
    let (config, mut counter) = fresh_mint(EnforcementPolicy::MintExtension);
    let mut buyer_funds: u64 = 1_000;
    let mut artist_funds: u64 = 0;
    let mut buyer_balance: u64 = 0;
    let r = mint_soulbound_tokens(
        &config,
        &mut counter,
        artist(),
        buyer(),
        0,
        String::from("B"),
        1,
        100,
        &mut buyer_funds,
        &mut artist_funds,
        &mut buyer_balance,
    );
    assert_eq!(r.unwrap_err(), ErrorCode::InvalidAmount);
    assert_eq!(buyer_funds, 1_000);
}

#[test]
fn purchase_with_overflowing_payment_fails() {
    let (config, mut counter) = fresh_mint(EnforcementPolicy::MintExtension);
    let mut buyer_funds: u64 = 1_000;
    let mut artist_funds: u64 = 0;
    let mut buyer_balance: u64 = 0;
    let r = mint_soulbound_tokens(
        &config,
        &mut counter,
        artist(),
        buyer(),
        u64::MAX,
        String::from("B"),
        1,
        2,
        &mut buyer_funds,
        &mut artist_funds,
        &mut buyer_balance,
    );
    assert_eq!(r.unwrap_err(), ErrorCode::MathOverflow);
    assert_eq!(buyer_funds, 1_000);
    assert_eq!(artist_funds, 0);
    assert_eq!(buyer_balance, 0);
    assert_eq!(counter.count, 0);
}

#[test]
fn purchase_at_payment_boundary_succeeds() {
    // amount * price == u64::MAX exactly: no overflow, so the purchase
    // settles when the buyer's funds cover it.
    let (config, mut counter) = fresh_mint(EnforcementPolicy::MintExtension);
    let mut buyer_funds: u64 = u64::MAX;
    let mut artist_funds: u64 = 0;
    let mut buyer_balance: u64 = 0;
    let receipt = mint_soulbound_tokens(
        &config,
        &mut counter,
        artist(),
        buyer(),
        1,
        String::from("B"),
        1,
        u64::MAX,
        &mut buyer_funds,
        &mut artist_funds,
        &mut buyer_balance,
    )
    .unwrap();
    assert_eq!(buyer_funds, 0);
    assert_eq!(artist_funds, u64::MAX);
    assert_eq!(buyer_balance, 1);
    assert_eq!(receipt.amount, 1);
}

#[test]
fn purchase_without_funds_fails() {
    let (config, mut counter) = fresh_mint(EnforcementPolicy::MintExtension);
    let mut buyer_funds: u64 = 499;
    let mut artist_funds: u64 = 0;
    let mut buyer_balance: u64 = 0;
    let r = mint_soulbound_tokens(
        &config,
        &mut counter,
        artist(),
        buyer(),
        5,
        String::from("B"),
        1,
        100,
        &mut buyer_funds,
        &mut artist_funds,
        &mut buyer_balance,
    );
    assert_eq!(r.unwrap_err(), ErrorCode::InsufficientFunds);
    assert_eq!(buyer_funds, 499);
    assert_eq!(counter.count, 0);
}

#[test]
fn purchase_under_freeze_policy_flags_freeze() {
    let (config, mut counter) = fresh_mint(EnforcementPolicy::PostIssuanceFreeze);
    let mut buyer_funds: u64 = 1_000;
    let mut artist_funds: u64 = 0;
    let mut buyer_balance: u64 = 0;
    let receipt = mint_soulbound_tokens(
        &config,
        &mut counter,
        artist(),
        buyer(),
        5,
        String::from("B"),
        1,
        100,
        &mut buyer_funds,
        &mut artist_funds,
        &mut buyer_balance,
    )
    .unwrap();
    assert!(receipt.freeze_required);
}

#[test]
fn full_registry_rejects_new_buyers_only() {
    let (config, mut counter) = fresh_mint(EnforcementPolicy::MintExtension);
    let mut artist_funds: u64 = 0;
    for k in 0..MAX_CUSTOMERS as u64 {
        let mut buyer_funds: u64 = 100;
        let mut buyer_balance: u64 = 0;
        mint_soulbound_tokens(
            &config,
            &mut counter,
            artist(),
            Identity { key: 1_000 + k },
            1,
            String::from("B"),
            k,
            1,
            &mut buyer_funds,
            &mut artist_funds,
            &mut buyer_balance,
        )
        .unwrap();
    }
    assert_eq!(counter.count, MAX_CUSTOMERS as u64);

    // One buyer past the pre-allocated capacity is rejected outright and
    // nothing moves.
    let mut buyer_funds: u64 = 100;
    let mut buyer_balance: u64 = 0;
    let before_artist_funds = artist_funds;
    let r = mint_soulbound_tokens(
        &config,
        &mut counter,
        artist(),
        Identity { key: 5_000 },
        1,
        String::from("late"),
        0,
        1,
        &mut buyer_funds,
        &mut artist_funds,
        &mut buyer_balance,
    );
    assert_eq!(r.unwrap_err(), ErrorCode::RegistryFull);
    assert_eq!(buyer_funds, 100);
    assert_eq!(buyer_balance, 0);
    assert_eq!(artist_funds, before_artist_funds);
    assert_eq!(counter.count, MAX_CUSTOMERS as u64);

    // A buyer already counted still purchases when the registry is full.
    let mut buyer_funds: u64 = 100;
    let mut buyer_balance: u64 = 0;
    let receipt = mint_soulbound_tokens(
        &config,
        &mut counter,
        artist(),
        Identity { key: 1_000 },
        1,
        String::from("returning"),
        1,
        1,
        &mut buyer_funds,
        &mut artist_funds,
        &mut buyer_balance,
    )
    .unwrap();
    assert_eq!(receipt.unique_buyers, MAX_CUSTOMERS as u64);
    assert_eq!(buyer_balance, 1);
}
