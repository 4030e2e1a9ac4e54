use vstd::prelude::*;

use crate::errors::ErrorCode;
use crate::identity::{EnforcementPolicy, Identity};
use crate::mint::MintConfig;
use crate::registry::{registered, CustomerCounter, MAX_CUSTOMERS};

verus! {

/// The record a successful purchase emits, for external observers and
/// indexers.
#[derive(Debug)]
pub struct SoulboundTokensMinted {
    /// The issuer that minted and was paid.
    pub artist: Identity,
    /// The buyer that paid and received the tokens.
    pub buyer: Identity,
    /// Number of tokens issued.
    pub amount: u64,
    /// Caller-supplied metadata carried through unchanged.
    pub buyer_name: String,
    /// Caller-supplied metadata carried through unchanged.
    pub ticket_number: u64,
    /// The unique-buyer count after this purchase.
    pub unique_buyers: u64,
    /// Whether the host must still freeze the receiving holding: true
    /// exactly under the post-issuance-freeze policy. Under the
    /// mint-extension policy the ledger enforces non-transferability by
    /// itself and nothing remains to do.
    pub freeze_required: bool,
}

/// The first check a purchase fails, in the order the checks are made, or
/// `None` when every check passes. The registry-capacity check comes last
/// but, like all the others, is decided before anything is mutated.
pub open spec fn purchase_error(
    config: MintConfig,
    counter: CustomerCounter,
    artist: Identity,
    buyer: Identity,
    amount: u64,
    price_per_token: u64,
    buyer_funds: u64,
) -> Option<ErrorCode> {
    if artist != config.authority {
        Some(ErrorCode::UnauthorizedMinter)
    } else if amount == 0 {
        Some(ErrorCode::InvalidAmount)
    } else if amount * price_per_token > u64::MAX {
        Some(ErrorCode::MathOverflow)
    } else if buyer_funds < amount * price_per_token {
        Some(ErrorCode::InsufficientFunds)
    } else if !counter.spec_contains(buyer) && counter.buyers@.len() >= MAX_CUSTOMERS {
        Some(ErrorCode::RegistryFull)
    } else {
        None
    }
}

/// Settle a purchase atomically: debit `amount * price_per_token` from the
/// buyer's funds and credit the artist, issue `amount` tokens to the
/// buyer's holding, and count the buyer in the issuer's registry if this is
/// their first purchase — all of it, or none of it.
///
/// `artist` is the identity signing as minter and must be the mint's stored
/// authority. The fund and holding balances are the ledger collaborator's
/// records, handed in by the host and written back by it; the two fund
/// balances draw on one bounded pool and the holding has headroom for the
/// issuance, which the host checks before calling. Every check precedes
/// every mutation, so a failed purchase changes nothing and reports the
/// first failing check.
pub fn mint_soulbound_tokens(
    config: &MintConfig,
    counter: &mut CustomerCounter,
    artist: Identity,
    buyer: Identity,
    amount: u64,
    buyer_name: String,
    ticket_number: u64,
    price_per_token: u64,
    buyer_funds: &mut u64,
    artist_funds: &mut u64,
    buyer_balance: &mut u64,
) -> (r: Result<SoulboundTokensMinted, ErrorCode>)
    requires
        config.wf(),
        old(counter).wf(),
        old(counter).issuer == config.authority,
        *old(buyer_funds) + *old(artist_funds) <= u64::MAX,
        *old(buyer_balance) + amount <= u64::MAX,
    ensures
        final(counter).wf(),
        final(counter).issuer == old(counter).issuer,
        match purchase_error(
            *config,
            *old(counter),
            artist,
            buyer,
            amount,
            price_per_token,
            *old(buyer_funds),
        ) {
            Some(e) => {
                &&& r == Err::<SoulboundTokensMinted, ErrorCode>(e)
                &&& *final(counter) == *old(counter)
                &&& *final(buyer_funds) == *old(buyer_funds)
                &&& *final(artist_funds) == *old(artist_funds)
                &&& *final(buyer_balance) == *old(buyer_balance)
            },
            None => ({
                let total = amount * price_per_token;
                let receipt = r->Ok_0;
                &&& r is Ok
                &&& *final(buyer_funds) == *old(buyer_funds) - total
                &&& *final(artist_funds) == *old(artist_funds) + total
                &&& *final(buyer_balance) == *old(buyer_balance) + amount
                &&& final(counter).buyers@ == registered(old(counter).buyers@, buyer)
                &&& final(counter).count == final(counter).buyers@.len()
                &&& final(counter).spec_contains(buyer)
                &&& receipt.artist == artist
                &&& receipt.buyer == buyer
                &&& receipt.amount == amount
                &&& receipt.buyer_name == buyer_name
                &&& receipt.ticket_number == ticket_number
                &&& receipt.unique_buyers == final(counter).count
                &&& receipt.freeze_required == (config.enforcement is PostIssuanceFreeze)
            }),
        },
{
    if artist != config.authority {
        return Err(ErrorCode::UnauthorizedMinter);
    }
    if amount == 0 {
        return Err(ErrorCode::InvalidAmount);
    }
    let total: u64 = match amount.checked_mul(price_per_token) {
        Some(t) => t,
        None => {
            return Err(ErrorCode::MathOverflow);
        },
    };
    if *buyer_funds < total {
        return Err(ErrorCode::InsufficientFunds);
    }
    // The registry update is the only remaining step that can fail; it
    // either completes or leaves the registry untouched, so the whole
    // purchase stays all-or-nothing.
    match counter.record_buyer(buyer) {
        Ok(_) => {},
        Err(e) => {
            return Err(e);
        },
    }
    *buyer_funds = *buyer_funds - total;
    *artist_funds = *artist_funds + total;
    *buyer_balance = *buyer_balance + amount;
    let freeze_required: bool = match config.enforcement {
        EnforcementPolicy::MintExtension => false,
        EnforcementPolicy::PostIssuanceFreeze => true,
    };
    Ok(SoulboundTokensMinted {
        artist,
        buyer,
        amount,
        buyer_name,
        ticket_number,
        unique_buyers: counter.count,
        freeze_required,
    })
}

} // verus!
