use vstd::prelude::*;

use crate::errors::ErrorCode;
use crate::identity::Identity;
use crate::registry::CustomerCounter;

verus! {

/// An issuer's registered burn principal: the one identity, distinct from
/// the buyers, allowed to burn a buyer's tokens out of band (for an
/// external reward-fulfillment process). The capability is granted by
/// explicit registration and checked by lookup — never by trusting whoever
/// signs as the role.
#[derive(Clone, Copy, Debug)]
pub struct BurnAuthorityRecord {
    /// The issuer the capability belongs to.
    pub issuer: Identity,
    /// The identity the issuer has authorized to burn.
    pub authority: Identity,
}

/// Register `authority` as `issuer`'s burn principal. The record is stored
/// under the issuer's key by the host, one per issuer; the caller is the
/// issuer funding it, so the grant is the issuer's own act.
pub fn register_burn_authority(issuer: Identity, authority: Identity) -> (r: BurnAuthorityRecord)
    ensures
        r.issuer == issuer,
        r.authority == authority,
{
    BurnAuthorityRecord { issuer, authority }
}

/// Burn `amount` tokens from a buyer's holding on the authority of the
/// issuer's registered burn principal, outside the redemption flow.
///
/// `holding_owner` and `balance` are the ledger's facts about the holding
/// account presented. The checks come in a fixed order and the first
/// failure wins, each rejected before anything changes: the holding must
/// belong to `buyer` and the buyer must be a counted customer of the
/// issuer (`UnauthorizedMinter` either way), and `caller` must be the
/// registered burn principal (`UnauthorizedMinter`). The burn itself fails
/// as `LedgerError` when the holding carries fewer than `amount` tokens.
/// On success the holding is debited by exactly `amount`, which is
/// returned for the host's burn call.
pub fn burn_as_authority(
    record: &BurnAuthorityRecord,
    counter: &CustomerCounter,
    caller: Identity,
    buyer: Identity,
    holding_owner: Identity,
    amount: u64,
    balance: &mut u64,
) -> (r: Result<u64, ErrorCode>)
    requires
        counter.wf(),
        counter.issuer == record.issuer,
    ensures
        r is Ok <==> (holding_owner == buyer && counter.spec_contains(buyer) && caller
            == record.authority && *old(balance) >= amount),
        r is Ok ==> r == Ok::<u64, ErrorCode>(amount) && *final(balance) == *old(balance) - amount,
        r is Err ==> *final(balance) == *old(balance),
        holding_owner != buyer ==> r == Err::<u64, ErrorCode>(ErrorCode::UnauthorizedMinter),
        holding_owner == buyer && !counter.spec_contains(buyer) ==> r == Err::<u64, ErrorCode>(
            ErrorCode::UnauthorizedMinter,
        ),
        holding_owner == buyer && counter.spec_contains(buyer) && caller != record.authority ==> r
            == Err::<u64, ErrorCode>(ErrorCode::UnauthorizedMinter),
        holding_owner == buyer && counter.spec_contains(buyer) && caller == record.authority
            && *old(balance) < amount ==> r == Err::<u64, ErrorCode>(ErrorCode::LedgerError),
{
    if !(holding_owner == buyer) {
        return Err(ErrorCode::UnauthorizedMinter);
    }
    if !counter.contains_buyer(buyer) {
        return Err(ErrorCode::UnauthorizedMinter);
    }
    if !(caller == record.authority) {
        return Err(ErrorCode::UnauthorizedMinter);
    }
    if *balance < amount {
        return Err(ErrorCode::LedgerError);
    }
    *balance = *balance - amount;
    Ok(amount)
}

} // verus!
