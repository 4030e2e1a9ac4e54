use vstd::prelude::*;

use crate::errors::ErrorCode;
use crate::identity::{EnforcementPolicy, Identity};
use crate::registry::CustomerCounter;

verus! {

/// One issuer's token class. Created once per issuer and never destroyed.
/// The total-issued counter is owned and mutated only by the ledger
/// collaborator; this core reads it and never writes it.
#[derive(Clone, Copy, Debug)]
pub struct MintConfig {
    /// The identity allowed to mint: the issuer itself.
    pub authority: Identity,
    /// The identity allowed to freeze holdings: always the same issuer.
    pub freeze_authority: Identity,
    /// Decimal precision of the token.
    pub decimals: u8,
    /// Total tokens issued so far, maintained by the ledger collaborator.
    pub supply: u64,
    /// How this mint's tokens are kept non-transferable.
    pub enforcement: EnforcementPolicy,
}

impl MintConfig {
    /// Single-authority invariant: the mint authority and the freeze
    /// authority are the same identity for the lifetime of the mint. Every
    /// mutating call on the mint's records relies on it explicitly.
    pub open spec fn wf(self) -> bool {
        self.authority == self.freeze_authority
    }
}

/// Create a mint for `artist` together with its empty customer registry.
///
/// `mint_exists` is the storage layer's report of a key collision: whether a
/// mint is already stored under this issuer's key. Creation is then rejected
/// with `DuplicateMint`, never silently overwritten. The name and symbol are
/// declarative metadata kept by the host, not by this core. No token supply
/// exists until the first purchase.
pub fn create_mint_account(
    artist: Identity,
    _name: String,
    _symbol: String,
    decimals: u8,
    enforcement: EnforcementPolicy,
    mint_exists: bool,
) -> (r: Result<(MintConfig, CustomerCounter), ErrorCode>)
    ensures
        r is Ok <==> !mint_exists,
        mint_exists ==> r == Err::<(MintConfig, CustomerCounter), ErrorCode>(
            ErrorCode::DuplicateMint,
        ),
        !mint_exists ==> ({
            let (config, counter) = r->Ok_0;
            &&& config.wf()
            &&& config.authority == artist
            &&& config.freeze_authority == artist
            &&& config.decimals == decimals
            &&& config.supply == 0
            &&& config.enforcement == enforcement
            &&& counter.wf()
            &&& counter.issuer == artist
            &&& counter.count == 0
            &&& counter.buyers@ == Seq::<Identity>::empty()
        }),
{
    if mint_exists {
        return Err(ErrorCode::DuplicateMint);
    }
    let config = MintConfig {
        authority: artist,
        freeze_authority: artist,
        decimals,
        supply: 0,
        enforcement,
    };
    let counter = CustomerCounter::new(artist);
    Ok((config, counter))
}

/// Report whether this mint's tokens are non-transferable on the ledger's
/// own account. True under the mint-extension policy, where the ledger
/// rejects every transfer by itself and no per-account enforcement call is
/// ever needed; false under the post-issuance-freeze policy, where every
/// issuance must be followed by a freeze of the receiving holding.
pub fn verify_non_transferable(config: &MintConfig) -> (r: bool)
    ensures
        r == (config.enforcement is MintExtension),
{
    match config.enforcement {
        EnforcementPolicy::MintExtension => true,
        EnforcementPolicy::PostIssuanceFreeze => false,
    }
}

} // verus!
