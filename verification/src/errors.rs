use vstd::prelude::*;

verus! {

/// Every failure an operation of the core can report. All checks are
/// preconditions validated before any mutation: a failed operation leaves
/// every record it touches unchanged and surfaces the specific kind, so a
/// caller can tell "not enough funds" from "not enough tokens" from "not
/// authorized".
#[derive(Clone, Copy, Debug, PartialEq, Eq, Structural)]
pub enum ErrorCode {
    /// The caller of a mint or authority-gated burn is not the identity the
    /// record designates.
    UnauthorizedMinter,
    /// `quantity * unit_price` does not fit in 64 bits.
    MathOverflow,
    /// The buyer's funds do not cover the computed total payment.
    InsufficientFunds,
    /// A quantity that must be positive was zero.
    InvalidAmount,
    /// The caller of a reward mutation is not the reward's owning artist.
    UnauthorizedArtist,
    /// The reward has been retired and can no longer be claimed.
    RewardInactive,
    /// The holding account presented for a claim is not owned by the buyer.
    UnauthorizedClaimer,
    /// The holding's balance is below the reward's required token quantity.
    InsufficientTokens,
    /// A mint already exists under this issuer's key.
    DuplicateMint,
    /// The issuer's customer registry has reached its pre-allocated capacity
    /// and cannot count another first-time buyer.
    RegistryFull,
    /// The ledger collaborator refused an operation (a burn of more tokens
    /// than the holding carries).
    LedgerError,
}

} // verus!
