use vstd::prelude::*;

verus! {

/// A principal of the system: an issuer (artist), a buyer, or a designated
/// burn authority. The host execution environment identifies principals by
/// opaque public keys; the core only ever compares them for equality, so a
/// principal is modeled by a plain numeric key.
#[derive(Clone, Copy, Debug, PartialEq, Eq, Structural)]
pub struct Identity {
    pub key: u64,
}

/// How a mint makes its tokens non-transferable. The policy is chosen once,
/// at mint creation, and stored in the mint configuration; mixing policies
/// across operations on one mint is a correctness hazard.
#[derive(Clone, Copy, Debug, PartialEq, Eq, Structural)]
pub enum EnforcementPolicy {
    /// The ledger rejects every transfer of this mint's tokens on its own:
    /// nothing needs to happen after an issuance.
    MintExtension,
    /// Each holding account must be frozen by the freeze authority after
    /// every issuance, or the soulbound guarantee is violated.
    PostIssuanceFreeze,
}

} // verus!
