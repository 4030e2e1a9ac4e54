use vstd::prelude::*;

use crate::errors::ErrorCode;
use crate::identity::Identity;

verus! {

/// Longest title a reward record can store, in characters. Storage for the
/// record is pre-allocated, so the limit is enforced at write time.
pub const MAX_TITLE_LEN: usize = 100;

/// Longest description a reward record can store, in characters.
pub const MAX_DESCRIPTION_LEN: usize = 200;

/// One redeemable offer in an issuer's catalog, keyed by (artist, id) in
/// the host's lookup namespace. The `artist` field is immutable after
/// creation and is the sole authorization key for mutation. Lifecycle:
/// created active with no claims, claimed any number of times while
/// active, retired by the artist — a one-way transition with no
/// reactivation path.
#[derive(Debug)]
pub struct Reward {
    /// The owning issuer; set at creation, never changed.
    pub artist: Identity,
    /// Caller-supplied numeric identifier, unique per artist.
    pub reward_id: u64,
    pub title: String,
    pub description: String,
    /// Tokens burned by each claim; always positive.
    pub required_tokens: u64,
    /// False once the reward is retired; nothing ever sets it back.
    pub is_active: bool,
    /// How many claims have succeeded; increments, never decrements.
    pub claim_count: u64,
}

/// Record of a reward entering the catalog.
#[derive(Debug)]
pub struct RewardAdded {
    pub artist: Identity,
    pub reward_id: u64,
    pub title: String,
    pub required_tokens: u64,
}

/// Record of a reward being retired.
#[derive(Debug)]
pub struct RewardRemoved {
    pub artist: Identity,
    pub reward_id: u64,
    pub title: String,
}

/// Record of a successful claim.
#[derive(Debug)]
pub struct RewardClaimed {
    pub artist: Identity,
    pub buyer: Identity,
    pub reward_id: u64,
    pub title: String,
    pub tokens_burned: u64,
}

impl Reward {
    /// Structural invariant: a claim must burn something, so the required
    /// quantity is positive.
    pub open spec fn wf(self) -> bool {
        self.required_tokens > 0
    }
}

/// A reward after retirement: inactive, every other field as it was.
pub open spec fn retired(r: Reward) -> Reward {
    Reward { is_active: false, ..r }
}

/// A reward after one successful claim: one more claim counted, every other
/// field as it was.
pub open spec fn claimed(r: Reward) -> Reward {
    Reward { claim_count: (r.claim_count + 1) as u64, ..r }
}

/// Create a reward for `artist`'s catalog: active, with no claims yet.
/// The (artist, id) key's uniqueness is the storage layer's to enforce at
/// insertion; the caller is the signer funding the record, so it is the
/// owning artist by construction. A reward that would require no tokens is
/// rejected as `InvalidAmount`.
pub fn add_reward(
    artist: Identity,
    reward_id: u64,
    title: String,
    description: String,
    required_tokens: u64,
) -> (r: Result<(Reward, RewardAdded), ErrorCode>)
    requires
        title@.len() <= MAX_TITLE_LEN,
        description@.len() <= MAX_DESCRIPTION_LEN,
    ensures
        r is Ok <==> required_tokens > 0,
        required_tokens == 0 ==> r == Err::<(Reward, RewardAdded), ErrorCode>(
            ErrorCode::InvalidAmount,
        ),
        required_tokens > 0 ==> ({
            let (reward, event) = r->Ok_0;
            &&& reward.wf()
            &&& reward.artist == artist
            &&& reward.reward_id == reward_id
            &&& reward.title == title
            &&& reward.description == description
            &&& reward.required_tokens == required_tokens
            &&& reward.is_active
            &&& reward.claim_count == 0
            &&& event.artist == artist
            &&& event.reward_id == reward_id
            &&& event.title == title
            &&& event.required_tokens == required_tokens
        }),
{
    if required_tokens == 0 {
        return Err(ErrorCode::InvalidAmount);
    }
    let event = RewardAdded { artist, reward_id, title: title.clone(), required_tokens };
    let reward = Reward {
        artist,
        reward_id,
        title,
        description,
        required_tokens,
        is_active: true,
        claim_count: 0,
    };
    Ok((reward, event))
}

/// Retire a reward. Only the owning artist may do it; any other caller is
/// rejected with `UnauthorizedArtist` and the record is left unchanged.
/// Retirement is one-way: it sets `is_active` to false whatever it was, and
/// no operation of this core reactivates a retired reward.
pub fn remove_reward(reward: &mut Reward, artist: Identity) -> (r: Result<
    RewardRemoved,
    ErrorCode,
>)
    ensures
        r is Ok <==> artist == old(reward).artist,
        artist != old(reward).artist ==> r == Err::<RewardRemoved, ErrorCode>(
            ErrorCode::UnauthorizedArtist,
        ) && *final(reward) == *old(reward),
        artist == old(reward).artist ==> ({
            let event = r->Ok_0;
            &&& *final(reward) == retired(*old(reward))
            &&& event.artist == artist
            &&& event.reward_id == old(reward).reward_id
            &&& event.title == old(reward).title
        }),
{
    if !(reward.artist == artist) {
        return Err(ErrorCode::UnauthorizedArtist);
    }
    reward.is_active = false;
    Ok(RewardRemoved { artist, reward_id: reward.reward_id, title: reward.title.clone() })
}

/// Redeem a reward: burn exactly `required_tokens` from the buyer's
/// holding and count the claim.
///
/// `holding_owner` and `balance` are the ledger's facts about the holding
/// account presented: who owns it and how many tokens it carries. The
/// checks come in a fixed order and the first failure wins: the reward must
/// be active (`RewardInactive`), the holding must belong to the buyer
/// (`UnauthorizedClaimer`), and the balance must cover the requirement
/// (`InsufficientTokens`). A failed claim burns nothing and counts nothing.
pub fn claim_reward(
    reward: &mut Reward,
    buyer: Identity,
    holding_owner: Identity,
    balance: &mut u64,
) -> (r: Result<RewardClaimed, ErrorCode>)
    requires
        old(reward).wf(),
        old(reward).claim_count < u64::MAX,
    ensures
        final(reward).wf(),
        r is Ok <==> (old(reward).is_active && holding_owner == buyer && *old(balance)
            >= old(reward).required_tokens),
        !old(reward).is_active ==> r == Err::<RewardClaimed, ErrorCode>(ErrorCode::RewardInactive)
            && *final(reward) == *old(reward) && *final(balance) == *old(balance),
        old(reward).is_active && holding_owner != buyer ==> r == Err::<RewardClaimed, ErrorCode>(
            ErrorCode::UnauthorizedClaimer,
        ) && *final(reward) == *old(reward) && *final(balance) == *old(balance),
        old(reward).is_active && holding_owner == buyer && *old(balance) < old(
            reward,
        ).required_tokens ==> r == Err::<RewardClaimed, ErrorCode>(ErrorCode::InsufficientTokens)
            && *final(reward) == *old(reward) && *final(balance) == *old(balance),
        r is Ok ==> ({
            let event = r->Ok_0;
            &&& *final(balance) == *old(balance) - old(reward).required_tokens
            &&& *final(reward) == claimed(*old(reward))
            &&& event.artist == old(reward).artist
            &&& event.buyer == buyer
            &&& event.reward_id == old(reward).reward_id
            &&& event.title == old(reward).title
            &&& event.tokens_burned == old(reward).required_tokens
        }),
{
    if !reward.is_active {
        return Err(ErrorCode::RewardInactive);
    }
    if !(holding_owner == buyer) {
        return Err(ErrorCode::UnauthorizedClaimer);
    }
    if *balance < reward.required_tokens {
        return Err(ErrorCode::InsufficientTokens);
    }
    *balance = *balance - reward.required_tokens;
    reward.claim_count = reward.claim_count + 1;
    Ok(RewardClaimed {
        artist: reward.artist,
        buyer,
        reward_id: reward.reward_id,
        title: reward.title.clone(),
        tokens_burned: reward.required_tokens,
    })
}

/// Retirement is idempotent and terminal: retiring a reward a second time
/// changes nothing further, and a retired reward is never active.
pub proof fn lemma_remove_idempotent(r: Reward)
    ensures
        retired(retired(r)) == retired(r),
        !retired(r).is_active,
{
}

/// A claim preserves the reward's ownership, identity, requirement and
/// activation state: only the claim counter moves, and only upward.
pub proof fn lemma_claim_monotonic(r: Reward)
    requires
        r.claim_count < u64::MAX,
    ensures
        claimed(r).artist == r.artist,
        claimed(r).reward_id == r.reward_id,
        claimed(r).title == r.title,
        claimed(r).required_tokens == r.required_tokens,
        claimed(r).is_active == r.is_active,
        claimed(r).claim_count >= r.claim_count,
{
}

} // verus!
