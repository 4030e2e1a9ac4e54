use vstd::prelude::*;

use crate::errors::ErrorCode;
use crate::identity::Identity;

verus! {

/// Capacity of one issuer's customer registry. Storage for the registry is
/// pre-allocated, so exceeding this bound is rejected with
/// `ErrorCode::RegistryFull`, never silently truncated.
pub const MAX_CUSTOMERS: usize = 100;

/// One issuer's record of unique buyers: the identities that have purchased
/// at least once, each counted exactly once, together with the running
/// count. Created empty at mint creation; mutated on every first-time
/// purchase by a given buyer; never destroyed.
#[derive(Debug)]
pub struct CustomerCounter {
    /// The issuer whose buyers this record counts.
    pub issuer: Identity,
    /// Number of unique buyers counted so far.
    pub count: u64,
    /// The identities already counted, in order of first purchase.
    pub buyers: Vec<Identity>,
}

/// The set-semantics registry update: a buyer already counted leaves the
/// record as it is, a new buyer is appended.
pub open spec fn registered(buyers: Seq<Identity>, buyer: Identity) -> Seq<Identity> {
    if buyers.contains(buyer) {
        buyers
    } else {
        buyers.push(buyer)
    }
}

/// The registry after `n` consecutive purchases, all by the same `buyer`.
pub open spec fn registered_many(buyers: Seq<Identity>, buyer: Identity, n: nat) -> Seq<Identity>
    decreases n,
{
    if n == 0 {
        buyers
    } else {
        registered(registered_many(buyers, buyer, (n - 1) as nat), buyer)
    }
}

impl CustomerCounter {
    /// Structural invariant: the count always equals the size of the
    /// identity collection, no identity appears twice, and the collection
    /// never exceeds its pre-allocated capacity.
    pub open spec fn wf(self) -> bool {
        &&& self.count == self.buyers@.len()
        &&& self.buyers@.len() <= MAX_CUSTOMERS
        &&& self.buyers@.no_duplicates()
    }

    /// Whether `buyer` has already been counted.
    pub open spec fn spec_contains(self, buyer: Identity) -> bool {
        self.buyers@.contains(buyer)
    }

    /// A fresh, empty registry for `issuer`.
    pub fn new(issuer: Identity) -> (r: CustomerCounter)
        ensures
            r.wf(),
            r.issuer == issuer,
            r.count == 0,
            r.buyers@ == Seq::<Identity>::empty(),
    {
        CustomerCounter { issuer, count: 0, buyers: Vec::new() }
    }

    /// Linear membership scan over the counted identities.
    pub fn contains_buyer(&self, buyer: Identity) -> (r: bool)
        ensures
            r == self.spec_contains(buyer),
    {
        let mut i: usize = 0;
        while i < self.buyers.len()
            invariant
                i <= self.buyers@.len(),
                forall|j: int| 0 <= j < i ==> self.buyers@[j] != buyer,
            decreases self.buyers@.len() - i,
        {
            if self.buyers[i] == buyer {
                return true;
            }
            i = i + 1;
        }
        false
    }

    /// Count `buyer` if this is their first purchase: an idempotent,
    /// set-semantics update. Returns `Ok(true)` when the buyer was newly
    /// appended, `Ok(false)` when they were already counted (no change),
    /// and `Err(RegistryFull)` — changing nothing — when a new buyer would
    /// exceed the pre-allocated capacity.
    pub fn record_buyer(&mut self, buyer: Identity) -> (r: Result<bool, ErrorCode>)
        requires
            old(self).wf(),
        ensures
            final(self).wf(),
            final(self).issuer == old(self).issuer,
            r is Ok <==> (old(self).spec_contains(buyer)
                || old(self).buyers@.len() < MAX_CUSTOMERS),
            match r {
                Ok(added) => {
                    &&& final(self).buyers@ == registered(old(self).buyers@, buyer)
                    &&& added == !old(self).spec_contains(buyer)
                    &&& final(self).spec_contains(buyer)
                    &&& final(self).count == old(self).count
                        + (if old(self).spec_contains(buyer) { 0int } else { 1int })
                },
                Err(e) => {
                    &&& e == ErrorCode::RegistryFull
                    &&& *final(self) == *old(self)
                },
            },
    {
        if self.contains_buyer(buyer) {
            return Ok(false);
        }
        if self.buyers.len() == MAX_CUSTOMERS {
            return Err(ErrorCode::RegistryFull);
        }
        self.buyers.push(buyer);
        self.count = self.count + 1;
        proof {
            let bs = old(self).buyers@;
            assert(self.buyers@ == bs.push(buyer));
            assert(self.buyers@[bs.len() as int] == buyer);
            assert(self.buyers@.contains(buyer));
            assert forall|i: int, j: int|
                0 <= i < self.buyers@.len() && 0 <= j < self.buyers@.len() && i != j
                implies self.buyers@[i] != self.buyers@[j] by {
                if i == bs.len() {
                    assert(bs[j] != buyer);
                } else if j == bs.len() {
                    assert(bs[i] != buyer);
                }
            }
        }
        Ok(true)
    }
}

/// After a registry update the buyer is always counted.
pub proof fn lemma_registered_contains(buyers: Seq<Identity>, buyer: Identity)
    ensures
        registered(buyers, buyer).contains(buyer),
{
    if !buyers.contains(buyer) {
        assert(buyers.push(buyer)[buyers.len() as int] == buyer);
    }
}

/// A buyer already counted is never counted again: updating the registry
/// with a buyer it contains changes nothing.
pub proof fn lemma_registered_idempotent(buyers: Seq<Identity>, buyer: Identity)
    requires
        buyers.contains(buyer),
    ensures
        registered(buyers, buyer) == buyers,
{
}

/// Over any sequence of purchases by one buyer, the unique-buyer record
/// changes exactly as it does on the first of them, and the count rises by
/// exactly one when the buyer was new — however many purchases follow.
pub proof fn lemma_unique_buyer_counted_once(buyers: Seq<Identity>, buyer: Identity, n: nat)
    requires
        n >= 1,
    ensures
        registered_many(buyers, buyer, n) == registered(buyers, buyer),
        registered_many(buyers, buyer, n).len() == buyers.len()
            + (if buyers.contains(buyer) { 0int } else { 1int }),
    decreases n,
{
    lemma_registered_contains(buyers, buyer);
    if n == 1 {
        assert(registered_many(buyers, buyer, 0) == buyers);
        assert(registered_many(buyers, buyer, 1) == registered(buyers, buyer));
    } else {
        lemma_unique_buyer_counted_once(buyers, buyer, (n - 1) as nat);
        lemma_registered_idempotent(registered(buyers, buyer), buyer);
        assert(registered_many(buyers, buyer, n)
            == registered(registered_many(buyers, buyer, (n - 1) as nat), buyer));
    }
}

} // verus!
