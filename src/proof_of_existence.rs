//! The proof-of-existence module: accounts claim pieces of content, each piece
//! owned by at most one account at a time.
use crate::support::{key_laws, Dispatch, DispatchResult, Error};
use crate::system;
use std::collections::BTreeMap;
use vstd::laws_cmp::obeys_cmp;
use vstd::laws_eq::obeys_concrete_eq;
use vstd::prelude::*;

verus! {

/// The types the proof-of-existence module is built on.
pub trait Config: system::Config {
    /// What can be claimed: the content itself, or better a digest of it.
    type Content: Ord;
}

/// The owner of each claimed piece of content.
pub struct Pallet<T: Config> {
    claims: BTreeMap<T::Content, T::AccountId>,
}

impl<T: Config> Pallet<T> {
    /// The module's invariant: account identities obey the key laws, and
    /// content is totally ordered.
    pub open spec fn wf(&self) -> bool {
        key_laws::<T::AccountId>() && obeys_cmp::<T::Content>()
    }

    /// The claims: each claimed content with its owner.
    pub closed spec fn claim_map(&self) -> Map<T::Content, T::AccountId> {
        self.claims@
    }

    /// What `create_claim(caller, claim)` does: content already claimed fails
    /// with `ClaimAlreadyExists` and changes nothing; otherwise `caller`
    /// becomes its owner.
    pub open spec fn claim_created(
        &self,
        caller: T::AccountId,
        claim: T::Content,
        next: Self,
        r: DispatchResult,
    ) -> bool {
        if self.claim_map().contains_key(claim) {
            r == Err::<(), Error>(Error::ClaimAlreadyExists) && next.claim_map() == self.claim_map()
        } else {
            r == Ok::<(), Error>(()) && next.claim_map() == self.claim_map().insert(claim, caller)
        }
    }

    /// What `revoke_claim(caller, claim)` does: unclaimed content fails with
    /// `ClaimNotFound`, a caller other than the owner fails with
    /// `NotClaimOwner`, and either way nothing changes; otherwise the claim is
    /// removed.
    pub open spec fn claim_revoked(
        &self,
        caller: T::AccountId,
        claim: T::Content,
        next: Self,
        r: DispatchResult,
    ) -> bool {
        if !self.claim_map().contains_key(claim) {
            r == Err::<(), Error>(Error::ClaimNotFound) && next.claim_map() == self.claim_map()
        } else if self.claim_map()[claim] != caller {
            r == Err::<(), Error>(Error::NotClaimOwner) && next.claim_map() == self.claim_map()
        } else {
            r == Ok::<(), Error>(()) && next.claim_map() == self.claim_map().remove(claim)
        }
    }

    /// Create a new instance of the proof-of-existence module, with no claims.
    pub fn new() -> (r: Self)
        requires
            key_laws::<T::AccountId>(),
            obeys_cmp::<T::Content>(),
        ensures
            r.wf(),
            r.claim_map() == Map::<T::Content, T::AccountId>::empty(),
    {
        Pallet { claims: BTreeMap::new() }
    }

    /// The owner of `claim`, if it is claimed.
    pub fn get_claim(&self, claim: &T::Content) -> (r: Option<&T::AccountId>)
        requires
            self.wf(),
        ensures
            match r {
                Some(owner) => self.claim_map().contains_key(*claim) && *owner == self.claim_map()[*claim],
                None => !self.claim_map().contains_key(*claim),
            },
    {
        self.claims.get(claim)
    }

    /// Claim `claim` for `caller`; fails if anyone has claimed it already.
    pub fn create_claim(&mut self, caller: T::AccountId, claim: T::Content) -> (r: DispatchResult)
        requires
            old(self).wf(),
        ensures
            final(self).wf(),
            old(self).claim_created(caller, claim, *final(self), r),
    {
        if self.get_claim(&claim).is_some() {
            return Err(Error::ClaimAlreadyExists);
        }
        self.claims.insert(claim, caller);
        Ok(())
    }

    /// Remove the claim on `claim`; only its owner may do so.
    pub fn revoke_claim(&mut self, caller: T::AccountId, claim: T::Content) -> (r: DispatchResult)
        requires
            old(self).wf(),
        ensures
            final(self).wf(),
            old(self).claim_revoked(caller, claim, *final(self), r),
            old(self).claim_map().contains_key(claim) && old(self).claim_map()[claim] != caller ==> {
                &&& r == Err::<(), Error>(Error::NotClaimOwner)
                &&& final(self).claim_map() == old(self).claim_map()
            },
    {
        let owner = match self.get_claim(&claim) {
            Some(owner) => owner,
            None => return Err(Error::ClaimNotFound),
        };
        proof {
            reveal(obeys_concrete_eq);
        }
        if *owner != caller {
            return Err(Error::NotClaimOwner);
        }
        self.claims.remove(&claim);
        Ok(())
    }
}

/// A second claim on content right after a first, by another caller, fails
/// with `ClaimAlreadyExists` and leaves the owner that the first call left;
/// where the first call succeeded, that owner is its caller.
pub proof fn lemma_second_claim_fails<T: Config>(
    start: Pallet<T>,
    first: T::AccountId,
    second: T::AccountId,
    claim: T::Content,
    middle: Pallet<T>,
    r1: DispatchResult,
    end: Pallet<T>,
    r2: DispatchResult,
)
    requires
        first != second,
        start.claim_created(first, claim, middle, r1),
        middle.claim_created(second, claim, end, r2),
    ensures
        r2 == Err::<(), Error>(Error::ClaimAlreadyExists),
        end.claim_map() == middle.claim_map(),
        r1 is Ok ==> end.claim_map()[claim] == first,
{
}

/// The proof-of-existence operations that can be dispatched; the caller is
/// supplied by the dispatcher, never carried in the call.
pub enum Call<T: Config> {
    CreateClaim(T::Content),
    RevokeClaim(T::Content),
}

impl<T: Config> Dispatch for Pallet<T> {
    type Caller = T::AccountId;

    type Call = Call<T>;

    open spec fn well_formed(&self) -> bool {
        self.wf()
    }

    open spec fn dispatched(
        &self,
        caller: T::AccountId,
        call: Call<T>,
        next: Self,
        result: DispatchResult,
    ) -> bool {
        match call {
            Call::CreateClaim(claim) => self.claim_created(caller, claim, next, result),
            Call::RevokeClaim(claim) => self.claim_revoked(caller, claim, next, result),
        }
    }

    fn dispatch(&mut self, caller: T::AccountId, call: Call<T>) -> (r: DispatchResult) {
        match call {
            Call::CreateClaim(claim) => self.create_claim(caller, claim),
            Call::RevokeClaim(claim) => self.revoke_claim(caller, claim),
        }
    }
}

} // verus!
