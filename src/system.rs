//! The system module: the block counter and the per-account nonces.
use crate::support::{key_laws, Numeric};
use std::collections::BTreeMap;
use vstd::pervasive::cloned;
use vstd::prelude::*;

verus! {

/// The types the system module is built on.
pub trait Config {
    /// The identity of an account: the key of every per-account map.
    type AccountId: Ord + Clone;
    /// The count of blocks processed.
    type BlockNumber: Numeric;
    /// The count of operations dispatched for one account.
    type Nonce: Numeric;
}

/// Low-level bookkeeping: the current block and each account's nonce.
pub struct Pallet<T: Config> {
    /// The current block number.
    block_number: T::BlockNumber,
    /// Each account's nonce; an absent account has nonce zero.
    nonce: BTreeMap<T::AccountId, T::Nonce>,
}

/// The value that a map of scalars stores for `k`, zero where it has none.
pub open spec fn stored_or_zero<K>(m: Map<K, nat>, k: K) -> nat {
    if m.contains_key(k) {
        m[k]
    } else {
        0
    }
}

impl<T: Config> Pallet<T> {
    /// The module's invariant: account identities obey the key laws.
    pub open spec fn wf(&self) -> bool {
        key_laws::<T::AccountId>()
    }

    /// The current block number, as a natural.
    pub closed spec fn block(&self) -> nat {
        self.block_number.as_nat()
    }

    /// The stored nonces, as naturals.
    pub closed spec fn nonces(&self) -> Map<T::AccountId, nat> {
        self.nonce@.map_values(|n: T::Nonce| n.as_nat())
    }

    /// The nonce of `who`: zero where none is stored.
    pub open spec fn nonce_of(&self, who: T::AccountId) -> nat {
        stored_or_zero(self.nonces(), who)
    }

    /// What `inc_block_number` does: the block advances by one and the
    /// nonces stay.
    pub open spec fn block_advanced(&self, next: Self) -> bool {
        &&& next.block() == self.block() + 1
        &&& next.nonces() == self.nonces()
    }

    /// What `inc_nonce(who)` does: the nonce of `who` is stored one higher
    /// and everything else stays.
    pub open spec fn nonce_incremented(&self, who: T::AccountId, next: Self) -> bool {
        &&& next.block() == self.block()
        &&& next.nonces() == self.nonces().insert(who, self.nonce_of(who) + 1)
    }

    /// Create a new instance of the system module: block zero, no nonces.
    pub fn new() -> (r: Self)
        requires
            key_laws::<T::AccountId>(),
        ensures
            r.wf(),
            r.block() == 0,
            r.nonces() == Map::<T::AccountId, nat>::empty(),
    {
        let r = Pallet { block_number: T::BlockNumber::zero(), nonce: BTreeMap::new() };
        assert(r.nonces() =~= Map::<T::AccountId, nat>::empty());
        r
    }

    /// The current block number.
    pub fn block_number(&self) -> (r: T::BlockNumber)
        ensures
            r.as_nat() == self.block(),
    {
        self.block_number
    }

    /// Advance the block number by one. The counter is unchecked: the caller
    /// keeps it below the largest block number.
    pub fn inc_block_number(&mut self)
        requires
            old(self).block() + 1 < T::BlockNumber::limit(),
        ensures
            old(self).block_advanced(*final(self)),
    {
        let one = T::BlockNumber::one();
        self.block_number = self.block_number.add(&one);
    }

    /// The nonce of `who`, zero if it has none.
    pub fn nonce(&self, who: &T::AccountId) -> (r: T::Nonce)
        requires
            self.wf(),
        ensures
            r.as_nat() == self.nonce_of(*who),
            !self.nonces().contains_key(*who) ==> r.as_nat() == 0,
    {
        match self.nonce.get(who) {
            Some(n) => *n,
            None => T::Nonce::zero(),
        }
    }

    /// Increment the nonce of `who`, storing an entry where it had none. The
    /// counter is unchecked: the caller keeps it below the largest nonce.
    pub fn inc_nonce(&mut self, who: &T::AccountId)
        requires
            old(self).wf(),
            old(self).nonce_of(*who) + 1 < T::Nonce::limit(),
        ensures
            final(self).wf(),
            old(self).nonce_incremented(*who, *final(self)),
    {
        let current = self.nonce(who);
        let one = T::Nonce::one();
        let next = current.add(&one);
        let key = who.clone();
        assert(cloned(*who, key));
        self.nonce.insert(key, next);
        assert(self.nonces() =~= old(self).nonces().insert(*who, old(self).nonce_of(*who) + 1));
    }
}

/// Advancing the block `n` times from block zero yields block number `n`:
/// `states` holds the module before the first call and after each call.
pub proof fn lemma_block_counts_advances<T: Config>(states: Seq<Pallet<T>>)
    requires
        states.len() >= 1,
        states[0].block() == 0,
        forall|i: int|
            0 <= i < states.len() - 1 ==> #[trigger] states[i].block_advanced(states[i + 1]),
    ensures
        states.last().block() == states.len() - 1,
    decreases states.len(),
{
    if states.len() > 1 {
        let prefix = states.drop_last();
        assert forall|i: int| 0 <= i < prefix.len() - 1 implies #[trigger] prefix[i].block_advanced(
            prefix[i + 1],
        ) by {
            assert(states[i].block_advanced(states[i + 1]));
        }
        lemma_block_counts_advances(prefix);
        let k = states.len() - 2;
        assert(states[k].block_advanced(states[k + 1]));
    }
}

/// Incrementing the nonce of `who` `n` times, starting where it has none,
/// yields nonce `n`: `states` holds the module before the first call and
/// after each call.
pub proof fn lemma_nonce_counts_increments<T: Config>(who: T::AccountId, states: Seq<Pallet<T>>)
    requires
        states.len() >= 1,
        states[0].nonce_of(who) == 0,
        forall|i: int|
            0 <= i < states.len() - 1 ==> #[trigger] states[i].nonce_incremented(who, states[i + 1]),
    ensures
        states.last().nonce_of(who) == states.len() - 1,
    decreases states.len(),
{
    if states.len() > 1 {
        let prefix = states.drop_last();
        assert forall|i: int| 0 <= i < prefix.len() - 1 implies #[trigger] prefix[i].nonce_incremented(
            who,
            prefix[i + 1],
        ) by {
            assert(states[i].nonce_incremented(who, states[i + 1]));
        }
        lemma_nonce_counts_increments(who, prefix);
        let k = states.len() - 2;
        assert(prefix.last() == states[k]);
        assert(states[k].nonce_incremented(who, states[k + 1]));
        assert(states[k + 1].nonce_of(who) == states[k].nonce_of(who) + 1);
    }
}

} // verus!
