//! The balances module: how much each account holds, and transfers between
//! accounts that never lose or create funds.
use crate::support::{key_laws, Dispatch, DispatchResult, Error, Numeric};
use crate::system;
use crate::system::stored_or_zero;
use std::collections::BTreeMap;
use vstd::laws_eq::obeys_concrete_eq;
use vstd::pervasive::cloned;
use vstd::prelude::*;

verus! {

/// The types the balances module is built on.
pub trait Config: system::Config {
    /// An account's holding.
    type Balance: Numeric;
}

/// The balance of each account; an absent account holds zero.
pub struct Pallet<T: Config> {
    balances: BTreeMap<T::AccountId, T::Balance>,
}

impl<T: Config> Pallet<T> {
    /// The module's invariant: account identities obey the key laws, and
    /// every balance is in range.
    pub open spec fn wf(&self) -> bool {
        &&& key_laws::<T::AccountId>()
        &&& forall|who: T::AccountId| #[trigger] self.balance_of(who) < T::Balance::limit()
    }

    /// The stored balances, as naturals.
    pub closed spec fn balance_map(&self) -> Map<T::AccountId, nat> {
        self.balances@.map_values(|b: T::Balance| b.as_nat())
    }

    /// The balance of `who`: zero where none is stored.
    pub open spec fn balance_of(&self, who: T::AccountId) -> nat {
        stored_or_zero(self.balance_map(), who)
    }

    /// What `transfer(caller, to, amount)` does. Both balances are read before
    /// any write. Too little at `caller` fails with `InsufficientFunds`, then
    /// a sum out of range at `to` fails with `BalanceOverflow`, and either way
    /// nothing changes. Otherwise `caller` loses `amount` and `to` gains it;
    /// where the two are one account, nothing changes.
    pub open spec fn transferred(
        &self,
        caller: T::AccountId,
        to: T::AccountId,
        amount: nat,
        next: Self,
        r: DispatchResult,
    ) -> bool {
        let from_before = self.balance_of(caller);
        let to_before = self.balance_of(to);
        if from_before < amount {
            r == Err::<(), Error>(Error::InsufficientFunds) && next.balance_map() == self.balance_map()
        } else if to_before + amount >= T::Balance::limit() {
            r == Err::<(), Error>(Error::BalanceOverflow) && next.balance_map() == self.balance_map()
        } else if caller == to {
            r == Ok::<(), Error>(()) && next.balance_map() == self.balance_map()
        } else {
            r == Ok::<(), Error>(()) && next.balance_map() == self.balance_map().insert(
                caller,
                (from_before - amount) as nat,
            ).insert(to, to_before + amount)
        }
    }

    /// Create a new instance of the balances module, with no balances.
    pub fn new() -> (r: Self)
        requires
            key_laws::<T::AccountId>(),
        ensures
            r.wf(),
            r.balance_map() == Map::<T::AccountId, nat>::empty(),
    {
        let zero = T::Balance::zero();
        proof {
            zero.lemma_below_limit();
        }
        let r = Pallet { balances: BTreeMap::new() };
        assert(r.balance_map() =~= Map::<T::AccountId, nat>::empty());
        r
    }

    /// Set the balance of `who` to `amount`, storing an entry where it had none.
    pub fn set_balance(&mut self, who: &T::AccountId, amount: T::Balance)
        requires
            old(self).wf(),
        ensures
            final(self).wf(),
            final(self).balance_map() == old(self).balance_map().insert(*who, amount.as_nat()),
    {
        proof {
            amount.lemma_below_limit();
        }
        let key = who.clone();
        assert(cloned(*who, key));
        self.balances.insert(key, amount);
        assert(self.balance_map() =~= old(self).balance_map().insert(*who, amount.as_nat()));
        assert forall|a: T::AccountId| #[trigger] self.balance_of(a) < T::Balance::limit() by {
            if a != *who {
                assert(old(self).balance_of(a) < T::Balance::limit());
            }
        }
    }

    /// The balance of `who`, zero if it has none.
    pub fn balance(&self, who: &T::AccountId) -> (r: T::Balance)
        requires
            self.wf(),
        ensures
            r.as_nat() == self.balance_of(*who),
            !self.balance_map().contains_key(*who) ==> r.as_nat() == 0,
    {
        match self.balances.get(who) {
            Some(b) => *b,
            None => T::Balance::zero(),
        }
    }

    /// Move `amount` from `caller` to `to`, checking that `caller` holds
    /// enough and that `to` stays in range before anything is written.
    pub fn transfer(&mut self, caller: T::AccountId, to: T::AccountId, amount: T::Balance) -> (r:
        DispatchResult)
        requires
            old(self).wf(),
        ensures
            final(self).wf(),
            old(self).transferred(caller, to, amount.as_nat(), *final(self), r),
            old(self).balance_of(caller) < amount.as_nat() ==> {
                &&& r == Err::<(), Error>(Error::InsufficientFunds)
                &&& final(self).balance_of(caller) == old(self).balance_of(caller)
                &&& final(self).balance_of(to) == old(self).balance_of(to)
            },
            r is Ok && caller != to ==> final(self).balance_of(caller) + final(self).balance_of(to)
                == old(self).balance_of(caller) + old(self).balance_of(to),
            caller == to ==> final(self).balance_map() == old(self).balance_map(),
    {
        let caller_balance = self.balance(&caller);
        let to_balance = self.balance(&to);
        let new_caller_balance = match caller_balance.checked_sub(&amount) {
            Some(b) => b,
            None => return Err(Error::InsufficientFunds),
        };
        let new_to_balance = match to_balance.checked_add(&amount) {
            Some(b) => b,
            None => return Err(Error::BalanceOverflow),
        };
        proof {
            reveal(obeys_concrete_eq);
        }
        if caller == to {
            return Ok(());
        }
        self.set_balance(&caller, new_caller_balance);
        self.set_balance(&to, new_to_balance);
        Ok(())
    }
}

/// The balances operations that can be dispatched; the caller is supplied by
/// the dispatcher, never carried in the call.
pub enum Call<T: Config> {
    Transfer { to: T::AccountId, amount: T::Balance },
}

impl<T: Config> Dispatch for Pallet<T> {
    type Caller = T::AccountId;

    type Call = Call<T>;

    open spec fn well_formed(&self) -> bool {
        self.wf()
    }

    open spec fn dispatched(
        &self,
        caller: T::AccountId,
        call: Call<T>,
        next: Self,
        result: DispatchResult,
    ) -> bool {
        match call {
            Call::Transfer { to, amount } => self.transferred(
                caller,
                to,
                amount.as_nat(),
                next,
                result,
            ),
        }
    }

    fn dispatch(&mut self, caller: T::AccountId, call: Call<T>) -> (r: DispatchResult) {
        match call {
            Call::Transfer { to, amount } => self.transfer(caller, to, amount),
        }
    }
}

} // verus!
