//! The runtime: one instance of each module's state, changed only through
//! dispatch of one call at a time.
use crate::balances;
use crate::proof_of_existence;
use crate::support::{key_laws, Dispatch, DispatchResult};
use crate::system;
use vstd::laws_cmp::obeys_cmp;
use vstd::prelude::*;

verus! {

/// The state of every module, side by side.
pub struct Runtime<T: balances::Config + proof_of_existence::Config> {
    pub system: system::Pallet<T>,
    pub balances: balances::Pallet<T>,
    pub proof_of_existence: proof_of_existence::Pallet<T>,
}

/// A call to one of the modules.
pub enum RuntimeCall<T: balances::Config + proof_of_existence::Config> {
    Balances(balances::Call<T>),
    ProofOfExistence(proof_of_existence::Call<T>),
}

impl<T: balances::Config + proof_of_existence::Config> Runtime<T> {
    /// Create a new runtime, with every module in its empty state.
    pub fn new() -> (r: Self)
        requires
            key_laws::<T::AccountId>(),
            obeys_cmp::<T::Content>(),
        ensures
            r.well_formed(),
            r.system.block() == 0,
            r.system.nonces() == Map::<T::AccountId, nat>::empty(),
            r.balances.balance_map() == Map::<T::AccountId, nat>::empty(),
            r.proof_of_existence.claim_map() == Map::<T::Content, T::AccountId>::empty(),
    {
        Runtime {
            system: system::Pallet::new(),
            balances: balances::Pallet::new(),
            proof_of_existence: proof_of_existence::Pallet::new(),
        }
    }
}

impl<T: balances::Config + proof_of_existence::Config> Dispatch for Runtime<T> {
    type Caller = T::AccountId;

    type Call = RuntimeCall<T>;

    open spec fn well_formed(&self) -> bool {
        &&& self.system.wf()
        &&& self.balances.wf()
        &&& self.proof_of_existence.wf()
    }

    /// The call goes to the module it names, which alone changes; the result
    /// is that module's, unchanged.
    open spec fn dispatched(
        &self,
        caller: T::AccountId,
        call: RuntimeCall<T>,
        next: Self,
        result: DispatchResult,
    ) -> bool {
        &&& next.system == self.system
        &&& match call {
            RuntimeCall::Balances(c) => {
                &&& self.balances.dispatched(caller, c, next.balances, result)
                &&& next.proof_of_existence == self.proof_of_existence
            },
            RuntimeCall::ProofOfExistence(c) => {
                &&& self.proof_of_existence.dispatched(caller, c, next.proof_of_existence, result)
                &&& next.balances == self.balances
            },
        }
    }

    fn dispatch(&mut self, caller: T::AccountId, call: RuntimeCall<T>) -> (r: DispatchResult) {
        match call {
            RuntimeCall::Balances(c) => self.balances.dispatch(caller, c),
            RuntimeCall::ProofOfExistence(c) => self.proof_of_existence.dispatch(caller, c),
        }
    }
}

} // verus!
