//! Shared vocabulary of the runtime: the numeric capability that counters and
//! balances need, the key laws that every storage map relies on, the error
//! taxonomy and the dispatch interface.
use vstd::laws_cmp::obeys_cmp;
use vstd::laws_eq::obeys_concrete_eq;
use vstd::pervasive::cloned;
use vstd::prelude::*;

verus! {

/// An unsigned scalar with a zero, a one, and addition / subtraction that
/// report leaving its range. Its values are the naturals below `limit()`.
pub trait Numeric: Copy + Sized {
    /// The mathematical value of a scalar.
    spec fn as_nat(&self) -> nat;

    /// One more than the largest representable value.
    spec fn limit() -> nat;

    /// Every scalar is in range.
    proof fn lemma_below_limit(&self)
        ensures
            self.as_nat() < Self::limit(),
    ;

    fn zero() -> (r: Self)
        ensures
            r.as_nat() == 0,
    ;

    fn one() -> (r: Self)
        ensures
            r.as_nat() == 1,
    ;

    /// Addition for callers that know the sum stays in range.
    fn add(&self, other: &Self) -> (r: Self)
        requires
            self.as_nat() + other.as_nat() < Self::limit(),
        ensures
            r.as_nat() == self.as_nat() + other.as_nat(),
    ;

    /// `None` exactly when the sum leaves the range.
    fn checked_add(&self, other: &Self) -> (r: Option<Self>)
        ensures
            match r {
                Some(v) => self.as_nat() + other.as_nat() < Self::limit() && v.as_nat() == self.as_nat()
                    + other.as_nat(),
                None => self.as_nat() + other.as_nat() >= Self::limit(),
            },
    ;

    /// `None` exactly when the difference would be negative.
    fn checked_sub(&self, other: &Self) -> (r: Option<Self>)
        ensures
            match r {
                Some(v) => other.as_nat() <= self.as_nat() && v.as_nat() == self.as_nat()
                    - other.as_nat(),
                None => self.as_nat() < other.as_nat(),
            },
    ;
}

impl Numeric for u32 {
    open spec fn as_nat(&self) -> nat {
        *self as nat
    }

    open spec fn limit() -> nat {
        u32::MAX as nat + 1
    }

    proof fn lemma_below_limit(&self) {
    }

    fn zero() -> (r: Self) {
        0
    }

    fn one() -> (r: Self) {
        1
    }

    fn add(&self, other: &Self) -> (r: Self) {
        *self + *other
    }

    fn checked_add(&self, other: &Self) -> (r: Option<Self>) {
        u32::checked_add(*self, *other)
    }

    fn checked_sub(&self, other: &Self) -> (r: Option<Self>) {
        u32::checked_sub(*self, *other)
    }
}

impl Numeric for u64 {
    open spec fn as_nat(&self) -> nat {
        *self as nat
    }

    open spec fn limit() -> nat {
        u64::MAX as nat + 1
    }

    proof fn lemma_below_limit(&self) {
    }

    fn zero() -> (r: Self) {
        0
    }

    fn one() -> (r: Self) {
        1
    }

    fn add(&self, other: &Self) -> (r: Self) {
        *self + *other
    }

    fn checked_add(&self, other: &Self) -> (r: Option<Self>) {
        u64::checked_add(*self, *other)
    }

    fn checked_sub(&self, other: &Self) -> (r: Option<Self>) {
        u64::checked_sub(*self, *other)
    }
}

impl Numeric for u128 {
    open spec fn as_nat(&self) -> nat {
        *self as nat
    }

    open spec fn limit() -> nat {
        u128::MAX as nat + 1
    }

    proof fn lemma_below_limit(&self) {
    }

    fn zero() -> (r: Self) {
        0
    }

    fn one() -> (r: Self) {
        1
    }

    fn add(&self, other: &Self) -> (r: Self) {
        *self + *other
    }

    fn checked_add(&self, other: &Self) -> (r: Option<Self>) {
        u128::checked_add(*self, *other)
    }

    fn checked_sub(&self, other: &Self) -> (r: Option<Self>) {
        u128::checked_sub(*self, *other)
    }
}

/// The laws a key type of a storage map must obey: its ordering is a total
/// order, its `==` is equality of values, and a clone equals its source.
pub open spec fn key_laws<K: Ord + Clone>() -> bool {
    &&& obeys_cmp::<K>()
    &&& obeys_concrete_eq::<K>()
    &&& forall|a: K, b: K| #[trigger] cloned(a, b) ==> a == b
}

/// Every way a dispatched operation can fail. Each is an expected outcome,
/// returned before any state is changed.
#[derive(Clone, Copy, Debug, PartialEq, Eq, Structural)]
pub enum Error {
    /// The transfer source holds less than the amount.
    InsufficientFunds,
    /// The transfer destination would exceed the balance range.
    BalanceOverflow,
    /// The content is already claimed.
    ClaimAlreadyExists,
    /// The content to revoke is not claimed.
    ClaimNotFound,
    /// The caller does not own the claim it tries to revoke.
    NotClaimOwner,
}

impl Error {
    /// A short human-readable description of the error.
    pub fn message(&self) -> (r: &'static str)
        ensures
            *self == Error::InsufficientFunds ==> r@ == "Not enough funds."@,
            *self == Error::BalanceOverflow ==> r@ == "Funds exceed limit."@,
            *self == Error::ClaimAlreadyExists ==> r@ == "claim already exist"@,
            *self == Error::ClaimNotFound ==> r@ == "claim does not exist"@,
            *self == Error::NotClaimOwner ==> r@ == "Caller is not the owner"@,
    {
        match self {
            Error::InsufficientFunds => "Not enough funds.",
            Error::BalanceOverflow => "Funds exceed limit.",
            Error::ClaimAlreadyExists => "claim already exist",
            Error::ClaimNotFound => "claim does not exist",
            Error::NotClaimOwner => "Caller is not the owner",
        }
    }
}

/// The outcome of a dispatched operation.
pub type DispatchResult = Result<(), Error>;

/// Routes a caller identity and a requested operation to the state that owns
/// the operation. The caller is supplied apart from the call, so that who acts
/// stays separate from what is asked.
pub trait Dispatch: Sized {
    /// The identity on whose behalf a call runs.
    type Caller;

    /// The closed set of operations that can be dispatched.
    type Call;

    /// The state's invariant.
    spec fn well_formed(&self) -> bool;

    /// How dispatching `call` for `caller` takes the state from `self` to
    /// `next`, returning `result`.
    spec fn dispatched(&self, caller: Self::Caller, call: Self::Call, next: Self, result: DispatchResult) -> bool;

    fn dispatch(&mut self, caller: Self::Caller, call: Self::Call) -> (r: DispatchResult)
        requires
            old(self).well_formed(),
        ensures
            final(self).well_formed(),
            old(self).dispatched(caller, call, *final(self), r),
    ;
}

} // verus!
