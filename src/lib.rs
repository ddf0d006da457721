//! A minimal modular ledger: independent state modules (system bookkeeping,
//! balances, proof of existence) composed into one runtime and driven through
//! a closed set of dispatchable calls.
pub mod support;
pub mod system;
pub mod balances;
pub mod proof_of_existence;
pub mod runtime;

pub use runtime::{Runtime, RuntimeCall};
