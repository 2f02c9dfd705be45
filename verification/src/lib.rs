//! A staged, all-or-none mutation primitive.
//!
//! A caller prepares a modification to a guarded value without committing it;
//! the original value is replaced only if the modification succeeds. Access to
//! the guarded value is mediated by a single-use capability: a [`Token`] is
//! extracted at most once per container, a successful commit turns it into a
//! [`ConsumedToken`], and a failed or abandoned transaction hands the token
//! back with the guarded value untouched.
//!
//! The pieces, leaves first: the capability accessors ([`Take`], [`TakeOwned`])
//! that a container type implements; the capability objects themselves
//! ([`Token`], [`ConsumedToken`]); a [`Prepared`] unit pairing a container with
//! a staged transform; [`Chain`], which composes two staged units into one
//! transaction; and the [`Apply`] protocol shared by both.
pub mod access;
pub mod apply;
pub mod chain;
pub mod prepared;
pub mod token;

pub use access::Slot;
pub use access::Take;
pub use access::TakeOwned;
pub use apply::Apply;
pub use chain::Chain;
pub use chain::ChainFailure;
pub use chain::lemma_chain_first_failure;
pub use chain::lemma_chain_pre;
pub use chain::lemma_chain_success;
pub use prepared::AllOrNone;
pub use prepared::Prepared;
pub use prepared::commit_err;
pub use prepared::commit_ok;
pub use prepared::lemma_apply_failure;
pub use prepared::lemma_apply_success;
pub use token::ConsumedToken;
pub use token::Token;
