//! A ledger of debates between two figures and of the votes cast in them.
//!
//! [`Contract`] records debates and votes, hands out their ids, lets each
//! caller vote once in each debate, and counts the votes of a debate whenever
//! it is asked. What every call returns and changes is stated over the
//! mathematical ledger of [`model`], and the laws that relate the calls are
//! proved in [`laws`].

pub mod contract;
pub mod laws;
pub mod model;
pub mod types;

pub use contract::Contract;
pub use model::{VoteError, FIGURE_ONE, FIGURE_TWO};
pub use types::{CallContext, Debate, DebateDetail, DebateSummary, Vote};
