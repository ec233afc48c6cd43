//! The registry, the store and the ledger of tokens: what every action is
//! made of.

mod creator;
pub(crate) mod index;
mod token;
