//! A ledger of creator accounts, limited-edition launch tokens and the tokens
//! issued from them, with the marketplace actions that act on them.
//!
//! The ledger lives in a [`Pallet`] value.  Every action is a method that
//! either completes and tells the host what to report and whom to pay, or
//! fails with an [`Error`] and leaves the ledger exactly as it was.

pub mod bounded;
mod calls;
mod creator_map;
mod internal;
pub mod laws;
pub mod ledger;
pub mod pallet;
pub mod report;
pub mod types;

pub use ledger::Ledger;
pub use pallet::Pallet;
pub use report::{Error, Event, Outcome, Payment};
pub use types::{
    aliases::{AccountId, Balance},
    Creator, CreatorId, CreatorView, LaunchToken, LaunchTokenMetadata, LaunchTokenMetadataView,
    LaunchTokenView, MetatataUri, MimeType, Token, TokenId, TokenName, TokenSupply, TokenView,
};
