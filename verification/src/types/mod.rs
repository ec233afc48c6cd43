//! The records of the ledger, each with the mathematical value it stands for.

pub mod aliases;
mod creator;
mod launch_token;
mod token;

pub use creator::{Creator, CreatorId, CreatorView};
pub use launch_token::{
    LaunchToken, LaunchTokenMetadata, LaunchTokenMetadataView, LaunchTokenView, TokenSupply,
};
pub use token::{MetatataUri, MimeType, Token, TokenId, TokenName, TokenView};
