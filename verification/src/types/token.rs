use super::aliases::{AccountId, Balance};
use super::creator::CreatorId;
use super::launch_token::{LaunchToken, LaunchTokenView};
use crate::bounded::{
    bytes_2048, bytes_255, bytes_63, clone_bytes_2048, clone_bytes_255, clone_bytes_63,
};
use frame_support::traits::ConstU32;
use frame_support::BoundedVec;
use vstd::prelude::*;

verus! {

/// Identifier of a launch token or of an issued token.
pub type TokenId = u128;

/// Token name limited to 255 bytes
pub type TokenName = BoundedVec<u8, ConstU32<255>>;

/// Token mime-type limited to 255 bytes
pub type MimeType = BoundedVec<u8, ConstU32<255>>;

/// Token metadata URI limited to 2048 bytes
pub type MetatataUri = BoundedVec<u8, ConstU32<2048>>;

/// One issued token, owned by one account.
#[derive(Debug, PartialEq)]
pub struct Token {
    pub id: TokenId,
    pub launch_id: TokenId,
    pub creator: CreatorId,
    pub owner: AccountId,
    pub name: TokenName,
    /// `None` while the token is not listed for sale.
    pub price: Option<Balance>,
    pub mime_type: MimeType,
    pub metadata_uri: MetatataUri,
}

/// What a [`Token`] stands for.
pub ghost struct TokenView {
    pub id: TokenId,
    pub launch_id: TokenId,
    pub creator: Seq<u8>,
    pub owner: AccountId,
    pub name: Seq<u8>,
    pub price: Option<Balance>,
    pub mime_type: Seq<u8>,
    pub metadata_uri: Seq<u8>,
}

impl TokenView {
    /// The token that is issued from `launch` to `owner` under `id`: the
    /// launch's descriptive fields, and no price.
    pub open spec fn issued(owner: AccountId, id: TokenId, launch: LaunchTokenView) -> TokenView {
        TokenView {
            id,
            launch_id: launch.id,
            creator: launch.creator,
            owner,
            name: launch.name,
            price: None,
            mime_type: launch.mime_type,
            metadata_uri: launch.metadata_uri,
        }
    }

    /// The token in another account's hands.
    pub open spec fn with_owner(self, owner: AccountId) -> TokenView {
        TokenView { owner, ..self }
    }

    /// The token with another price, or none.
    pub open spec fn with_price(self, price: Option<Balance>) -> TokenView {
        TokenView { price, ..self }
    }
}

impl View for Token {
    type V = TokenView;

    open spec fn view(&self) -> TokenView {
        TokenView {
            id: self.id,
            launch_id: self.launch_id,
            creator: bytes_63(self.creator),
            owner: self.owner,
            name: bytes_255(self.name),
            price: self.price,
            mime_type: bytes_255(self.mime_type),
            metadata_uri: bytes_2048(self.metadata_uri),
        }
    }
}

impl Clone for Token {
    fn clone(&self) -> (copy: Self)
        ensures
            copy@ == self@,
    {
        Token {
            id: self.id,
            launch_id: self.launch_id,
            creator: clone_bytes_63(&self.creator),
            owner: self.owner,
            name: clone_bytes_255(&self.name),
            price: self.price,
            mime_type: clone_bytes_255(&self.mime_type),
            metadata_uri: clone_bytes_2048(&self.metadata_uri),
        }
    }
}

impl Token {
    /// The token issued from `launch_token` to `owner` under `id`.
    pub fn new(owner: AccountId, id: TokenId, launch_token: LaunchToken) -> (token: Self)
        ensures
            token@ == TokenView::issued(owner, id, launch_token@),
    {
        Self {
            id,
            owner,
            launch_id: launch_token.id,
            creator: launch_token.creator,
            name: launch_token.name,
            price: None,
            mime_type: launch_token.mime_type,
            metadata_uri: launch_token.metadata_uri,
        }
    }
}

} // verus!
