use super::aliases::Balance;
use super::creator::CreatorId;
use super::token::{MetatataUri, MimeType, TokenId, TokenName};
use crate::bounded::{
    bytes_2048, bytes_255, bytes_63, clone_bytes_2048, clone_bytes_255, clone_bytes_63,
};
use vstd::prelude::*;

verus! {

/// A number of tokens of one launch.
pub type TokenSupply = u32;

/// A launch token: the template of a limited edition, from which tokens are
/// issued one by one.
#[derive(Debug, PartialEq)]
pub struct LaunchToken {
    pub id: TokenId,
    pub creator: CreatorId,
    pub name: TokenName,
    pub price: Balance,
    pub mime_type: MimeType,
    pub metadata_uri: MetatataUri,
    /// How many tokens of this launch may be alive at once.
    pub supply: TokenSupply,
    /// How many tokens were issued so far.
    pub issued: TokenSupply,
    /// How many issued tokens were destroyed.
    pub destroyed: TokenSupply,
}

/// What a [`LaunchToken`] stands for.
pub ghost struct LaunchTokenView {
    pub id: TokenId,
    pub creator: Seq<u8>,
    pub name: Seq<u8>,
    pub price: Balance,
    pub mime_type: Seq<u8>,
    pub metadata_uri: Seq<u8>,
    pub supply: TokenSupply,
    pub issued: TokenSupply,
    pub destroyed: TokenSupply,
}

impl LaunchTokenView {
    /// Supply and destroyed tokens together, capped at what a `u32` holds.
    pub open spec fn total_supply(self) -> TokenSupply {
        if self.supply + self.destroyed <= u32::MAX {
            (self.supply + self.destroyed) as u32
        } else {
            u32::MAX
        }
    }

    /// No more tokens were issued than supply and destroyed tokens
    /// together.
    pub open spec fn sound(self) -> bool {
        self.issued <= self.supply + self.destroyed
    }

    /// The launch after one more token was issued.
    pub open spec fn bump_issued(self) -> LaunchTokenView {
        LaunchTokenView {
            issued: if self.issued < u32::MAX {
                (self.issued + 1) as u32
            } else {
                u32::MAX
            },
            ..self
        }
    }

    /// The launch after one of its tokens was destroyed.
    pub open spec fn bump_destroyed_and_decrease_supply(self) -> LaunchTokenView {
        LaunchTokenView {
            supply: if self.supply > 0 {
                (self.supply - 1) as u32
            } else {
                0
            },
            destroyed: if self.destroyed < u32::MAX {
                (self.destroyed + 1) as u32
            } else {
                u32::MAX
            },
            ..self
        }
    }

    /// The launch with another price.
    pub open spec fn with_price(self, price: Balance) -> LaunchTokenView {
        LaunchTokenView { price, ..self }
    }
}

impl View for LaunchToken {
    type V = LaunchTokenView;

    open spec fn view(&self) -> LaunchTokenView {
        LaunchTokenView {
            id: self.id,
            creator: bytes_63(self.creator),
            name: bytes_255(self.name),
            price: self.price,
            mime_type: bytes_255(self.mime_type),
            metadata_uri: bytes_2048(self.metadata_uri),
            supply: self.supply,
            issued: self.issued,
            destroyed: self.destroyed,
        }
    }
}

impl Clone for LaunchToken {
    fn clone(&self) -> (copy: Self)
        ensures
            copy@ == self@,
    {
        LaunchToken {
            id: self.id,
            creator: clone_bytes_63(&self.creator),
            name: clone_bytes_255(&self.name),
            price: self.price,
            mime_type: clone_bytes_255(&self.mime_type),
            metadata_uri: clone_bytes_2048(&self.metadata_uri),
            supply: self.supply,
            issued: self.issued,
            destroyed: self.destroyed,
        }
    }
}

impl LaunchToken {
    /// A fresh launch: nothing issued, nothing destroyed.
    pub fn new(
        id: TokenId,
        creator: CreatorId,
        price: Balance,
        metadata: LaunchTokenMetadata,
    ) -> (launch: Self)
        ensures
            launch@ == LaunchTokenView::fresh(id, bytes_63(creator), price, metadata@),
            launch@.sound(),
    {
        Self {
            id,
            creator,
            price,
            name: metadata.name,
            mime_type: metadata.mime_type,
            metadata_uri: metadata.metadata_uri,
            supply: metadata.supply,
            issued: 0,
            destroyed: 0,
        }
    }

    /// Supply and destroyed tokens together: the most that can ever be
    /// issued.
    pub fn total_supply(&self) -> (total: TokenSupply)
        ensures
            total == self@.total_supply(),
    {
        self.supply.saturating_add(self.destroyed)
    }

    /// Increase issued count by 1.  The count stays within the total supply
    /// where it was below it.
    pub fn bump_issued(&mut self)
        ensures
            final(self)@ == old(self)@.bump_issued(),
            old(self)@.sound() && old(self)@.issued < old(self)@.total_supply()
                ==> final(self)@.sound(),
    {
        self.issued = self.issued.saturating_add(1);
    }

    /// Increase destroyed count by 1 and decrease supply count by 1.
    pub fn bump_destroyed_and_decrease_supply(&mut self)
        ensures
            final(self)@ == old(self)@.bump_destroyed_and_decrease_supply(),
            old(self)@.sound() ==> final(self)@.sound(),
    {
        self.supply = self.supply.saturating_sub(1);
        self.destroyed = self.destroyed.saturating_add(1);
    }
}

impl LaunchTokenView {
    /// The launch that a mint creates.
    pub open spec fn fresh(
        id: TokenId,
        creator: Seq<u8>,
        price: Balance,
        metadata: LaunchTokenMetadataView,
    ) -> LaunchTokenView {
        LaunchTokenView {
            id,
            creator,
            name: metadata.name,
            price,
            mime_type: metadata.mime_type,
            metadata_uri: metadata.metadata_uri,
            supply: metadata.supply,
            issued: 0,
            destroyed: 0,
        }
    }
}

/// What a creator states when minting a launch token.
#[derive(Debug, PartialEq)]
pub struct LaunchTokenMetadata {
    pub name: TokenName,
    pub mime_type: MimeType,
    pub metadata_uri: MetatataUri,
    pub supply: TokenSupply,
}

/// What a [`LaunchTokenMetadata`] stands for.
pub ghost struct LaunchTokenMetadataView {
    pub name: Seq<u8>,
    pub mime_type: Seq<u8>,
    pub metadata_uri: Seq<u8>,
    pub supply: TokenSupply,
}

impl View for LaunchTokenMetadata {
    type V = LaunchTokenMetadataView;

    open spec fn view(&self) -> LaunchTokenMetadataView {
        LaunchTokenMetadataView {
            name: bytes_255(self.name),
            mime_type: bytes_255(self.mime_type),
            metadata_uri: bytes_2048(self.metadata_uri),
            supply: self.supply,
        }
    }
}

impl Clone for LaunchTokenMetadata {
    fn clone(&self) -> (copy: Self)
        ensures
            copy@ == self@,
    {
        LaunchTokenMetadata {
            name: clone_bytes_255(&self.name),
            mime_type: clone_bytes_255(&self.mime_type),
            metadata_uri: clone_bytes_2048(&self.metadata_uri),
            supply: self.supply,
        }
    }
}

} // verus!
