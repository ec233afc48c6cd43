use super::aliases::AccountId;
use crate::bounded::{bytes_63, clone_bytes_63};
use frame_support::traits::ConstU32;
use frame_support::BoundedVec;
use vstd::prelude::*;

verus! {

/// A creator's id stands for one element of a domain name, hence at most 63
/// bytes.
pub type CreatorId = BoundedVec<u8, ConstU32<63>>;

/// A creator account: an id, and the account that controls it until it is
/// disconnected.
#[derive(Debug, PartialEq)]
pub struct Creator {
    pub id: CreatorId,
    pub owner: Option<AccountId>,
}

/// What a [`Creator`] stands for.
pub ghost struct CreatorView {
    pub id: Seq<u8>,
    pub owner: Option<AccountId>,
}

impl View for Creator {
    type V = CreatorView;

    open spec fn view(&self) -> CreatorView {
        CreatorView { id: bytes_63(self.id), owner: self.owner }
    }
}

impl Clone for Creator {
    fn clone(&self) -> (copy: Self)
        ensures
            copy@ == self@,
    {
        Creator { id: clone_bytes_63(&self.id), owner: self.owner }
    }
}

impl Creator {
    /// A creator with the given id, controlled by `owner`.
    pub fn new(id: CreatorId, owner: AccountId) -> (creator: Self)
        ensures
            creator@ == (CreatorView { id: bytes_63(id), owner: Some(owner) }),
    {
        Self { id, owner: Some(owner) }
    }

    /// Severs the creator from its owner; the id stays.
    pub fn disconnect(&mut self)
        ensures
            final(self)@ == (CreatorView { id: old(self)@.id, owner: None }),
    {
        self.owner = None
    }
}

} // verus!
