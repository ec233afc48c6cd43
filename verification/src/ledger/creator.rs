//! The creator registry: creating a creator account, and dropping it.

use super::index::{index_with, lemma_push_fresh, lemma_without_first, without_first};
use super::Ledger;
use crate::report::Error;
use crate::types::aliases::AccountId;
use crate::types::CreatorView;
use vstd::prelude::*;

verus! {

impl Ledger {
    /// Whether `account` may act for `creator`.
    pub open spec fn ensure_account_owns_creator(
        self,
        account: AccountId,
        creator: Seq<u8>,
    ) -> Result<(), Error> {
        if self.account_owns_creator(account, creator) {
            Ok(())
        } else {
            Err(Error::NotOwner)
        }
    }

    /// Registers `creator` for `account`: refused where the id is taken or
    /// the account owns as many creators as it may.
    pub open spec fn add_new_creator_to_account(
        self,
        creator: Seq<u8>,
        account: AccountId,
    ) -> (Ledger, Result<(), Error>) {
        if self.creators.contains_key(creator) {
            (self, Err(Error::CreatorAccountTaken))
        } else if self.creator_ids_of(account).len() >= self.max_creator_accounts {
            (self, Err(Error::MaxCreatorAccountsReached))
        } else {
            (
                Ledger {
                    creators: self.creators.insert(
                        creator,
                        CreatorView { id: creator, owner: Some(account) },
                    ),
                    creator_ids_for_account: self.creator_ids_for_account.insert(
                        account,
                        self.creator_ids_of(account).push(creator),
                    ),
                    ..self
                },
                Ok(()),
            )
        }
    }

    /// Takes `creator` from `account`.  A creator that minted nothing is
    /// removed for good; one that launch tokens name stays, without owner.
    pub open spec fn remove_creator_from_account(
        self,
        creator: Seq<u8>,
        account: AccountId,
    ) -> (Ledger, Result<(), Error>) {
        if !self.account_owns_creator(account, creator) {
            (self, Err(Error::NotOwner))
        } else {
            (
                Ledger {
                    creators: if self.launch_token_ids_of(creator).len() == 0 {
                        self.creators.remove(creator)
                    } else {
                        self.creators.insert(creator, CreatorView { id: creator, owner: None })
                    },
                    creator_ids_for_account: index_with(
                        self.creator_ids_for_account,
                        account,
                        without_first(self.creator_ids_of(account), creator),
                    ),
                    ..self
                },
                Ok(()),
            )
        }
    }

    /// Creating a creator account keeps the ledger sound.
    pub proof fn lemma_add_new_creator_to_account(self, creator: Seq<u8>, account: AccountId)
        requires
            self.inv(),
        ensures
            self.add_new_creator_to_account(creator, account).0.inv(),
    {
        let (after, result) = self.add_new_creator_to_account(creator, account);
        if result is Ok {
            let held = self.creator_ids_of(account);
            if held.contains(creator) {
                assert(self.account_owns_creator(account, creator));
            }
            lemma_push_fresh(held, creator);
            assert forall|a: AccountId, c: Seq<u8>| #[trigger]
                after.creator_ids_of(a).contains(c) <==> after.account_owns_creator(a, c) by {
                if a == account {
                    assert(after.creator_ids_of(a) == held.push(creator));
                    assert(held.contains(c) <==> self.account_owns_creator(a, c));
                } else {
                    assert(after.creator_ids_of(a) == self.creator_ids_of(a));
                    assert(self.creator_ids_of(a).contains(c) <==> self.account_owns_creator(a, c));
                }
            }
            assert forall|c: Seq<u8>, id: u128| #[trigger]
                after.launch_token_ids_of(c).contains(id) <==> after.creator_owns_launch_token(
                    c,
                    id,
                ) by {
                assert(self.launch_token_ids_of(c).contains(id) <==> self.creator_owns_launch_token(c, id));
            }
            assert forall|a: AccountId, id: u128| #[trigger]
                after.token_ids_of(a).contains(id) <==> after.account_owns_token(a, id) by {
                assert(self.token_ids_of(a).contains(id) <==> self.account_owns_token(a, id));
            }
            assert(after.supplies_sound()) by {
                assert forall|id: u128| #[trigger] after.launch_tokens.contains_key(id) implies after.live_tokens_of(id) == self.live_tokens_of(id) by {}
            }
        }
    }

    /// Dropping a creator account keeps the ledger sound, and takes no
    /// creator away from a launch token that names it.
    pub proof fn lemma_remove_creator_from_account(self, creator: Seq<u8>, account: AccountId)
        requires
            self.inv(),
        ensures
            self.remove_creator_from_account(creator, account).0.inv(),
            self.creators_resolve() ==> self.remove_creator_from_account(
                creator,
                account,
            ).0.creators_resolve(),
    {
        let (after, result) = self.remove_creator_from_account(creator, account);
        if result is Ok {
            if self.creators_resolve() {
                assert forall|id: u128| #[trigger]
                    after.launch_tokens.contains_key(id) implies after.creators.contains_key(
                    after.launch_tokens[id].creator,
                ) by {
                    let c = self.launch_tokens[id].creator;
                    if c == creator {
                        assert(self.creator_owns_launch_token(creator, id));
                        assert(self.launch_token_ids_of(creator).contains(id));
                    }
                }
            }
            let held = self.creator_ids_of(account);
            assert(held.contains(creator));
            lemma_without_first(held, creator);
            let rest = without_first(held, creator);
            assert(after.creator_ids_of(account) == rest);
            assert forall|a: AccountId, c: Seq<u8>| #[trigger]
                after.creator_ids_of(a).contains(c) <==> after.account_owns_creator(a, c) by {
                assert(self.creator_ids_of(a).contains(c) <==> self.account_owns_creator(a, c));
                if a == account {
                    if c != creator {
                        assert(rest.contains(c) <==> held.contains(c));
                    }
                } else {
                    assert(after.creator_ids_of(a) == self.creator_ids_of(a));
                }
            }
            assert forall|c: Seq<u8>, id: u128| #[trigger]
                after.launch_token_ids_of(c).contains(id) <==> after.creator_owns_launch_token(
                    c,
                    id,
                ) by {
                assert(self.launch_token_ids_of(c).contains(id) <==> self.creator_owns_launch_token(c, id));
            }
            assert forall|a: AccountId, id: u128| #[trigger]
                after.token_ids_of(a).contains(id) <==> after.account_owns_token(a, id) by {
                assert(self.token_ids_of(a).contains(id) <==> self.account_owns_token(a, id));
            }
            assert(after.supplies_sound()) by {
                assert forall|id: u128| #[trigger] after.launch_tokens.contains_key(id) implies after.live_tokens_of(id) == self.live_tokens_of(id) by {}
            }
        }
    }
}

} // verus!
