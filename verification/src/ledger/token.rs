//! The launch token store and the token ledger: minting a launch, issuing a
//! token from it, handing a token on, pricing and destroying it.

use super::index::{
    index_at, index_with, lemma_push_fresh, lemma_push_then_without_first, lemma_without_first,
    without_first,
};
use super::Ledger;
use crate::report::Error;
use crate::types::aliases::{AccountId, Balance};
use crate::types::{LaunchTokenMetadataView, LaunchTokenView, TokenId, TokenView};
use vstd::prelude::*;

verus! {

impl Ledger {
    /// Whether `creator` minted the launch token `launch_id`.
    pub open spec fn ensure_creator_owns_launch_token(
        self,
        creator: Seq<u8>,
        launch_id: TokenId,
    ) -> Result<(), Error> {
        if self.creator_owns_launch_token(creator, launch_id) {
            Ok(())
        } else {
            Err(Error::NotOwner)
        }
    }

    /// Whether `account` owns the token `id`.
    pub open spec fn ensure_account_owns_token(
        self,
        account: AccountId,
        id: TokenId,
    ) -> Result<(), Error> {
        if self.account_owns_token(account, id) {
            Ok(())
        } else {
            Err(Error::NotOwner)
        }
    }

    /// Mints a launch token for `creator` under the id after the last one:
    /// refused where no id is left or the creator has minted as many as it
    /// may.  The counter moves only when the launch is recorded.
    pub open spec fn unchecked_mint(
        self,
        creator: Seq<u8>,
        price: Balance,
        metadata: LaunchTokenMetadataView,
    ) -> (Ledger, Result<TokenId, Error>) {
        if self.next_launch_token_id() is Err {
            (self, Err(Error::LaunchTokensOverflow))
        } else if self.launch_token_ids_of(creator).len() >= self.max_launch_tokens {
            (self, Err(Error::MaxLaunchTokensReached))
        } else {
            let id = self.next_launch_token_id()->Ok_0;
            (
                Ledger {
                    launch_tokens: self.launch_tokens.insert(
                        id,
                        LaunchTokenView::fresh(id, creator, price, metadata),
                    ),
                    launch_token_ids_for_creator: self.launch_token_ids_for_creator.insert(
                        creator,
                        self.launch_token_ids_of(creator).push(id),
                    ),
                    launch_issuance_nonce: id,
                    ..self
                },
                Ok(id),
            )
        }
    }

    /// Issues one token of launch `launch_id` to `receiver`: refused where no
    /// id is left, the launch is unknown or sold out, or the receiver owns
    /// as many tokens as it may.
    pub open spec fn unchecked_launch_transfer(
        self,
        receiver: AccountId,
        launch_id: TokenId,
    ) -> (Ledger, Result<TokenId, Error>) {
        if self.next_token_id() is Err {
            (self, Err(Error::TokensOverflow))
        } else if !self.launch_tokens.contains_key(launch_id) {
            (self, Err(Error::TokenNotFound))
        } else if self.launch_tokens[launch_id].issued >= self.launch_tokens[launch_id].total_supply() {
            (self, Err(Error::TokenSoldOut))
        } else if self.token_ids_of(receiver).len() >= self.max_tokens {
            (self, Err(Error::MaxTokensReached))
        } else {
            let id = self.next_token_id()->Ok_0;
            let launch = self.launch_tokens[launch_id];
            (
                Ledger {
                    tokens: self.tokens.insert(id, TokenView::issued(receiver, id, launch)),
                    token_ids_for_account: self.token_ids_for_account.insert(
                        receiver,
                        self.token_ids_of(receiver).push(id),
                    ),
                    launch_tokens: self.launch_tokens.insert(launch_id, launch.bump_issued()),
                    issuance_nonce: id,
                    ..self
                },
                Ok(id),
            )
        }
    }

    /// Hands token `id` from `owner` to `receiver`: refused where the token
    /// is unknown or the receiver owns as many tokens as it may.  The id
    /// enters the receiver's index before it leaves the owner's.
    pub open spec fn unchecked_transfer(
        self,
        owner: AccountId,
        receiver: AccountId,
        id: TokenId,
    ) -> (Ledger, Result<(), Error>) {
        if !self.tokens.contains_key(id) {
            (self, Err(Error::TokenNotFound))
        } else if self.token_ids_of(receiver).len() >= self.max_tokens {
            (self, Err(Error::MaxTokensReached))
        } else {
            let received = self.token_ids_for_account.insert(
                receiver,
                self.token_ids_of(receiver).push(id),
            );
            (
                Ledger {
                    token_ids_for_account: index_with(
                        received,
                        owner,
                        without_first(index_at(received, owner), id),
                    ),
                    tokens: self.tokens.insert(id, self.tokens[id].with_owner(receiver)),
                    ..self
                },
                Ok(()),
            )
        }
    }

    /// Sets the price of launch `launch_id`, whoever asks.
    pub open spec fn unchecked_set_launch_price(
        self,
        launch_id: TokenId,
        price: Balance,
    ) -> (Ledger, Result<(), Error>) {
        if !self.launch_tokens.contains_key(launch_id) {
            (self, Err(Error::TokenNotFound))
        } else {
            (
                Ledger {
                    launch_tokens: self.launch_tokens.insert(
                        launch_id,
                        self.launch_tokens[launch_id].with_price(price),
                    ),
                    ..self
                },
                Ok(()),
            )
        }
    }

    /// Sets or clears the price of token `id`, whoever asks.
    pub open spec fn unchecked_set_price(
        self,
        id: TokenId,
        price: Option<Balance>,
    ) -> (Ledger, Result<(), Error>) {
        if !self.tokens.contains_key(id) {
            (self, Err(Error::TokenNotFound))
        } else {
            (
                Ledger { tokens: self.tokens.insert(id, self.tokens[id].with_price(price)), ..self },
                Ok(()),
            )
        }
    }

    /// Destroys token `id`: it leaves its owner's index and the token table,
    /// and its launch counts one more destroyed and one less in supply.
    pub open spec fn unchecked_burn(self, id: TokenId) -> (Ledger, Result<(), Error>) {
        if !self.tokens.contains_key(id) {
            (self, Err(Error::TokenNotFound))
        } else {
            let token = self.tokens[id];
            (
                Ledger {
                    token_ids_for_account: index_with(
                        self.token_ids_for_account,
                        token.owner,
                        without_first(self.token_ids_of(token.owner), token.id),
                    ),
                    tokens: self.tokens.remove(token.id),
                    launch_tokens: if self.launch_tokens.contains_key(token.launch_id) {
                        self.launch_tokens.insert(
                            token.launch_id,
                            self.launch_tokens[token.launch_id].bump_destroyed_and_decrease_supply(),
                        )
                    } else {
                        self.launch_tokens
                    },
                    ..self
                },
                Ok(()),
            )
        }
    }
}


impl Ledger {
    /// Minting keeps the ledger sound; minting for a creator that exists
    /// leaves every launch token with its creator.
    pub proof fn lemma_unchecked_mint(
        self,
        creator: Seq<u8>,
        price: Balance,
        metadata: LaunchTokenMetadataView,
    )
        requires
            self.inv(),
        ensures
            self.unchecked_mint(creator, price, metadata).0.inv(),
            self.creators_resolve() && self.creators.contains_key(creator)
                ==> self.unchecked_mint(creator, price, metadata).0.creators_resolve(),
    {
        let (after, result) = self.unchecked_mint(creator, price, metadata);
        if result is Ok {
            let id = result->Ok_0;
            let held = self.launch_token_ids_of(creator);
            assert(!self.launch_tokens.contains_key(id));
            if held.contains(id) {
                assert(self.creator_owns_launch_token(creator, id));
            }
            lemma_push_fresh(held, id);
            assert forall|a: AccountId, c: Seq<u8>| #[trigger]
                after.creator_ids_of(a).contains(c) <==> after.account_owns_creator(a, c) by {
                assert(self.creator_ids_of(a).contains(c) <==> self.account_owns_creator(a, c));
            }
            assert forall|c: Seq<u8>, l: TokenId| #[trigger]
                after.launch_token_ids_of(c).contains(l) <==> after.creator_owns_launch_token(
                    c,
                    l,
                ) by {
                assert(self.launch_token_ids_of(c).contains(l) <==> self.creator_owns_launch_token(c, l));
                if c == creator {
                    assert(after.launch_token_ids_of(c) == held.push(id));
                } else {
                    assert(after.launch_token_ids_of(c) == self.launch_token_ids_of(c));
                }
            }
            assert forall|a: AccountId, t: TokenId| #[trigger]
                after.token_ids_of(a).contains(t) <==> after.account_owns_token(a, t) by {
                assert(self.token_ids_of(a).contains(t) <==> self.account_owns_token(a, t));
            }
            assert forall|l: TokenId| #[trigger] after.launch_tokens.contains_key(l) implies {
                let launch = after.launch_tokens[l];
                &&& launch.sound()
                &&& launch.supply + launch.destroyed <= u32::MAX
                &&& after.live_tokens_of(l).len() + launch.destroyed == launch.issued
            } by {
                assert(after.live_tokens_of(l) == self.live_tokens_of(l));
                if l == id {
                    assert forall|t: TokenId| !self.live_tokens_of(id).contains(t) by {
                        if self.tokens.contains_key(t) && self.tokens[t].launch_id == id {
                            assert(self.launch_tokens.contains_key(self.tokens[t].launch_id));
                        }
                    }
                    assert(self.live_tokens_of(id) =~= Set::empty());
                }
            }
        }
    }
}


impl Ledger {
    /// The indices over creators and launch tokens say the same in two
    /// ledgers whose creators and launch tokens name the same owners.
    proof fn lemma_other_indices_in_step(self, after: Ledger)
        requires
            self.indices_in_step(),
            after.creator_ids_for_account == self.creator_ids_for_account,
            after.launch_token_ids_for_creator == self.launch_token_ids_for_creator,
            after.creators == self.creators,
            after.launch_tokens.dom() =~= self.launch_tokens.dom(),
            forall|l: TokenId|
                self.launch_tokens.contains_key(l) ==> (#[trigger] after.launch_tokens[l]).creator
                    == self.launch_tokens[l].creator,
        ensures
            forall|a: AccountId, c: Seq<u8>| #[trigger]
                after.creator_ids_of(a).contains(c) <==> after.account_owns_creator(a, c),
            forall|c: Seq<u8>, l: TokenId| #[trigger]
                after.launch_token_ids_of(c).contains(l) <==> after.creator_owns_launch_token(c, l),
    {
        assert forall|a: AccountId, c: Seq<u8>| #[trigger]
            after.creator_ids_of(a).contains(c) <==> after.account_owns_creator(a, c) by {
            assert(self.creator_ids_of(a).contains(c) <==> self.account_owns_creator(a, c));
        }
        assert forall|c: Seq<u8>, l: TokenId| #[trigger]
            after.launch_token_ids_of(c).contains(l) <==> after.creator_owns_launch_token(
                c,
                l,
            ) by {
            assert(self.launch_token_ids_of(c).contains(l) <==> self.creator_owns_launch_token(c, l));
            assert(after.launch_tokens.contains_key(l) == self.launch_tokens.contains_key(l));
        }
    }

    /// Issuing a token keeps the ledger sound.
    pub proof fn lemma_unchecked_launch_transfer(self, receiver: AccountId, launch_id: TokenId)
        requires
            self.inv(),
        ensures
            self.unchecked_launch_transfer(receiver, launch_id).0.inv(),
    {
        let (after, result) = self.unchecked_launch_transfer(receiver, launch_id);
        if result is Ok {
            let id = result->Ok_0;
            let held = self.token_ids_of(receiver);
            assert(!self.tokens.contains_key(id));
            if held.contains(id) {
                assert(self.account_owns_token(receiver, id));
            }
            lemma_push_fresh(held, id);
            self.lemma_other_indices_in_step(after);
            assert forall|a: AccountId, t: TokenId| #[trigger]
                after.token_ids_of(a).contains(t) <==> after.account_owns_token(a, t) by {
                assert(self.token_ids_of(a).contains(t) <==> self.account_owns_token(a, t));
                if a == receiver {
                    assert(after.token_ids_of(a) == held.push(id));
                } else {
                    assert(after.token_ids_of(a) == self.token_ids_of(a));
                }
            }
            assert forall|l: TokenId| #[trigger] after.launch_tokens.contains_key(l) implies {
                let launch = after.launch_tokens[l];
                &&& launch.sound()
                &&& launch.supply + launch.destroyed <= u32::MAX
                &&& after.live_tokens_of(l).len() + launch.destroyed == launch.issued
            } by {
                assert(self.launch_tokens.contains_key(l));
                if l == launch_id {
                    assert(after.live_tokens_of(l) =~= self.live_tokens_of(l).insert(id));
                    assert(!self.live_tokens_of(l).contains(id));
                    self.tokens.dom().lemma_len_filter(|t: TokenId| self.tokens[t].launch_id == l);
                } else {
                    assert(after.live_tokens_of(l) =~= self.live_tokens_of(l));
                }
            }
        }
    }

    /// Pricing a launch keeps the ledger sound.
    pub proof fn lemma_unchecked_set_launch_price(self, launch_id: TokenId, price: Balance)
        requires
            self.inv(),
        ensures
            self.unchecked_set_launch_price(launch_id, price).0.inv(),
    {
        let (after, result) = self.unchecked_set_launch_price(launch_id, price);
        if result is Ok {
            self.lemma_other_indices_in_step(after);
            assert forall|a: AccountId, t: TokenId| #[trigger]
                after.token_ids_of(a).contains(t) <==> after.account_owns_token(a, t) by {
                assert(self.token_ids_of(a).contains(t) <==> self.account_owns_token(a, t));
            }
            assert forall|l: TokenId| #[trigger] after.launch_tokens.contains_key(l) implies {
                let launch = after.launch_tokens[l];
                &&& launch.sound()
                &&& launch.supply + launch.destroyed <= u32::MAX
                &&& after.live_tokens_of(l).len() + launch.destroyed == launch.issued
            } by {
                assert(self.launch_tokens.contains_key(l));
                assert(after.live_tokens_of(l) == self.live_tokens_of(l));
            }
        }
    }

    /// Pricing a token keeps the ledger sound.
    pub proof fn lemma_unchecked_set_price(self, id: TokenId, price: Option<Balance>)
        requires
            self.inv(),
        ensures
            self.unchecked_set_price(id, price).0.inv(),
    {
        let (after, result) = self.unchecked_set_price(id, price);
        if result is Ok {
            self.lemma_other_indices_in_step(after);
            assert(after.tokens.dom() =~= self.tokens.dom());
            assert forall|a: AccountId, t: TokenId| #[trigger]
                after.token_ids_of(a).contains(t) <==> after.account_owns_token(a, t) by {
                assert(self.token_ids_of(a).contains(t) <==> self.account_owns_token(a, t));
            }
            assert forall|l: TokenId| #[trigger] after.launch_tokens.contains_key(l) implies {
                let launch = after.launch_tokens[l];
                &&& launch.sound()
                &&& launch.supply + launch.destroyed <= u32::MAX
                &&& after.live_tokens_of(l).len() + launch.destroyed == launch.issued
            } by {
                assert(after.live_tokens_of(l) =~= self.live_tokens_of(l));
            }
        }
    }
}


impl Ledger {
    /// Handing a token on from its owner keeps the ledger sound.
    pub proof fn lemma_unchecked_transfer(self, owner: AccountId, receiver: AccountId, id: TokenId)
        requires
            self.inv(),
            self.tokens.contains_key(id) ==> self.tokens[id].owner == owner,
        ensures
            self.unchecked_transfer(owner, receiver, id).0.inv(),
            owner == receiver ==> self.unchecked_transfer(owner, receiver, id).0 == self,
    {
        let (after, result) = self.unchecked_transfer(owner, receiver, id);
        if result is Ok {
            let held = self.token_ids_of(receiver);
            let received = self.token_ids_for_account.insert(receiver, held.push(id));
            assert(self.token_ids_of(owner).contains(id)) by {
                assert(self.account_owns_token(owner, id));
            }
            if owner == receiver {
                lemma_push_then_without_first(held, id);
                assert(after.token_ids_for_account =~= self.token_ids_for_account);
                assert(after.tokens =~= self.tokens);
            } else {
                let left = self.token_ids_of(owner);
                if held.contains(id) {
                    assert(self.account_owns_token(receiver, id));
                }
                lemma_push_fresh(held, id);
                lemma_without_first(left, id);
                let rest = without_first(left, id);
                assert(index_at(received, owner) == left);
                self.lemma_other_indices_in_step(after);
                assert(after.tokens.dom() =~= self.tokens.dom());
                assert forall|a: AccountId, t: TokenId| #[trigger]
                    after.token_ids_of(a).contains(t) <==> after.account_owns_token(a, t) by {
                    assert(self.token_ids_of(a).contains(t) <==> self.account_owns_token(a, t));
                    if a == receiver {
                        assert(after.token_ids_of(a) == held.push(id));
                    } else if a == owner {
                        assert(after.token_ids_of(a) == rest);
                        if t != id {
                            assert(rest.contains(t) <==> left.contains(t));
                        }
                    } else {
                        assert(after.token_ids_of(a) == self.token_ids_of(a));
                    }
                }
                assert forall|l: TokenId| #[trigger] after.launch_tokens.contains_key(l) implies {
                    let launch = after.launch_tokens[l];
                    &&& launch.sound()
                &&& launch.supply + launch.destroyed <= u32::MAX
                    &&& after.live_tokens_of(l).len() + launch.destroyed == launch.issued
                } by {
                    assert(after.live_tokens_of(l) =~= self.live_tokens_of(l));
                }
            }
        }
    }

    /// A token that exists keeps its launch from running out of supply: the
    /// launch has supply left, and destroyed fewer tokens than it issued.
    pub proof fn lemma_live_token_counts(self, id: TokenId)
        requires
            self.inv(),
            self.tokens.contains_key(id),
        ensures
            self.launch_tokens.contains_key(self.tokens[id].launch_id),
            self.launch_tokens[self.tokens[id].launch_id].supply >= 1,
            self.launch_tokens[self.tokens[id].launch_id].destroyed
                < self.launch_tokens[self.tokens[id].launch_id].issued,
    {
        let l = self.tokens[id].launch_id;
        assert(self.launch_tokens.contains_key(l));
        self.tokens.dom().lemma_len_filter(|t: TokenId| self.tokens[t].launch_id == l);
        assert(self.live_tokens_of(l).contains(id));
        assert(self.live_tokens_of(l).finite());
        if self.live_tokens_of(l).len() == 0 {
            assert(self.live_tokens_of(l) =~= Set::empty());
        }
    }

    /// Destroying a token keeps the ledger sound.
    pub proof fn lemma_unchecked_burn(self, id: TokenId)
        requires
            self.inv(),
        ensures
            self.unchecked_burn(id).0.inv(),
    {
        let (after, result) = self.unchecked_burn(id);
        if result is Ok {
            let token = self.tokens[id];
            let held = self.token_ids_of(token.owner);
            self.lemma_live_token_counts(id);
            assert(held.contains(id)) by {
                assert(self.account_owns_token(token.owner, id));
            }
            lemma_without_first(held, id);
            let rest = without_first(held, id);
            self.lemma_other_indices_in_step(after);
            assert forall|a: AccountId, t: TokenId| #[trigger]
                after.token_ids_of(a).contains(t) <==> after.account_owns_token(a, t) by {
                assert(self.token_ids_of(a).contains(t) <==> self.account_owns_token(a, t));
                if a == token.owner {
                    assert(after.token_ids_of(a) == rest);
                    if t != id {
                        assert(rest.contains(t) <==> held.contains(t));
                    }
                } else {
                    assert(after.token_ids_of(a) == self.token_ids_of(a));
                }
            }
            assert forall|l: TokenId| #[trigger] after.launch_tokens.contains_key(l) implies {
                let launch = after.launch_tokens[l];
                &&& launch.sound()
                &&& launch.supply + launch.destroyed <= u32::MAX
                &&& after.live_tokens_of(l).len() + launch.destroyed == launch.issued
            } by {
                assert(self.launch_tokens.contains_key(l));
                if l == token.launch_id {
                    assert(after.live_tokens_of(l) =~= self.live_tokens_of(l).remove(id));
                    assert(self.live_tokens_of(l).contains(id));
                    self.tokens.dom().lemma_len_filter(|t: TokenId| self.tokens[t].launch_id == l);
                } else {
                    assert(after.live_tokens_of(l) =~= self.live_tokens_of(l));
                }
            }
        }
    }
}

} // verus!
