//! The launch token store and the token ledger.

use super::index::{
    put_index, put_launch_index, remove_token_id, take_index, take_launch_index,
};
use crate::bounded::{bytes_63, clone_bytes_63, try_push_bounded};
use crate::pallet::Pallet;
use crate::report::Error;
use crate::types::aliases::{AccountId, Balance};
use crate::types::{CreatorId, LaunchToken, LaunchTokenMetadata, Token, TokenId};
use vstd::prelude::*;

verus! {

broadcast use vstd::std_specs::hash::group_hash_axioms;

impl<
    const MAX_CREATOR_ACCOUNTS: u32,
    const MAX_LAUNCH_TOKENS: u32,
    const MAX_TOKENS: u32,
> Pallet<MAX_CREATOR_ACCOUNTS, MAX_LAUNCH_TOKENS, MAX_TOKENS> {
    /// Mint new launch token with provided price and metadata for creator.
    ///
    /// Returns created launch token id: the one after the id minted last.
    /// Fails with `LaunchTokensOverflow` where no id is left, then with
    /// `MaxLaunchTokensReached` where the creator has minted as many launch
    /// tokens as it may.  A failure changes nothing, the counter included.
    ///
    /// *Unchecked!*  Who asks is not looked at, nor whether the creator
    /// exists.
    pub fn unchecked_mint(
        &mut self,
        creator_id: CreatorId,
        price: Balance,
        metadata: LaunchTokenMetadata,
    ) -> (result: Result<TokenId, Error>)
        requires
            old(self).wf(),
        ensures
            final(self).wf(),
            (final(self)@, result) == old(self)@.unchecked_mint(
                bytes_63(creator_id),
                price,
                metadata@,
            ),
    {
        let ghost before = self@;
        let ghost key = bytes_63(creator_id);
        let next_token_id = match self.next_launch_token_id() {
            Ok(id) => id,
            Err(error) => {
                return Err(error);
            },
        };
        let ghost index_before = self.launch_token_ids_for_creator@;
        let ids = take_launch_index(&mut self.launch_token_ids_for_creator, &creator_id);
        proof {
            assert(ids@ == before.launch_token_ids_of(key));
            if index_before.contains_key(key) {
                assert(before.launch_token_ids_for_creator.contains_key(key));
            }
        }
        let (ids, pushed) = try_push_bounded::<TokenId, MAX_LAUNCH_TOKENS>(ids, next_token_id);
        match pushed {
            Err(_) => {
                put_launch_index(&mut self.launch_token_ids_for_creator, clone_bytes_63(&creator_id), ids);
                proof {
                    assert(self@.launch_token_ids_for_creator
                        =~= before.launch_token_ids_for_creator);
                }
                Err(Error::MaxLaunchTokensReached)
            },
            Ok(()) => {
                put_launch_index(&mut self.launch_token_ids_for_creator, clone_bytes_63(&creator_id), ids);
                self.launch_tokens.insert(
                    next_token_id,
                    LaunchToken::new(next_token_id, creator_id, price, metadata),
                );
                self.launch_issuance_nonce = next_token_id;
                proof {
                    let after = before.unchecked_mint(key, price, metadata@).0;
                    assert(self@.launch_tokens =~= after.launch_tokens);
                    assert(self@.launch_token_ids_for_creator
                        =~= after.launch_token_ids_for_creator);
                    before.lemma_unchecked_mint(key, price, metadata@);
                }
                Ok(next_token_id)
            },
        }
    }

    /// Get token from launch token and transfer to account.
    ///
    /// Returns the id of the new token: the one after the id issued last.
    /// Fails with `TokensOverflow` where no id is left, then with
    /// `TokenNotFound` where the launch token is unknown, with
    /// `TokenSoldOut` where as many tokens were issued as the launch's
    /// total supply, and with `MaxTokensReached` where the receiver owns as
    /// many tokens as it may.  A failure changes nothing.
    ///
    /// *Unchecked!*
    pub fn unchecked_launch_transfer(
        &mut self,
        receiver: &AccountId,
        launch_token_id: &TokenId,
    ) -> (result: Result<TokenId, Error>)
        requires
            old(self).wf(),
        ensures
            final(self).wf(),
            (final(self)@, result) == old(self)@.unchecked_launch_transfer(
                *receiver,
                *launch_token_id,
            ),
    {
        let ghost before = self@;
        let next_token_id = match self.next_token_id() {
            Ok(id) => id,
            Err(error) => {
                return Err(error);
            },
        };
        let mut launch_token = match self.launch_tokens.get(launch_token_id) {
            Some(launch_token) => launch_token.clone(),
            None => {
                return Err(Error::TokenNotFound);
            },
        };
        if launch_token.issued >= launch_token.total_supply() {
            return Err(Error::TokenSoldOut);
        }
        let ghost index_before = self.token_ids_for_account@;
        let ids = take_index(&mut self.token_ids_for_account, *receiver);
        proof {
            assert(ids@ == before.token_ids_of(*receiver));
            if index_before.contains_key(*receiver) {
                assert(before.token_ids_for_account.contains_key(*receiver));
            }
        }
        let (ids, pushed) = try_push_bounded::<TokenId, MAX_TOKENS>(ids, next_token_id);
        match pushed {
            Err(_) => {
                put_index(&mut self.token_ids_for_account, *receiver, ids);
                proof {
                    assert(self@.token_ids_for_account =~= before.token_ids_for_account);
                }
                Err(Error::MaxTokensReached)
            },
            Ok(()) => {
                put_index(&mut self.token_ids_for_account, *receiver, ids);
                self.tokens.insert(
                    next_token_id,
                    Token::new(*receiver, next_token_id, launch_token.clone()),
                );
                launch_token.bump_issued();
                self.launch_tokens.insert(*launch_token_id, launch_token);
                self.issuance_nonce = next_token_id;
                proof {
                    let after = before.unchecked_launch_transfer(*receiver, *launch_token_id).0;
                    assert(self@.tokens =~= after.tokens);
                    assert(self@.launch_tokens =~= after.launch_tokens);
                    assert(self@.token_ids_for_account =~= after.token_ids_for_account);
                    before.lemma_unchecked_launch_transfer(*receiver, *launch_token_id);
                }
                Ok(next_token_id)
            },
        }
    }

    /// Remove token from owner and transfer to receiver.
    ///
    /// Fails with `TokenNotFound` where the token is unknown, then with
    /// `MaxTokensReached` where the receiver owns as many tokens as it may,
    /// the owner itself included.  A failure changes nothing.
    ///
    /// *Unchecked!*  Who asks is not looked at; `owner` must be the account
    /// that owns the token.
    pub fn unchecked_transfer(
        &mut self,
        owner: &AccountId,
        receiver: &AccountId,
        token_id: &TokenId,
    ) -> (result: Result<(), Error>)
        requires
            old(self).wf(),
            old(self)@.tokens.contains_key(*token_id) ==> old(self)@.tokens[*token_id].owner
                == *owner,
        ensures
            final(self).wf(),
            (final(self)@, result) == old(self)@.unchecked_transfer(*owner, *receiver, *token_id),
    {
        let ghost before = self@;
        let mut token = match self.tokens.get(token_id) {
            Some(token) => token.clone(),
            None => {
                return Err(Error::TokenNotFound);
            },
        };
        let ghost index_before = self.token_ids_for_account@;
        let ids = take_index(&mut self.token_ids_for_account, *receiver);
        proof {
            assert(ids@ == before.token_ids_of(*receiver));
            if index_before.contains_key(*receiver) {
                assert(before.token_ids_for_account.contains_key(*receiver));
            }
        }
        let (ids, pushed) = try_push_bounded::<TokenId, MAX_TOKENS>(ids, *token_id);
        match pushed {
            Err(_) => {
                put_index(&mut self.token_ids_for_account, *receiver, ids);
                proof {
                    assert(self@.token_ids_for_account =~= before.token_ids_for_account);
                }
                Err(Error::MaxTokensReached)
            },
            Ok(()) => {
                put_index(&mut self.token_ids_for_account, *receiver, ids);
                let ghost received = self@.token_ids_for_account;
                let mut left = take_index(&mut self.token_ids_for_account, *owner);
                remove_token_id(&mut left, *token_id);
                put_index(&mut self.token_ids_for_account, *owner, left);
                token.owner = *receiver;
                self.tokens.insert(*token_id, token);
                proof {
                    let after = before.unchecked_transfer(*owner, *receiver, *token_id).0;
                    assert(received =~= before.token_ids_for_account.insert(
                        *receiver,
                        before.token_ids_of(*receiver).push(*token_id),
                    ));
                    assert(self@.tokens =~= after.tokens);
                    assert(self@.token_ids_for_account =~= after.token_ids_for_account);
                    before.lemma_unchecked_transfer(*owner, *receiver, *token_id);
                }
                Ok(())
            },
        }
    }

    /// Set price for launch token.
    ///
    /// Fails with `TokenNotFound` where the launch token is unknown.
    ///
    /// *Unchecked!*
    pub fn unchecked_set_launch_price(
        &mut self,
        launch_token_id: &TokenId,
        price: Balance,
    ) -> (result: Result<(), Error>)
        requires
            old(self).wf(),
        ensures
            final(self).wf(),
            (final(self)@, result) == old(self)@.unchecked_set_launch_price(*launch_token_id, price),
    {
        let ghost before = self@;
        let mut launch_token = match self.launch_tokens.get(launch_token_id) {
            Some(launch_token) => launch_token.clone(),
            None => {
                return Err(Error::TokenNotFound);
            },
        };
        launch_token.price = price;
        self.launch_tokens.insert(*launch_token_id, launch_token);
        proof {
            let after = before.unchecked_set_launch_price(*launch_token_id, price).0;
            assert(self@.launch_tokens =~= after.launch_tokens);
            before.lemma_unchecked_set_launch_price(*launch_token_id, price);
        }
        Ok(())
    }

    /// Set price for token; `None` takes the token off the market.
    ///
    /// Fails with `TokenNotFound` where the token is unknown.
    ///
    /// *Unchecked!*
    pub fn unchecked_set_price(
        &mut self,
        token_id: &TokenId,
        price: Option<Balance>,
    ) -> (result: Result<(), Error>)
        requires
            old(self).wf(),
        ensures
            final(self).wf(),
            (final(self)@, result) == old(self)@.unchecked_set_price(*token_id, price),
    {
        let ghost before = self@;
        let mut token = match self.tokens.get(token_id) {
            Some(token) => token.clone(),
            None => {
                return Err(Error::TokenNotFound);
            },
        };
        token.price = price;
        self.tokens.insert(*token_id, token);
        proof {
            let after = before.unchecked_set_price(*token_id, price).0;
            assert(self@.tokens =~= after.tokens);
            before.lemma_unchecked_set_price(*token_id, price);
        }
        Ok(())
    }

    /// Destroy token.
    ///
    /// Fails with `TokenNotFound` where the token is unknown.  Otherwise the
    /// token leaves its owner's index and the table of tokens, and its
    /// launch token counts one more destroyed and one less in supply.
    ///
    /// *Unchecked!*
    pub fn unchecked_burn(&mut self, token_id: &TokenId) -> (result: Result<(), Error>)
        requires
            old(self).wf(),
        ensures
            final(self).wf(),
            (final(self)@, result) == old(self)@.unchecked_burn(*token_id),
    {
        let ghost before = self@;
        let token = match self.tokens.remove(token_id) {
            Some(token) => token,
            None => {
                proof {
                    assert(self@.tokens =~= before.tokens);
                }
                return Err(Error::TokenNotFound);
            },
        };
        let mut ids = take_index(&mut self.token_ids_for_account, token.owner);
        remove_token_id(&mut ids, token.id);
        put_index(&mut self.token_ids_for_account, token.owner, ids);
        match self.launch_tokens.remove(&token.launch_id) {
            Some(launch_token) => {
                let mut launch_token = launch_token;
                launch_token.bump_destroyed_and_decrease_supply();
                self.launch_tokens.insert(token.launch_id, launch_token);
            },
            None => {},
        }
        proof {
            let after = before.unchecked_burn(*token_id).0;
            assert(self@.tokens =~= after.tokens);
            assert(self@.launch_tokens =~= after.launch_tokens);
            assert(self@.token_ids_for_account =~= after.token_ids_for_account);
            before.lemma_unchecked_burn(*token_id);
        }
        Ok(())
    }

    /// Ensure creator account owns launch token.
    pub fn ensure_creator_owns_launch_token(
        &self,
        creator_id: &CreatorId,
        launch_token_id: &TokenId,
    ) -> (result: Result<(), Error>)
        ensures
            result == self@.ensure_creator_owns_launch_token(
                bytes_63(*creator_id),
                *launch_token_id,
            ),
    {
        let owns = match self.launch_tokens.get(launch_token_id) {
            Some(launch_token) => crate::bounded::same_bytes_63(&launch_token.creator, creator_id),
            None => false,
        };
        if owns {
            Ok(())
        } else {
            Err(Error::NotOwner)
        }
    }

    /// Ensure account owns token.
    pub fn ensure_account_owns_token(
        &self,
        account: &AccountId,
        token_id: &TokenId,
    ) -> (result: Result<(), Error>)
        ensures
            result == self@.ensure_account_owns_token(*account, *token_id),
    {
        let owns = match self.tokens.get(token_id) {
            Some(token) => token.owner == *account,
            None => false,
        };
        if owns {
            Ok(())
        } else {
            Err(Error::NotOwner)
        }
    }

    /// Get token owner if token exists.
    pub fn get_token_owner(&self, token_id: &TokenId) -> (owner: Option<AccountId>)
        ensures
            owner == self@.token_owner(*token_id),
    {
        match self.tokens.get(token_id) {
            Some(token) => Some(token.owner),
            None => None,
        }
    }

    /// Get launch token owner if launch token exists and it's creator's owner has not been disconnected.
    pub fn get_launch_token_owner(&self, launch_token_id: &TokenId) -> (owner: Option<AccountId>)
        requires
            self.wf(),
        ensures
            owner == self@.launch_token_owner(*launch_token_id),
    {
        match self.launch_tokens.get(launch_token_id) {
            Some(launch_token) => self.get_creator_owner(&launch_token.creator),
            None => None,
        }
    }

    /// Get token price if token exists and has a price.
    pub fn get_token_price(&self, token_id: &TokenId) -> (price: Option<Balance>)
        ensures
            price == self@.token_price(*token_id),
    {
        match self.tokens.get(token_id) {
            Some(token) => token.price,
            None => None,
        }
    }
}

} // verus!
