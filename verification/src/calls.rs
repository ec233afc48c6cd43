//! The actions that accounts take, on the ledger as it is kept.  The host
//! hands in the account that it has authenticated and, for a purchase, what
//! that account can spend; it gets back the event to report and the payment
//! to make.

use crate::bounded::bytes_63;
use crate::pallet::Pallet;
use crate::report::{Error, Event, Outcome, Payment};
use crate::types::aliases::{AccountId, Balance};
use crate::types::{CreatorId, LaunchTokenMetadata, TokenId};
use vstd::prelude::*;

verus! {

impl<
    const MAX_CREATOR_ACCOUNTS: u32,
    const MAX_LAUNCH_TOKENS: u32,
    const MAX_TOKENS: u32,
> Pallet<MAX_CREATOR_ACCOUNTS, MAX_LAUNCH_TOKENS, MAX_TOKENS> {
    /// Create new creator account.
    pub fn create_account(
        &mut self,
        account: AccountId,
        creator_id: CreatorId,
    ) -> (result: Result<Outcome, Error>)
        requires
            old(self).wf(),
        ensures
            final(self).wf(),
            (final(self)@, result) == old(self)@.create_account(account, bytes_63(creator_id)),
    {
        match self.add_new_creator_to_account(creator_id, account) {
            Ok(()) => Ok(Outcome { event: Event::NewCreator, payment: None }),
            Err(error) => Err(error),
        }
    }

    /// Drop creator account.
    ///
    /// Keeps creator account alive if tokens have been created by the creator account.
    pub fn drop_account(
        &mut self,
        account: AccountId,
        creator_id: CreatorId,
    ) -> (result: Result<Outcome, Error>)
        requires
            old(self).wf(),
        ensures
            final(self).wf(),
            (final(self)@, result) == old(self)@.drop_account(account, bytes_63(creator_id)),
    {
        match self.remove_creator_from_account(creator_id, account) {
            Ok(()) => Ok(Outcome { event: Event::DroppedCreator, payment: None }),
            Err(error) => Err(error),
        }
    }

    /// Create new token.
    pub fn mint(
        &mut self,
        account: AccountId,
        creator_id: CreatorId,
        price: Balance,
        metadata: LaunchTokenMetadata,
    ) -> (result: Result<Outcome, Error>)
        requires
            old(self).wf(),
        ensures
            final(self).wf(),
            (final(self)@, result) == old(self)@.mint(
                account,
                bytes_63(creator_id),
                price,
                metadata@,
            ),
    {
        if self.ensure_account_owns_creator(&account, &creator_id).is_err() {
            return Err(Error::NotOwner);
        }
        match self.unchecked_mint(creator_id, price, metadata) {
            Ok(_) => Ok(Outcome { event: Event::TokenCreated, payment: None }),
            Err(error) => Err(error),
        }
    }

    /// Gift token to account first hand.
    pub fn launch_gift(
        &mut self,
        account: AccountId,
        creator_id: CreatorId,
        launch_token_id: TokenId,
        receiver: AccountId,
    ) -> (result: Result<Outcome, Error>)
        requires
            old(self).wf(),
        ensures
            final(self).wf(),
            (final(self)@, result) == old(self)@.launch_gift(
                account,
                bytes_63(creator_id),
                launch_token_id,
                receiver,
            ),
    {
        if self.launch_tokens(launch_token_id).is_none() {
            return Err(Error::TokenNotFound);
        }
        if self.ensure_account_owns_creator(&account, &creator_id).is_err() {
            return Err(Error::NotOwner);
        }
        if self.ensure_creator_owns_launch_token(&creator_id, &launch_token_id).is_err() {
            return Err(Error::NotOwner);
        }
        match self.unchecked_launch_transfer(&receiver, &launch_token_id) {
            Ok(_) => Ok(Outcome { event: Event::TokenInitialCollection, payment: None }),
            Err(error) => Err(error),
        }
    }

    /// Buy token from creator first hand.
    ///
    /// `free_balance` is what `account` can spend.  On success the host
    /// moves `bid_price` from `account` to the owner of the launch token.
    pub fn launch_buy(
        &mut self,
        account: AccountId,
        free_balance: Balance,
        launch_token_id: TokenId,
        bid_price: Balance,
    ) -> (result: Result<Outcome, Error>)
        requires
            old(self).wf(),
        ensures
            final(self).wf(),
            (final(self)@, result) == old(self)@.launch_buy(
                account,
                free_balance,
                launch_token_id,
                bid_price,
            ),
    {
        let launch_token = match self.launch_tokens(launch_token_id) {
            Some(launch_token) => launch_token,
            None => {
                return Err(Error::TokenNotFound);
            },
        };
        if free_balance < bid_price {
            return Err(Error::InsufficientFunds);
        }
        let launch_token_owner = match self.get_launch_token_owner(&launch_token_id) {
            Some(owner) => owner,
            None => {
                return Err(Error::TokenUnavailable);
            },
        };
        if bid_price < launch_token.price {
            return Err(Error::BidPriceTooLow);
        }
        match self.unchecked_launch_transfer(&account, &launch_token_id) {
            Ok(_) => Ok(
                Outcome {
                    event: Event::TokenInitialCollection,
                    payment: Some(
                        Payment {
                            from: account,
                            to: launch_token_owner,
                            amount: bid_price,
                            keep_alive: true,
                        },
                    ),
                },
            ),
            Err(error) => Err(error),
        }
    }

    /// Buy token from market.
    ///
    /// `free_balance` is what `account` can spend.  On success the host
    /// moves `bid_price` from `account` to the account that owned the token.
    pub fn buy(
        &mut self,
        account: AccountId,
        free_balance: Balance,
        token_id: TokenId,
        bid_price: Balance,
    ) -> (result: Result<Outcome, Error>)
        requires
            old(self).wf(),
        ensures
            final(self).wf(),
            (final(self)@, result) == old(self)@.buy(account, free_balance, token_id, bid_price),
    {
        let token = match self.tokens(token_id) {
            Some(token) => token,
            None => {
                return Err(Error::TokenNotFound);
            },
        };
        if free_balance < bid_price {
            return Err(Error::InsufficientFunds);
        }
        let token_price = match token.price {
            Some(price) => price,
            None => {
                return Err(Error::TokenNotForSale);
            },
        };
        if bid_price < token_price {
            return Err(Error::BidPriceTooLow);
        }
        match self.unchecked_transfer(&token.owner, &account, &token_id) {
            Ok(()) => Ok(
                Outcome {
                    event: Event::TokenTransferred,
                    payment: Some(
                        Payment {
                            from: account,
                            to: token.owner,
                            amount: bid_price,
                            keep_alive: true,
                        },
                    ),
                },
            ),
            Err(error) => Err(error),
        }
    }

    /// Transfer token to account.
    pub fn transfer(
        &mut self,
        account: AccountId,
        token_id: TokenId,
    ) -> (result: Result<Outcome, Error>)
        requires
            old(self).wf(),
        ensures
            final(self).wf(),
            (final(self)@, result) == old(self)@.transfer(account, token_id),
    {
        if self.tokens(token_id).is_none() {
            return Err(Error::TokenNotFound);
        }
        if self.ensure_account_owns_token(&account, &token_id).is_err() {
            return Err(Error::NotOwner);
        }
        match self.unchecked_transfer(&account, &account, &token_id) {
            Ok(()) => Ok(Outcome { event: Event::TokenTransferred, payment: None }),
            Err(error) => Err(error),
        }
    }

    /// List token on market.
    pub fn list(
        &mut self,
        account: AccountId,
        token_id: TokenId,
        price: Balance,
    ) -> (result: Result<Outcome, Error>)
        requires
            old(self).wf(),
        ensures
            final(self).wf(),
            (final(self)@, result) == old(self)@.list(account, token_id, price),
    {
        if self.tokens(token_id).is_none() {
            return Err(Error::TokenNotFound);
        }
        if self.ensure_account_owns_token(&account, &token_id).is_err() {
            return Err(Error::NotOwner);
        }
        if self.get_token_price(&token_id).is_some() {
            return Err(Error::TokenAlreadyListed);
        }
        match self.unchecked_set_price(&token_id, Some(price)) {
            Ok(()) => Ok(Outcome { event: Event::TokenListed, payment: None }),
            Err(error) => Err(error),
        }
    }

    /// Unlist token from market.
    pub fn unlist(
        &mut self,
        account: AccountId,
        token_id: TokenId,
    ) -> (result: Result<Outcome, Error>)
        requires
            old(self).wf(),
        ensures
            final(self).wf(),
            (final(self)@, result) == old(self)@.unlist(account, token_id),
    {
        if self.tokens(token_id).is_none() {
            return Err(Error::TokenNotFound);
        }
        if self.ensure_account_owns_token(&account, &token_id).is_err() {
            return Err(Error::NotOwner);
        }
        if self.get_token_price(&token_id).is_none() {
            return Err(Error::TokenNotListed);
        }
        match self.unchecked_set_price(&token_id, None) {
            Ok(()) => Ok(Outcome { event: Event::TokenUnlisted, payment: None }),
            Err(error) => Err(error),
        }
    }

    /// Update launch price of token.
    pub fn set_launch_price(
        &mut self,
        account: AccountId,
        creator_id: CreatorId,
        launch_token_id: TokenId,
        price: Balance,
    ) -> (result: Result<Outcome, Error>)
        requires
            old(self).wf(),
        ensures
            final(self).wf(),
            (final(self)@, result) == old(self)@.set_launch_price(
                account,
                bytes_63(creator_id),
                launch_token_id,
                price,
            ),
    {
        if self.launch_tokens(launch_token_id).is_none() {
            return Err(Error::TokenNotFound);
        }
        if self.ensure_account_owns_creator(&account, &creator_id).is_err() {
            return Err(Error::NotOwner);
        }
        if self.ensure_creator_owns_launch_token(&creator_id, &launch_token_id).is_err() {
            return Err(Error::NotOwner);
        }
        match self.unchecked_set_launch_price(&launch_token_id, price) {
            Ok(()) => Ok(Outcome { event: Event::TokenLaunchPriceUpdated, payment: None }),
            Err(error) => Err(error),
        }
    }

    /// Update price of token.
    pub fn set_price(
        &mut self,
        account: AccountId,
        token_id: TokenId,
        price: Balance,
    ) -> (result: Result<Outcome, Error>)
        requires
            old(self).wf(),
        ensures
            final(self).wf(),
            (final(self)@, result) == old(self)@.set_price(account, token_id, price),
    {
        if self.tokens(token_id).is_none() {
            return Err(Error::TokenNotFound);
        }
        if self.ensure_account_owns_token(&account, &token_id).is_err() {
            return Err(Error::NotOwner);
        }
        if self.get_token_price(&token_id).is_none() {
            return Err(Error::TokenNotListed);
        }
        match self.unchecked_set_price(&token_id, Some(price)) {
            Ok(()) => Ok(Outcome { event: Event::TokenPriceUpdated, payment: None }),
            Err(error) => Err(error),
        }
    }

    /// Destroy token.
    pub fn burn(
        &mut self,
        account: AccountId,
        token_id: TokenId,
    ) -> (result: Result<Outcome, Error>)
        requires
            old(self).wf(),
        ensures
            final(self).wf(),
            (final(self)@, result) == old(self)@.burn(account, token_id),
    {
        if self.tokens(token_id).is_none() {
            return Err(Error::TokenNotFound);
        }
        if self.ensure_account_owns_token(&account, &token_id).is_err() {
            return Err(Error::NotOwner);
        }
        match self.unchecked_burn(&token_id) {
            Ok(()) => Ok(Outcome { event: Event::TokenDestroyed, payment: None }),
            Err(error) => Err(error),
        }
    }
}

} // verus!
