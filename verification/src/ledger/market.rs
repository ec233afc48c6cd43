//! The actions that accounts take.  Each one first asks whether the record
//! exists, then whether the account may act on it, then whether the record
//! is in a state that allows the action, and only then changes the ledger.

use super::Ledger;
use crate::report::{Error, Event, Outcome};
use crate::types::aliases::{AccountId, Balance};
use crate::types::{LaunchTokenMetadataView, TokenId};
use vstd::prelude::*;

verus! {

/// The outcome `event` where the step succeeded, its error where it failed.
pub open spec fn reported<T>(step: Result<T, Error>, event: Event) -> Result<Outcome, Error> {
    match step {
        Ok(_) => Ok(Outcome::of(event)),
        Err(error) => Err(error),
    }
}

impl Ledger {
    /// `account` creates the creator account `creator`.
    pub open spec fn create_account(
        self,
        account: AccountId,
        creator: Seq<u8>,
    ) -> (Ledger, Result<Outcome, Error>) {
        let (after, added) = self.add_new_creator_to_account(creator, account);
        (after, reported(added, Event::NewCreator))
    }

    /// `account` drops its creator account `creator`.
    pub open spec fn drop_account(
        self,
        account: AccountId,
        creator: Seq<u8>,
    ) -> (Ledger, Result<Outcome, Error>) {
        let (after, removed) = self.remove_creator_from_account(creator, account);
        (after, reported(removed, Event::DroppedCreator))
    }

    /// `account` mints a launch token for its creator account `creator`.
    pub open spec fn mint(
        self,
        account: AccountId,
        creator: Seq<u8>,
        price: Balance,
        metadata: LaunchTokenMetadataView,
    ) -> (Ledger, Result<Outcome, Error>) {
        if !self.account_owns_creator(account, creator) {
            (self, Err(Error::NotOwner))
        } else {
            let (after, minted) = self.unchecked_mint(creator, price, metadata);
            (after, reported(minted, Event::TokenCreated))
        }
    }

    /// `account` gives one token of its creator's launch `launch_id` to
    /// `receiver`.
    pub open spec fn launch_gift(
        self,
        account: AccountId,
        creator: Seq<u8>,
        launch_id: TokenId,
        receiver: AccountId,
    ) -> (Ledger, Result<Outcome, Error>) {
        if !self.launch_tokens.contains_key(launch_id) {
            (self, Err(Error::TokenNotFound))
        } else if !self.account_owns_creator(account, creator) {
            (self, Err(Error::NotOwner))
        } else if !self.creator_owns_launch_token(creator, launch_id) {
            (self, Err(Error::NotOwner))
        } else {
            let (after, issued) = self.unchecked_launch_transfer(receiver, launch_id);
            (after, reported(issued, Event::TokenInitialCollection))
        }
    }

    /// `account`, which can spend `free_balance`, buys one token of launch
    /// `launch_id` at first hand for `bid_price`.  The bid goes to the
    /// account that owns the launch's creator.
    pub open spec fn launch_buy(
        self,
        account: AccountId,
        free_balance: Balance,
        launch_id: TokenId,
        bid_price: Balance,
    ) -> (Ledger, Result<Outcome, Error>) {
        if !self.launch_tokens.contains_key(launch_id) {
            (self, Err(Error::TokenNotFound))
        } else if free_balance < bid_price {
            (self, Err(Error::InsufficientFunds))
        } else if self.launch_token_owner(launch_id) is None {
            (self, Err(Error::TokenUnavailable))
        } else if bid_price < self.launch_tokens[launch_id].price {
            (self, Err(Error::BidPriceTooLow))
        } else {
            let (after, issued) = self.unchecked_launch_transfer(account, launch_id);
            (
                after,
                match issued {
                    Ok(_) => Ok(
                        Outcome::paid(
                            Event::TokenInitialCollection,
                            account,
                            self.launch_token_owner(launch_id)->Some_0,
                            bid_price,
                        ),
                    ),
                    Err(error) => Err(error),
                },
            )
        }
    }

    /// `account`, which can spend `free_balance`, buys the listed token `id`
    /// for `bid_price`.  The bid goes to the account that owned the token.
    pub open spec fn buy(
        self,
        account: AccountId,
        free_balance: Balance,
        id: TokenId,
        bid_price: Balance,
    ) -> (Ledger, Result<Outcome, Error>) {
        if !self.tokens.contains_key(id) {
            (self, Err(Error::TokenNotFound))
        } else if free_balance < bid_price {
            (self, Err(Error::InsufficientFunds))
        } else if self.tokens[id].price is None {
            (self, Err(Error::TokenNotForSale))
        } else if bid_price < self.tokens[id].price->Some_0 {
            (self, Err(Error::BidPriceTooLow))
        } else {
            let (after, moved) = self.unchecked_transfer(self.tokens[id].owner, account, id);
            (
                after,
                match moved {
                    Ok(_) => Ok(
                        Outcome::paid(
                            Event::TokenTransferred,
                            account,
                            self.tokens[id].owner,
                            bid_price,
                        ),
                    ),
                    Err(error) => Err(error),
                },
            )
        }
    }

    /// `account` transfers its token `id` to itself.
    pub open spec fn transfer(
        self,
        account: AccountId,
        id: TokenId,
    ) -> (Ledger, Result<Outcome, Error>) {
        if !self.tokens.contains_key(id) {
            (self, Err(Error::TokenNotFound))
        } else if !self.account_owns_token(account, id) {
            (self, Err(Error::NotOwner))
        } else {
            let (after, moved) = self.unchecked_transfer(account, account, id);
            (after, reported(moved, Event::TokenTransferred))
        }
    }

    /// `account` lists its token `id` for `price`.
    pub open spec fn list(
        self,
        account: AccountId,
        id: TokenId,
        price: Balance,
    ) -> (Ledger, Result<Outcome, Error>) {
        if !self.tokens.contains_key(id) {
            (self, Err(Error::TokenNotFound))
        } else if !self.account_owns_token(account, id) {
            (self, Err(Error::NotOwner))
        } else if self.token_price(id) is Some {
            (self, Err(Error::TokenAlreadyListed))
        } else {
            let (after, priced) = self.unchecked_set_price(id, Some(price));
            (after, reported(priced, Event::TokenListed))
        }
    }

    /// `account` takes its token `id` off the market.
    pub open spec fn unlist(
        self,
        account: AccountId,
        id: TokenId,
    ) -> (Ledger, Result<Outcome, Error>) {
        if !self.tokens.contains_key(id) {
            (self, Err(Error::TokenNotFound))
        } else if !self.account_owns_token(account, id) {
            (self, Err(Error::NotOwner))
        } else if self.token_price(id) is None {
            (self, Err(Error::TokenNotListed))
        } else {
            let (after, priced) = self.unchecked_set_price(id, None);
            (after, reported(priced, Event::TokenUnlisted))
        }
    }

    /// `account` sets the price of its creator's launch `launch_id`.
    pub open spec fn set_launch_price(
        self,
        account: AccountId,
        creator: Seq<u8>,
        launch_id: TokenId,
        price: Balance,
    ) -> (Ledger, Result<Outcome, Error>) {
        if !self.launch_tokens.contains_key(launch_id) {
            (self, Err(Error::TokenNotFound))
        } else if !self.account_owns_creator(account, creator) {
            (self, Err(Error::NotOwner))
        } else if !self.creator_owns_launch_token(creator, launch_id) {
            (self, Err(Error::NotOwner))
        } else {
            let (after, priced) = self.unchecked_set_launch_price(launch_id, price);
            (after, reported(priced, Event::TokenLaunchPriceUpdated))
        }
    }

    /// `account` changes the price of its listed token `id`.
    pub open spec fn set_price(
        self,
        account: AccountId,
        id: TokenId,
        price: Balance,
    ) -> (Ledger, Result<Outcome, Error>) {
        if !self.tokens.contains_key(id) {
            (self, Err(Error::TokenNotFound))
        } else if !self.account_owns_token(account, id) {
            (self, Err(Error::NotOwner))
        } else if self.token_price(id) is None {
            (self, Err(Error::TokenNotListed))
        } else {
            let (after, priced) = self.unchecked_set_price(id, Some(price));
            (after, reported(priced, Event::TokenPriceUpdated))
        }
    }

    /// `account` destroys its token `id`.
    pub open spec fn burn(
        self,
        account: AccountId,
        id: TokenId,
    ) -> (Ledger, Result<Outcome, Error>) {
        if !self.tokens.contains_key(id) {
            (self, Err(Error::TokenNotFound))
        } else if !self.account_owns_token(account, id) {
            (self, Err(Error::NotOwner))
        } else {
            let (after, burnt) = self.unchecked_burn(id);
            (after, reported(burnt, Event::TokenDestroyed))
        }
    }
}

} // verus!
