//! The ledger as a mathematical value: its tables as maps, its indices as
//! sequences, and each action as a function from the ledger before to the
//! ledger after and the result handed back.

pub mod action;
pub mod creator;
pub mod index;
pub mod market;
pub mod token;

use crate::report::Error;
use crate::types::aliases::{AccountId, Balance};
use crate::types::{CreatorView, LaunchTokenView, TokenId, TokenView};
use index::index_at;
use vstd::prelude::*;

verus! {

/// The whole state of the ledger.
pub ghost struct Ledger {
    /// How many creator accounts one account may own.
    pub max_creator_accounts: u32,
    /// How many launch tokens one creator may have minted.
    pub max_launch_tokens: u32,
    /// How many tokens one account may own.
    pub max_tokens: u32,
    pub creators: Map<Seq<u8>, CreatorView>,
    pub creator_ids_for_account: Map<AccountId, Seq<Seq<u8>>>,
    pub launch_tokens: Map<TokenId, LaunchTokenView>,
    pub launch_token_ids_for_creator: Map<Seq<u8>, Seq<TokenId>>,
    pub tokens: Map<TokenId, TokenView>,
    pub token_ids_for_account: Map<AccountId, Seq<TokenId>>,
    /// The id of the launch token minted last.
    pub launch_issuance_nonce: TokenId,
    /// The id of the token issued last.
    pub issuance_nonce: TokenId,
}

impl Ledger {
    /// The ledger before anything happened.
    pub open spec fn empty(
        max_creator_accounts: u32,
        max_launch_tokens: u32,
        max_tokens: u32,
    ) -> Ledger {
        Ledger {
            max_creator_accounts,
            max_launch_tokens,
            max_tokens,
            creators: Map::empty(),
            creator_ids_for_account: Map::empty(),
            launch_tokens: Map::empty(),
            launch_token_ids_for_creator: Map::empty(),
            tokens: Map::empty(),
            token_ids_for_account: Map::empty(),
            launch_issuance_nonce: 0,
            issuance_nonce: 0,
        }
    }

    /// The ledger before anything happened, with counters that continue an
    /// earlier numbering.
    pub open spec fn starting_at(
        max_creator_accounts: u32,
        max_launch_tokens: u32,
        max_tokens: u32,
        launch_issuance_nonce: TokenId,
        issuance_nonce: TokenId,
    ) -> Ledger {
        Ledger {
            launch_issuance_nonce,
            issuance_nonce,
            ..Ledger::empty(max_creator_accounts, max_launch_tokens, max_tokens)
        }
    }

    /// The creator ids that `account` owns.
    pub open spec fn creator_ids_of(self, account: AccountId) -> Seq<Seq<u8>> {
        index_at(self.creator_ids_for_account, account)
    }

    /// The launch tokens that `creator` minted.
    pub open spec fn launch_token_ids_of(self, creator: Seq<u8>) -> Seq<TokenId> {
        index_at(self.launch_token_ids_for_creator, creator)
    }

    /// The tokens that `account` owns.
    pub open spec fn token_ids_of(self, account: AccountId) -> Seq<TokenId> {
        index_at(self.token_ids_for_account, account)
    }

    /// The tokens issued from launch `launch_id` that were not destroyed.
    pub open spec fn live_tokens_of(self, launch_id: TokenId) -> Set<TokenId> {
        self.tokens.dom().filter(|id: TokenId| self.tokens[id].launch_id == launch_id)
    }

    /// The id for the next launch token: the one after the id minted last,
    /// unless that was the last id there is.
    pub open spec fn next_launch_token_id(self) -> Result<TokenId, Error> {
        if self.launch_issuance_nonce < u128::MAX {
            Ok((self.launch_issuance_nonce + 1) as u128)
        } else {
            Err(Error::LaunchTokensOverflow)
        }
    }

    /// The id for the next token: the one after the id issued last, unless
    /// that was the last id there is.
    pub open spec fn next_token_id(self) -> Result<TokenId, Error> {
        if self.issuance_nonce < u128::MAX {
            Ok((self.issuance_nonce + 1) as u128)
        } else {
            Err(Error::TokensOverflow)
        }
    }

    /// The account that owns `creator`, unless the creator is unknown or
    /// was disconnected.
    pub open spec fn creator_owner(self, creator: Seq<u8>) -> Option<AccountId> {
        if self.creators.contains_key(creator) {
            self.creators[creator].owner
        } else {
            None
        }
    }

    /// The account that owns token `id`, if the token exists.
    pub open spec fn token_owner(self, id: TokenId) -> Option<AccountId> {
        if self.tokens.contains_key(id) {
            Some(self.tokens[id].owner)
        } else {
            None
        }
    }

    /// `account` owns the creator `creator`.
    pub open spec fn account_owns_creator(self, account: AccountId, creator: Seq<u8>) -> bool {
        self.creators.contains_key(creator) && self.creators[creator].owner == Some(account)
    }

    /// `creator` minted the launch token `launch_id`.
    pub open spec fn creator_owns_launch_token(self, creator: Seq<u8>, launch_id: TokenId) -> bool {
        self.launch_tokens.contains_key(launch_id) && self.launch_tokens[launch_id].creator
            == creator
    }

    /// `account` owns the token `id`.
    pub open spec fn account_owns_token(self, account: AccountId, id: TokenId) -> bool {
        self.tokens.contains_key(id) && self.tokens[id].owner == account
    }

    /// The account that sells launch `launch_id` at first hand: the owner of
    /// its creator, unless the launch is unknown or the creator was
    /// disconnected.
    pub open spec fn launch_token_owner(self, launch_id: TokenId) -> Option<AccountId> {
        if self.launch_tokens.contains_key(launch_id) {
            self.creator_owner(self.launch_tokens[launch_id].creator)
        } else {
            None
        }
    }

    /// The price at which token `id` is listed, if it exists and is listed.
    pub open spec fn token_price(self, id: TokenId) -> Option<Balance> {
        if self.tokens.contains_key(id) {
            self.tokens[id].price
        } else {
            None
        }
    }

    /// Every record is filed under its own id.
    pub open spec fn records_keyed(self) -> bool {
        &&& forall|creator: Seq<u8>| #[trigger]
            self.creators.contains_key(creator) ==> self.creators[creator].id == creator
        &&& forall|id: TokenId| #[trigger]
            self.launch_tokens.contains_key(id) ==> self.launch_tokens[id].id == id
        &&& forall|id: TokenId| #[trigger]
            self.tokens.contains_key(id) ==> self.tokens[id].id == id
    }

    /// No id was handed out beyond the two counters, so the next id of each
    /// kind is fresh.
    pub open spec fn ids_within_nonces(self) -> bool {
        &&& forall|id: TokenId| #[trigger]
            self.launch_tokens.contains_key(id) ==> id <= self.launch_issuance_nonce
        &&& forall|id: TokenId| #[trigger]
            self.tokens.contains_key(id) ==> id <= self.issuance_nonce
    }

    /// Every token names a launch token that exists.
    pub open spec fn references_resolve(self) -> bool {
        forall|id: TokenId| #[trigger]
            self.tokens.contains_key(id) ==> self.launch_tokens.contains_key(
                self.tokens[id].launch_id,
            )
    }

    /// Every launch token names a creator that exists: no creator was
    /// minted for before it was created, and none was removed while a
    /// launch token named it.
    pub open spec fn creators_resolve(self) -> bool {
        forall|id: TokenId| #[trigger]
            self.launch_tokens.contains_key(id) ==> self.creators.contains_key(
                self.launch_tokens[id].creator,
            )
    }

    /// No index keeps a key for no entries, holds an entry twice, or holds
    /// more entries than its limit.
    pub open spec fn indices_bounded(self) -> bool {
        &&& forall|account: AccountId| #[trigger]
            self.creator_ids_for_account.contains_key(account) ==> {
                &&& 0 < self.creator_ids_for_account[account].len() <= self.max_creator_accounts
                &&& self.creator_ids_for_account[account].no_duplicates()
            }
        &&& forall|creator: Seq<u8>| #[trigger]
            self.launch_token_ids_for_creator.contains_key(creator) ==> {
                &&& 0 < self.launch_token_ids_for_creator[creator].len() <= self.max_launch_tokens
                &&& self.launch_token_ids_for_creator[creator].no_duplicates()
            }
        &&& forall|account: AccountId| #[trigger]
            self.token_ids_for_account.contains_key(account) ==> {
                &&& 0 < self.token_ids_for_account[account].len() <= self.max_tokens
                &&& self.token_ids_for_account[account].no_duplicates()
            }
    }

    /// Each index holds exactly the ids of the records that name its key.
    pub open spec fn indices_in_step(self) -> bool {
        &&& forall|account: AccountId, creator: Seq<u8>| #[trigger]
            self.creator_ids_of(account).contains(creator) <==> self.account_owns_creator(
                account,
                creator,
            )
        &&& forall|creator: Seq<u8>, id: TokenId| #[trigger]
            self.launch_token_ids_of(creator).contains(id) <==> self.creator_owns_launch_token(
                creator,
                id,
            )
        &&& forall|account: AccountId, id: TokenId| #[trigger]
            self.token_ids_of(account).contains(id) <==> self.account_owns_token(account, id)
    }

    /// Of every launch, no more tokens were issued than supply and destroyed
    /// tokens together, and the tokens alive are those issued and not
    /// destroyed.
    pub open spec fn supplies_sound(self) -> bool {
        &&& self.tokens.dom().finite()
        &&& forall|id: TokenId| #[trigger]
            self.launch_tokens.contains_key(id) ==> {
                let launch = self.launch_tokens[id];
                &&& launch.sound()
                &&& launch.supply + launch.destroyed <= u32::MAX
                &&& self.live_tokens_of(id).len() + launch.destroyed == launch.issued
            }
    }

    /// What holds of the ledger between any two actions.
    pub open spec fn inv(self) -> bool {
        &&& self.records_keyed()
        &&& self.ids_within_nonces()
        &&& self.references_resolve()
        &&& self.indices_bounded()
        &&& self.indices_in_step()
        &&& self.supplies_sound()
    }

    /// A ledger in which nothing happened is sound, wherever its counters
    /// start.
    pub proof fn lemma_starting_at_inv(
        max_creator_accounts: u32,
        max_launch_tokens: u32,
        max_tokens: u32,
        launch_issuance_nonce: TokenId,
        issuance_nonce: TokenId,
    )
        ensures
            Ledger::starting_at(
                max_creator_accounts,
                max_launch_tokens,
                max_tokens,
                launch_issuance_nonce,
                issuance_nonce,
            ).inv(),
            Ledger::starting_at(
                max_creator_accounts,
                max_launch_tokens,
                max_tokens,
                launch_issuance_nonce,
                issuance_nonce,
            ).creators_resolve(),
            Ledger::starting_at(max_creator_accounts, max_launch_tokens, max_tokens, 0, 0)
                == Ledger::empty(max_creator_accounts, max_launch_tokens, max_tokens),
    {
        let ledger = Ledger::starting_at(
            max_creator_accounts,
            max_launch_tokens,
            max_tokens,
            launch_issuance_nonce,
            issuance_nonce,
        );
        assert forall|account: AccountId, creator: Seq<u8>|
            !(#[trigger] ledger.creator_ids_of(account).contains(creator)) by {}
        assert forall|creator: Seq<u8>, id: TokenId|
            !(#[trigger] ledger.launch_token_ids_of(creator).contains(id)) by {}
        assert forall|account: AccountId, id: TokenId|
            !(#[trigger] ledger.token_ids_of(account).contains(id)) by {}
    }
}

} // verus!
