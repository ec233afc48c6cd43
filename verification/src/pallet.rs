//! The ledger itself: its tables, what they stand for, and how to read them.

use crate::bounded::{bytes_63, clone_bytes_63};
use crate::creator_map::CreatorMap;
use crate::ledger::Ledger;
use crate::report::Error;
use crate::types::aliases::AccountId;
use crate::types::{Creator, CreatorId, LaunchToken, Token, TokenId};
use std::collections::HashMap;
use vstd::prelude::*;

verus! {

broadcast use vstd::std_specs::hash::group_hash_axioms;

/// The bytes of each id in a list of creator ids.
pub open spec fn creator_id_bytes(ids: Seq<CreatorId>) -> Seq<Seq<u8>> {
    ids.map_values(|id: CreatorId| bytes_63(id))
}

/// A copy of a list of token ids.
fn copy_ids(held: &Vec<TokenId>) -> (ids: Vec<TokenId>)
    ensures
        ids@ == held@,
{
    let mut ids: Vec<TokenId> = Vec::new();
    let mut at: usize = 0;
    while at < held.len()
        invariant
            at <= held.len(),
            ids@ == held@.subrange(0, at as int),
        decreases held.len() - at,
    {
        ids.push(held[at]);
        at += 1;
        proof {
            assert(ids@ =~= held@.subrange(0, at as int));
        }
    }
    proof {
        assert(ids@ =~= held@);
    }
    ids
}

/// The ledger.  The three limits are the host's: how many creator accounts
/// an account may own, how many launch tokens a creator may mint, and how
/// many tokens an account may own.
///
/// Launch tokens and tokens are numbered apart, each by a counter of its
/// own, so a launch token and a token may have the same id; they are looked
/// up in different tables.
pub struct Pallet<
    const MAX_CREATOR_ACCOUNTS: u32,
    const MAX_LAUNCH_TOKENS: u32,
    const MAX_TOKENS: u32,
> {
    pub(crate) creators: CreatorMap<Creator>,
    pub(crate) creator_ids_for_account: HashMap<AccountId, Vec<CreatorId>>,
    pub(crate) launch_tokens: HashMap<TokenId, LaunchToken>,
    pub(crate) launch_token_ids_for_creator: CreatorMap<Vec<TokenId>>,
    pub(crate) tokens: HashMap<TokenId, Token>,
    pub(crate) token_ids_for_account: HashMap<AccountId, Vec<TokenId>>,
    pub(crate) launch_issuance_nonce: TokenId,
    pub(crate) issuance_nonce: TokenId,
}

impl<
    const MAX_CREATOR_ACCOUNTS: u32,
    const MAX_LAUNCH_TOKENS: u32,
    const MAX_TOKENS: u32,
> View for Pallet<MAX_CREATOR_ACCOUNTS, MAX_LAUNCH_TOKENS, MAX_TOKENS> {
    type V = Ledger;

    open(crate) spec fn view(&self) -> Ledger {
        Ledger {
            max_creator_accounts: MAX_CREATOR_ACCOUNTS,
            max_launch_tokens: MAX_LAUNCH_TOKENS,
            max_tokens: MAX_TOKENS,
            creators: self.creators@.map_values(|creator: Creator| creator@),
            creator_ids_for_account: self.creator_ids_for_account@.map_values(
                |ids: Vec<CreatorId>| creator_id_bytes(ids@),
            ),
            launch_tokens: self.launch_tokens@.map_values(|launch: LaunchToken| launch@),
            launch_token_ids_for_creator: self.launch_token_ids_for_creator@.map_values(
                |ids: Vec<TokenId>| ids@,
            ),
            tokens: self.tokens@.map_values(|token: Token| token@),
            token_ids_for_account: self.token_ids_for_account@.map_values(|ids: Vec<TokenId>| ids@),
            launch_issuance_nonce: self.launch_issuance_nonce,
            issuance_nonce: self.issuance_nonce,
        }
    }
}

impl<
    const MAX_CREATOR_ACCOUNTS: u32,
    const MAX_LAUNCH_TOKENS: u32,
    const MAX_TOKENS: u32,
> Pallet<MAX_CREATOR_ACCOUNTS, MAX_LAUNCH_TOKENS, MAX_TOKENS> {
    /// The two tables keyed by creator id are in order.
    pub open(crate) spec fn tables_wf(&self) -> bool {
        self.creators.wf() && self.launch_token_ids_for_creator.wf()
    }

    /// The ledger is sound, under the limits that its type states.
    pub open spec fn wf(&self) -> bool {
        &&& self.tables_wf()
        &&& self@.inv()
        &&& self@.max_creator_accounts == MAX_CREATOR_ACCOUNTS
        &&& self@.max_launch_tokens == MAX_LAUNCH_TOKENS
        &&& self@.max_tokens == MAX_TOKENS
    }

    /// A ledger in which nothing has happened yet.
    pub fn new() -> (pallet: Self)
        ensures
            pallet.wf(),
            pallet@ == Ledger::empty(MAX_CREATOR_ACCOUNTS, MAX_LAUNCH_TOKENS, MAX_TOKENS),
    {
        proof {
            Ledger::lemma_starting_at_inv(MAX_CREATOR_ACCOUNTS, MAX_LAUNCH_TOKENS, MAX_TOKENS, 0, 0);
        }
        Self::starting_at(0, 0)
    }

    /// A ledger in which nothing has happened yet, for a host that continues
    /// an earlier numbering: the first launch token gets the id after
    /// `launch_issuance_nonce`, the first token the id after
    /// `issuance_nonce`.
    pub fn starting_at(launch_issuance_nonce: TokenId, issuance_nonce: TokenId) -> (pallet: Self)
        ensures
            pallet.wf(),
            pallet@ == Ledger::starting_at(
                MAX_CREATOR_ACCOUNTS,
                MAX_LAUNCH_TOKENS,
                MAX_TOKENS,
                launch_issuance_nonce,
                issuance_nonce,
            ),
    {
        let pallet = Pallet {
            creators: CreatorMap::new(),
            creator_ids_for_account: HashMap::new(),
            launch_tokens: HashMap::new(),
            launch_token_ids_for_creator: CreatorMap::new(),
            tokens: HashMap::new(),
            token_ids_for_account: HashMap::new(),
            launch_issuance_nonce,
            issuance_nonce,
        };
        proof {
            let empty = Ledger::starting_at(
                MAX_CREATOR_ACCOUNTS,
                MAX_LAUNCH_TOKENS,
                MAX_TOKENS,
                launch_issuance_nonce,
                issuance_nonce,
            );
            assert(pallet@.creators =~= empty.creators);
            assert(pallet@.creator_ids_for_account =~= empty.creator_ids_for_account);
            assert(pallet@.launch_tokens =~= empty.launch_tokens);
            assert(pallet@.launch_token_ids_for_creator =~= empty.launch_token_ids_for_creator);
            assert(pallet@.tokens =~= empty.tokens);
            assert(pallet@.token_ids_for_account =~= empty.token_ids_for_account);
            Ledger::lemma_starting_at_inv(
                MAX_CREATOR_ACCOUNTS,
                MAX_LAUNCH_TOKENS,
                MAX_TOKENS,
                launch_issuance_nonce,
                issuance_nonce,
            );
        }
        pallet
    }

    /// The creator account filed under `creator_id`.
    pub fn creators(&self, creator_id: &CreatorId) -> (found: Option<Creator>)
        requires
            self.wf(),
        ensures
            match found {
                Some(creator) => self@.creators.contains_key(bytes_63(*creator_id))
                    && self@.creators[bytes_63(*creator_id)] == creator@,
                None => !self@.creators.contains_key(bytes_63(*creator_id)),
            },
    {
        match self.creators.get(creator_id) {
            Some(creator) => Some(creator.clone()),
            None => None,
        }
    }

    /// The launch token filed under `launch_token_id`.
    pub fn launch_tokens(&self, launch_token_id: TokenId) -> (found: Option<LaunchToken>)
        ensures
            match found {
                Some(launch) => self@.launch_tokens.contains_key(launch_token_id)
                    && self@.launch_tokens[launch_token_id] == launch@,
                None => !self@.launch_tokens.contains_key(launch_token_id),
            },
    {
        match self.launch_tokens.get(&launch_token_id) {
            Some(launch) => Some(launch.clone()),
            None => None,
        }
    }

    /// The token filed under `token_id`.
    pub fn tokens(&self, token_id: TokenId) -> (found: Option<Token>)
        ensures
            match found {
                Some(token) => self@.tokens.contains_key(token_id) && self@.tokens[token_id]
                    == token@,
                None => !self@.tokens.contains_key(token_id),
            },
    {
        match self.tokens.get(&token_id) {
            Some(token) => Some(token.clone()),
            None => None,
        }
    }

    /// The ids of the creator accounts that `account` owns, in no order.
    pub fn creator_ids_for_account(&self, account: &AccountId) -> (ids: Vec<CreatorId>)
        ensures
            creator_id_bytes(ids@) == self@.creator_ids_of(*account),
    {
        let mut ids: Vec<CreatorId> = Vec::new();
        match self.creator_ids_for_account.get(account) {
            Some(held) => {
                let mut at: usize = 0;
                while at < held.len()
                    invariant
                        at <= held.len(),
                        ids@.len() == at,
                        forall|i: int| 0 <= i < at ==> bytes_63(ids@[i]) == bytes_63(held@[i]),
                    decreases held.len() - at,
                {
                    ids.push(clone_bytes_63(&held[at]));
                    at += 1;
                }
                proof {
                    assert(creator_id_bytes(ids@) =~= creator_id_bytes(held@));
                }
            },
            None => {
                proof {
                    assert(creator_id_bytes(ids@) =~= Seq::empty());
                }
            },
        }
        ids
    }

    /// The ids of the launch tokens that `creator_id` minted, in no order.
    pub fn launch_token_ids_for_creator(&self, creator_id: &CreatorId) -> (ids: Vec<TokenId>)
        requires
            self.wf(),
        ensures
            ids@ == self@.launch_token_ids_of(bytes_63(*creator_id)),
    {
        match self.launch_token_ids_for_creator.get(creator_id) {
            Some(held) => copy_ids(held),
            None => Vec::new(),
        }
    }

    /// The ids of the tokens that `account` owns, in no order.
    pub fn token_ids_for_account(&self, account: &AccountId) -> (ids: Vec<TokenId>)
        ensures
            ids@ == self@.token_ids_of(*account),
    {
        match self.token_ids_for_account.get(account) {
            Some(held) => copy_ids(held),
            None => Vec::new(),
        }
    }

    /// The id for the next launch token.  Fails with `LaunchTokensOverflow`
    /// where the last id there is was handed out.  The counter stays: it
    /// moves when the launch token is recorded.
    pub fn next_launch_token_id(&self) -> (next: Result<TokenId, Error>)
        ensures
            next == self@.next_launch_token_id(),
    {
        match self.launch_issuance_nonce.checked_add(1) {
            Some(id) => Ok(id),
            None => Err(Error::LaunchTokensOverflow),
        }
    }

    /// The id for the next token.  Fails with `TokensOverflow` where the
    /// last id there is was handed out.  The counter stays: it moves when
    /// the token is recorded.
    pub fn next_token_id(&self) -> (next: Result<TokenId, Error>)
        ensures
            next == self@.next_token_id(),
    {
        match self.issuance_nonce.checked_add(1) {
            Some(id) => Ok(id),
            None => Err(Error::TokensOverflow),
        }
    }

    /// The id of the launch token minted last; 0 before the first.
    pub fn launch_issuance_nonce(&self) -> (nonce: TokenId)
        ensures
            nonce == self@.launch_issuance_nonce,
    {
        self.launch_issuance_nonce
    }

    /// The id of the token issued last; 0 before the first.
    pub fn issuance_nonce(&self) -> (nonce: TokenId)
        ensures
            nonce == self@.issuance_nonce,
    {
        self.issuance_nonce
    }
}

} // verus!
