//! What holds of the ledger whatever the accounts do.

use crate::ledger::action::Action;
use crate::ledger::Ledger;
use crate::report::Error;
use crate::types::aliases::{AccountId, Balance};
use crate::types::{LaunchTokenMetadataView, TokenId};
use vstd::prelude::*;

verus! {

/// An action that fails leaves the ledger as it was: no index entry, no
/// record and no counter tells of it.
pub proof fn law_failure_changes_nothing(ledger: Ledger, action: Action)
    ensures
        ledger.apply(action).1 is Err ==> ledger.apply(action).0 == ledger,
{
}

/// A step of the registry, the store or the token ledger that fails leaves
/// the ledger as it was.
pub proof fn law_failed_step_changes_nothing(
    ledger: Ledger,
    account: AccountId,
    receiver: AccountId,
    creator: Seq<u8>,
    id: TokenId,
    price: Balance,
    listing: Option<Balance>,
    metadata: LaunchTokenMetadataView,
)
    ensures
        ledger.add_new_creator_to_account(creator, account).1 is Err
            ==> ledger.add_new_creator_to_account(creator, account).0 == ledger,
        ledger.remove_creator_from_account(creator, account).1 is Err
            ==> ledger.remove_creator_from_account(creator, account).0 == ledger,
        ledger.unchecked_mint(creator, price, metadata).1 is Err ==> ledger.unchecked_mint(
            creator,
            price,
            metadata,
        ).0 == ledger,
        ledger.unchecked_launch_transfer(receiver, id).1 is Err
            ==> ledger.unchecked_launch_transfer(receiver, id).0 == ledger,
        ledger.unchecked_transfer(account, receiver, id).1 is Err ==> ledger.unchecked_transfer(
            account,
            receiver,
            id,
        ).0 == ledger,
        ledger.unchecked_set_launch_price(id, price).1 is Err
            ==> ledger.unchecked_set_launch_price(id, price).0 == ledger,
        ledger.unchecked_set_price(id, listing).1 is Err ==> ledger.unchecked_set_price(
            id,
            listing,
        ).0 == ledger,
        ledger.unchecked_burn(id).1 is Err ==> ledger.unchecked_burn(id).0 == ledger,
{
}

/// A sound ledger is sound after any action, and where every launch token
/// had its creator before, it has it after.
pub proof fn law_action_keeps_ledger_sound(ledger: Ledger, action: Action)
    requires
        ledger.inv(),
    ensures
        ledger.apply(action).0.inv(),
        ledger.creators_resolve() ==> ledger.apply(action).0.creators_resolve(),
{
    match action {
        Action::CreateAccount { account, creator } => {
            ledger.lemma_add_new_creator_to_account(creator, account);
        },
        Action::DropAccount { account, creator } => {
            ledger.lemma_remove_creator_from_account(creator, account);
        },
        Action::Mint { account, creator, price, metadata } => {
            ledger.lemma_unchecked_mint(creator, price, metadata);
        },
        Action::LaunchGift { account, creator, launch_id, receiver } => {
            ledger.lemma_unchecked_launch_transfer(receiver, launch_id);
        },
        Action::LaunchBuy { account, free_balance, launch_id, bid_price } => {
            ledger.lemma_unchecked_launch_transfer(account, launch_id);
        },
        Action::Buy { account, free_balance, id, bid_price } => {
            if ledger.tokens.contains_key(id) {
                ledger.lemma_unchecked_transfer(ledger.tokens[id].owner, account, id);
            }
        },
        Action::Transfer { account, id } => {
            if ledger.account_owns_token(account, id) {
                ledger.lemma_unchecked_transfer(account, account, id);
            }
        },
        Action::List { account, id, price } => {
            ledger.lemma_unchecked_set_price(id, Some(price));
        },
        Action::Unlist { account, id } => {
            ledger.lemma_unchecked_set_price(id, None);
        },
        Action::SetLaunchPrice { account, creator, launch_id, price } => {
            ledger.lemma_unchecked_set_launch_price(launch_id, price);
        },
        Action::SetPrice { account, id, price } => {
            ledger.lemma_unchecked_set_price(id, Some(price));
        },
        Action::Burn { account, id } => {
            ledger.lemma_unchecked_burn(id);
        },
    }
}

/// A sound ledger is sound after any history of actions.
pub proof fn law_history_keeps_ledger_sound(ledger: Ledger, actions: Seq<Action>)
    requires
        ledger.inv(),
    ensures
        ledger.run(actions).inv(),
        ledger.creators_resolve() ==> ledger.run(actions).creators_resolve(),
    decreases actions.len(),
{
    if actions.len() > 0 {
        law_history_keeps_ledger_sound(ledger, actions.drop_last());
        law_action_keeps_ledger_sound(ledger.run(actions.drop_last()), actions.last());
    }
}

/// At every point of every history that starts with the empty ledger, no
/// launch token has issued more tokens than its supply and its destroyed
/// tokens together, and its creator exists.
pub proof fn law_supply_invariant(
    max_creator_accounts: u32,
    max_launch_tokens: u32,
    max_tokens: u32,
    actions: Seq<Action>,
    launch_id: TokenId,
)
    ensures
        ({
            let ledger = Ledger::empty(max_creator_accounts, max_launch_tokens, max_tokens).run(
                actions,
            );
            ledger.launch_tokens.contains_key(launch_id) ==> {
                let launch = ledger.launch_tokens[launch_id];
                &&& launch.issued <= launch.supply + launch.destroyed
                &&& launch.issued <= launch.total_supply()
                &&& launch.total_supply() == launch.supply + launch.destroyed
                &&& ledger.creators.contains_key(launch.creator)
            }
        }),
{
    let empty = Ledger::empty(max_creator_accounts, max_launch_tokens, max_tokens);
    Ledger::lemma_starting_at_inv(max_creator_accounts, max_launch_tokens, max_tokens, 0, 0);
    law_history_keeps_ledger_sound(empty, actions);
}


/// No action takes a counter back.
pub proof fn law_counters_never_decrease(ledger: Ledger, action: Action)
    ensures
        ledger.apply(action).0.launch_issuance_nonce >= ledger.launch_issuance_nonce,
        ledger.apply(action).0.issuance_nonce >= ledger.issuance_nonce,
{
}

/// No history of actions takes a counter back.
pub proof fn law_history_counters_never_decrease(ledger: Ledger, actions: Seq<Action>)
    ensures
        ledger.run(actions).launch_issuance_nonce >= ledger.launch_issuance_nonce,
        ledger.run(actions).issuance_nonce >= ledger.issuance_nonce,
    decreases actions.len(),
{
    if actions.len() > 0 {
        law_history_counters_never_decrease(ledger, actions.drop_last());
        law_counters_never_decrease(ledger.run(actions.drop_last()), actions.last());
    }
}

/// A mint that succeeds returns the id after the counter, an id under which
/// the ledger holds no launch token, and moves the counter to it; a mint
/// that fails leaves the counter.  So of two mints that succeed, whatever
/// actions succeeded or failed between them, the later returns the greater
/// id.
pub proof fn law_minted_ids_increase(
    ledger: Ledger,
    creator: Seq<u8>,
    price: Balance,
    metadata: LaunchTokenMetadataView,
    between: Seq<Action>,
    later_creator: Seq<u8>,
    later_price: Balance,
    later_metadata: LaunchTokenMetadataView,
)
    requires
        ledger.inv(),
    ensures
        ({
            let (minted, first) = ledger.unchecked_mint(creator, price, metadata);
            let (_, second) = minted.run(between).unchecked_mint(
                later_creator,
                later_price,
                later_metadata,
            );
            &&& first is Ok ==> {
                &&& first->Ok_0 == ledger.launch_issuance_nonce + 1
                &&& minted.launch_issuance_nonce == first->Ok_0
                &&& !ledger.launch_tokens.contains_key(first->Ok_0)
                &&& minted.launch_tokens.contains_key(first->Ok_0)
            }
            &&& first is Err ==> minted.launch_issuance_nonce == ledger.launch_issuance_nonce
            &&& first is Ok && second is Ok ==> first->Ok_0 < second->Ok_0
        }),
{
    let (minted, first) = ledger.unchecked_mint(creator, price, metadata);
    law_history_counters_never_decrease(minted, between);
}

/// For an account that owns as many creator accounts as it may, creating
/// one more under an id that is free fails with `MaxCreatorAccountsReached`
/// and changes nothing.
pub proof fn law_creator_capacity_enforced(ledger: Ledger, account: AccountId, creator: Seq<u8>)
    requires
        ledger.creator_ids_of(account).len() >= ledger.max_creator_accounts,
        !ledger.creators.contains_key(creator),
    ensures
        ledger.add_new_creator_to_account(creator, account) == (
            ledger,
            Err::<(), Error>(Error::MaxCreatorAccountsReached),
        ),
        ledger.create_account(account, creator).0 == ledger,
        ledger.create_account(account, creator).1 == Err::<crate::report::Outcome, Error>(
            Error::MaxCreatorAccountsReached,
        ),
{
}

/// The ledger after issuing from `launch_id` to each of `receivers` in turn,
/// and how many of the issues succeeded.
pub open spec fn issue_each(
    ledger: Ledger,
    launch_id: TokenId,
    receivers: Seq<AccountId>,
) -> (Ledger, nat)
    decreases receivers.len(),
{
    if receivers.len() == 0 {
        (ledger, 0)
    } else {
        let (before, issues) = issue_each(ledger, launch_id, receivers.drop_last());
        let (after, issued) = before.unchecked_launch_transfer(receivers.last(), launch_id);
        (
            after,
            if issued is Ok {
                issues + 1
            } else {
                issues
            },
        )
    }
}

/// Issuance is counted: after any number of attempts to issue from a launch
/// token, its `issued` has grown by the number of attempts that succeeded,
/// and nothing else of it has changed.  From a fresh launch token, `issued`
/// is that number.
pub proof fn law_issued_counts_issues(ledger: Ledger, launch_id: TokenId, receivers: Seq<AccountId>)
    requires
        ledger.inv(),
        ledger.launch_tokens.contains_key(launch_id),
    ensures
        ({
            let (after, issues) = issue_each(ledger, launch_id, receivers);
            &&& after.inv()
            &&& after.launch_tokens.contains_key(launch_id)
            &&& after.launch_tokens[launch_id].issued == ledger.launch_tokens[launch_id].issued
                + issues
            &&& after.launch_tokens[launch_id].supply == ledger.launch_tokens[launch_id].supply
            &&& after.launch_tokens[launch_id].destroyed
                == ledger.launch_tokens[launch_id].destroyed
        }),
    decreases receivers.len(),
{
    if receivers.len() > 0 {
        law_issued_counts_issues(ledger, launch_id, receivers.drop_last());
        let (before, _) = issue_each(ledger, launch_id, receivers.drop_last());
        before.lemma_unchecked_launch_transfer(receivers.last(), launch_id);
    }
}

/// Destroying a token takes one from the supply of its launch token and
/// adds one to its destroyed tokens, so that the total supply stays and no
/// issue is won back.
pub proof fn law_burn_shrinks_supply(ledger: Ledger, id: TokenId)
    requires
        ledger.inv(),
        ledger.tokens.contains_key(id),
    ensures
        ({
            let launch_id = ledger.tokens[id].launch_id;
            let before = ledger.launch_tokens[launch_id];
            let (burnt, result) = ledger.unchecked_burn(id);
            let after = burnt.launch_tokens[launch_id];
            &&& result is Ok
            &&& !burnt.tokens.contains_key(id)
            &&& ledger.launch_tokens.contains_key(launch_id)
            &&& burnt.launch_tokens.contains_key(launch_id)
            &&& after.supply == before.supply - 1
            &&& after.destroyed == before.destroyed + 1
            &&& after.issued == before.issued
            &&& after.total_supply() == before.total_supply()
        }),
{
    ledger.lemma_live_token_counts(id);
}

/// A launch token that has issued its total supply is sold out: while an
/// id is left, every attempt to issue from it fails with `TokenSoldOut` and
/// changes nothing.
pub proof fn law_sold_out(ledger: Ledger, receiver: AccountId, launch_id: TokenId)
    requires
        ledger.launch_tokens.contains_key(launch_id),
        ledger.launch_tokens[launch_id].issued == ledger.launch_tokens[launch_id].total_supply(),
        ledger.next_token_id() is Ok,
    ensures
        ledger.unchecked_launch_transfer(receiver, launch_id) == (
            ledger,
            Err::<TokenId, Error>(Error::TokenSoldOut),
        ),
{
}

/// A mint that finds the creator's index of launch tokens full fails with
/// `MaxLaunchTokensReached`, leaves the counter where it was and files no
/// launch token under the id that it would have used.
pub proof fn law_refused_mint_leaves_no_trace(
    ledger: Ledger,
    creator: Seq<u8>,
    price: Balance,
    metadata: LaunchTokenMetadataView,
)
    requires
        ledger.inv(),
        ledger.next_launch_token_id() is Ok,
        ledger.launch_token_ids_of(creator).len() >= ledger.max_launch_tokens,
    ensures
        ({
            let (after, result) = ledger.unchecked_mint(creator, price, metadata);
            &&& result == Err::<TokenId, Error>(Error::MaxLaunchTokensReached)
            &&& after == ledger
            &&& after.launch_issuance_nonce == ledger.launch_issuance_nonce
            &&& !after.launch_tokens.contains_key(ledger.next_launch_token_id()->Ok_0)
        }),
{
}

/// A token that was listed has the price it was listed for and cannot be
/// listed again; one that was unlisted has no price.
pub proof fn law_listing_round_trip(
    ledger: Ledger,
    account: AccountId,
    id: TokenId,
    price: Balance,
    again: Balance,
)
    ensures
        ({
            let (listed, result) = ledger.list(account, id, price);
            result is Ok ==> {
                &&& listed.token_price(id) == Some(price)
                &&& listed.list(account, id, again) == (
                    listed,
                    Err::<crate::report::Outcome, Error>(Error::TokenAlreadyListed),
                )
                &&& listed.unlist(account, id).1 is Ok
                &&& listed.unlist(account, id).0.token_price(id) == None::<Balance>
            }
        }),
        ({
            let (unlisted, result) = ledger.unlist(account, id);
            result is Ok ==> unlisted.token_price(id) == None::<Balance>
        }),
{
}


/// A launch token is never deleted and never described anew: whatever an
/// account does, the launch token stays under its id with its creator, name,
/// mime type, metadata URI and total supply, and neither its issued nor its
/// destroyed tokens become fewer.
pub proof fn law_launch_tokens_persist(ledger: Ledger, action: Action, launch_id: TokenId)
    requires
        ledger.inv(),
        ledger.launch_tokens.contains_key(launch_id),
    ensures
        ({
            let before = ledger.launch_tokens[launch_id];
            let after = ledger.apply(action).0.launch_tokens[launch_id];
            &&& ledger.apply(action).0.launch_tokens.contains_key(launch_id)
            &&& after.id == before.id
            &&& after.creator == before.creator
            &&& after.name == before.name
            &&& after.mime_type == before.mime_type
            &&& after.metadata_uri == before.metadata_uri
            &&& after.total_supply() == before.total_supply()
            &&& after.issued >= before.issued
            &&& after.destroyed >= before.destroyed
            &&& after.supply <= before.supply
        }),
{
    match action {
        Action::Burn { account, id } => {
            if ledger.tokens.contains_key(id) {
                ledger.lemma_live_token_counts(id);
            }
        },
        _ => {},
    }
}

/// Destruction is final: the id of a token that is gone is never given to
/// another token.
pub proof fn law_token_ids_are_not_reused(ledger: Ledger, action: Action, id: TokenId)
    requires
        id <= ledger.issuance_nonce,
        !ledger.tokens.contains_key(id),
    ensures
        !ledger.apply(action).0.tokens.contains_key(id),
        id <= ledger.apply(action).0.issuance_nonce,
{
}

/// A token keeps what it was issued with: whatever an account does, a token
/// that is still there has its launch token, creator, name, mime type and
/// metadata URI.
pub proof fn law_tokens_keep_their_launch(ledger: Ledger, action: Action, id: TokenId)
    requires
        ledger.inv(),
        ledger.tokens.contains_key(id),
        ledger.apply(action).0.tokens.contains_key(id),
    ensures
        ({
            let before = ledger.tokens[id];
            let after = ledger.apply(action).0.tokens[id];
            &&& after.id == before.id
            &&& after.launch_id == before.launch_id
            &&& after.creator == before.creator
            &&& after.name == before.name
            &&& after.mime_type == before.mime_type
            &&& after.metadata_uri == before.metadata_uri
        }),
{
    lemma_fresh_ids_overwrite_nothing(ledger, action, id);
}

/// While no token has an id beyond the counter, no action files a token
/// under the id of another.
proof fn lemma_fresh_ids_overwrite_nothing(ledger: Ledger, action: Action, id: TokenId)
    requires
        ledger.ids_within_nonces(),
        ledger.tokens.contains_key(id),
        ledger.apply(action).0.tokens.contains_key(id),
    ensures
        ({
            let before = ledger.tokens[id];
            let after = ledger.apply(action).0.tokens[id];
            &&& after.id == before.id
            &&& after.launch_id == before.launch_id
            &&& after.creator == before.creator
            &&& after.name == before.name
            &&& after.mime_type == before.mime_type
            &&& after.metadata_uri == before.metadata_uri
        }),
{
    assert(id <= ledger.issuance_nonce);
    match action {
        Action::LaunchGift { account, creator, launch_id, receiver } => {
            let (after, issued) = ledger.unchecked_launch_transfer(receiver, launch_id);
            assert(issued is Ok ==> issued->Ok_0 != id);
        },
        Action::LaunchBuy { account, free_balance, launch_id, bid_price } => {
            let (after, issued) = ledger.unchecked_launch_transfer(account, launch_id);
            assert(issued is Ok ==> issued->Ok_0 != id);
        },
        _ => {},
    }
}


/// A transfer of a token to the account that owns it changes nothing,
/// whether it succeeds or fails.
pub proof fn law_transfer_to_owner_changes_nothing(ledger: Ledger, account: AccountId, id: TokenId)
    requires
        ledger.inv(),
    ensures
        ledger.transfer(account, id).0 == ledger,
{
    if ledger.account_owns_token(account, id) {
        ledger.lemma_unchecked_transfer(account, account, id);
    }
}

/// A purchase hands the token to the buyer and the bid to the seller: after
/// a purchase that succeeded, the buyer owns the token, and the payment
/// goes from the buyer to the account that owned it.
pub proof fn law_purchase_changes_hands(
    ledger: Ledger,
    account: AccountId,
    free_balance: Balance,
    id: TokenId,
    bid_price: Balance,
)
    requires
        ledger.inv(),
    ensures
        ({
            let (bought, result) = ledger.buy(account, free_balance, id, bid_price);
            result is Ok ==> {
                &&& ledger.tokens.contains_key(id)
                &&& ledger.token_price(id) is Some
                &&& ledger.token_price(id)->Some_0 <= bid_price <= free_balance
                &&& bought.token_owner(id) == Some(account)
                &&& bought.token_ids_of(account).contains(id)
                &&& result->Ok_0 == crate::report::Outcome::paid(
                    crate::report::Event::TokenTransferred,
                    account,
                    ledger.tokens[id].owner,
                    bid_price,
                )
            }
        }),
{
    let (bought, result) = ledger.buy(account, free_balance, id, bid_price);
    if result is Ok {
        ledger.lemma_unchecked_transfer(ledger.tokens[id].owner, account, id);
        assert(bought.account_owns_token(account, id));
    }
}

} // verus!
