//! Every action as a value, so that what holds of all actions, and of every
//! history of actions, can be said once.

use super::Ledger;
use crate::report::{Error, Outcome};
use crate::types::aliases::{AccountId, Balance};
use crate::types::{LaunchTokenMetadataView, TokenId};
use vstd::prelude::*;

verus! {

/// One action of one account.
pub ghost enum Action {
    CreateAccount { account: AccountId, creator: Seq<u8> },
    DropAccount { account: AccountId, creator: Seq<u8> },
    Mint { account: AccountId, creator: Seq<u8>, price: Balance, metadata: LaunchTokenMetadataView },
    LaunchGift { account: AccountId, creator: Seq<u8>, launch_id: TokenId, receiver: AccountId },
    LaunchBuy { account: AccountId, free_balance: Balance, launch_id: TokenId, bid_price: Balance },
    Buy { account: AccountId, free_balance: Balance, id: TokenId, bid_price: Balance },
    Transfer { account: AccountId, id: TokenId },
    List { account: AccountId, id: TokenId, price: Balance },
    Unlist { account: AccountId, id: TokenId },
    SetLaunchPrice { account: AccountId, creator: Seq<u8>, launch_id: TokenId, price: Balance },
    SetPrice { account: AccountId, id: TokenId, price: Balance },
    Burn { account: AccountId, id: TokenId },
}

impl Ledger {
    /// The ledger after `action`, and what the action hands back.
    pub open spec fn apply(self, action: Action) -> (Ledger, Result<Outcome, Error>) {
        match action {
            Action::CreateAccount { account, creator } => self.create_account(account, creator),
            Action::DropAccount { account, creator } => self.drop_account(account, creator),
            Action::Mint { account, creator, price, metadata } => self.mint(
                account,
                creator,
                price,
                metadata,
            ),
            Action::LaunchGift { account, creator, launch_id, receiver } => self.launch_gift(
                account,
                creator,
                launch_id,
                receiver,
            ),
            Action::LaunchBuy { account, free_balance, launch_id, bid_price } => self.launch_buy(
                account,
                free_balance,
                launch_id,
                bid_price,
            ),
            Action::Buy { account, free_balance, id, bid_price } => self.buy(
                account,
                free_balance,
                id,
                bid_price,
            ),
            Action::Transfer { account, id } => self.transfer(account, id),
            Action::List { account, id, price } => self.list(account, id, price),
            Action::Unlist { account, id } => self.unlist(account, id),
            Action::SetLaunchPrice { account, creator, launch_id, price } => self.set_launch_price(
                account,
                creator,
                launch_id,
                price,
            ),
            Action::SetPrice { account, id, price } => self.set_price(account, id, price),
            Action::Burn { account, id } => self.burn(account, id),
        }
    }

    /// The ledger after a history of actions, failed ones included.
    pub open spec fn run(self, actions: Seq<Action>) -> Ledger
        decreases actions.len(),
    {
        if actions.len() == 0 {
            self
        } else {
            self.run(actions.drop_last()).apply(actions.last()).0
        }
    }
}

} // verus!
