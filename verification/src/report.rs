//! What an action hands back to the host: the event to report and, where
//! funds move, the payment to make; or the reason why nothing happened.

use crate::types::aliases::{AccountId, Balance};
use vstd::prelude::*;

verus! {

/// The event that the host reports for a completed action.
#[derive(Clone, Copy, Debug, PartialEq, Eq, Structural)]
pub enum Event {
    /// New creator account created
    NewCreator,
    /// Creator account dropped
    DroppedCreator,
    /// New token minted
    TokenCreated,
    /// Token acquired for the first time
    TokenInitialCollection,
    /// Token transferred to new owner
    TokenTransferred,
    /// Token listed on market
    TokenListed,
    /// Token unlisted from market
    TokenUnlisted,
    /// Token launch price updated
    TokenLaunchPriceUpdated,
    /// Token price updated
    TokenPriceUpdated,
    /// Token permanently destroyed
    TokenDestroyed,
}

/// Why an action did not happen.
#[derive(Clone, Copy, Debug, PartialEq, Eq, Structural)]
pub enum Error {
    /// Insufficient funds to complete buy operation
    InsufficientFunds,
    /// Signing account is not the owner of this item
    NotOwner,
    /// Creator account already taken
    CreatorAccountTaken,
    /// Token not found
    TokenNotFound,
    /// Token sold out of launch
    TokenSoldOut,
    /// Token not for sale
    TokenNotForSale,
    /// Token creator is unavailable
    TokenUnavailable,
    /// Token not listed
    TokenNotListed,
    /// Token already listed
    TokenAlreadyListed,
    /// Bid price too low to buy token
    BidPriceTooLow,
    /// Cannot set token supply to zero
    ZeroSupply,
    /// Cannot set token price to zero
    ZeroPrice,
    /// Cannot transfer token to self
    TransferToSelf,
    /// Max number of creator accounts reached
    MaxCreatorAccountsReached,
    /// Max number of launch tokens reached
    MaxLaunchTokensReached,
    /// Max number of tokens reached
    MaxTokensReached,
    /// Max launch tokens minted
    LaunchTokensOverflow,
    /// Max tokens minted
    TokensOverflow,
}

/// Funds that the host moves once the ledger has recorded a purchase.
#[derive(Clone, Copy, Debug, PartialEq, Eq, Structural)]
pub struct Payment {
    pub from: AccountId,
    pub to: AccountId,
    pub amount: Balance,
    /// The transfer must leave the payer the balance that keeps its account
    /// alive.
    pub keep_alive: bool,
}

/// What the host does after a completed action.
#[derive(Clone, Copy, Debug, PartialEq, Eq, Structural)]
pub struct Outcome {
    pub event: Event,
    pub payment: Option<Payment>,
}

impl Outcome {
    /// An outcome that moves no funds.
    pub open spec fn of(event: Event) -> Outcome {
        Outcome { event, payment: None }
    }

    /// An outcome of a purchase: `amount` goes from the buyer to the seller,
    /// and the buyer's account stays alive.
    pub open spec fn paid(
        event: Event,
        from: AccountId,
        to: AccountId,
        amount: Balance,
    ) -> Outcome {
        Outcome { event, payment: Some(Payment { from, to, amount, keep_alive: true }) }
    }
}

} // verus!
