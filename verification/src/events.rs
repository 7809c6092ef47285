//! The records that announce what an operation did. An operation returns its
//! event; appending it to a log is left to the caller.

use vstd::prelude::*;
use crate::identity::Identity;
use crate::state::OperationType;

verus! {

/// A marketplace was set up.
#[derive(Clone, Copy, Debug, PartialEq, Eq)]
pub struct MarketplaceInitialized {
    pub authority: Identity,
    pub platform_fee_bps: u16,
    pub creator_royalty_bps: u16,
    pub bonk_mint: Identity,
}

/// The global pause switch was flipped; `paused` is its new position.
#[derive(Clone, Copy, Debug, PartialEq, Eq)]
pub struct MarketplaceToggled {
    pub authority: Identity,
    pub paused: bool,
}

/// A user was barred from the marketplace.
#[derive(Clone, Copy, Debug, PartialEq, Eq)]
pub struct UserBlacklisted {
    pub user: Identity,
    pub authority: Identity,
    pub timestamp: i64,
}

/// A user was admitted to the marketplace again.
#[derive(Clone, Copy, Debug, PartialEq, Eq)]
pub struct UserUnblacklisted {
    pub user: Identity,
    pub authority: Identity,
    pub timestamp: i64,
}

/// The pause switch of one kind of operation was flipped; `is_paused` is its new position.
#[derive(Clone, Copy, Debug, PartialEq, Eq)]
pub struct OperationToggled {
    pub operation: OperationType,
    pub is_paused: bool,
    pub authority: Identity,
}

/// Both rates were set.
#[derive(Clone, Copy, Debug, PartialEq, Eq, Structural)]
pub struct FeeUpdateEvent {
    pub platform_fee_bps: u16,
    pub creator_royalty_bps: u16,
}

/// A question was created; `question_id` is its index.
#[derive(Clone, Copy, Debug, PartialEq, Eq)]
pub struct QuestionCreated {
    pub question_id: u64,
    pub creator: Identity,
    pub unlock_price: u64,
    pub max_keys: u64,
    pub creation_time: i64,
}

/// A key was sold for the first time, at `price`.
#[derive(Clone, Copy, Debug, PartialEq, Eq)]
pub struct KeyMinted {
    pub key_id: u64,
    pub question_id: u64,
    pub owner: Identity,
    pub mint_time: i64,
    pub price: u64,
}

/// A key was offered for sale.
#[derive(Clone, Copy, Debug, PartialEq, Eq)]
pub struct KeyListed {
    pub key_id: u64,
    pub price: u64,
    pub seller: Identity,
    pub list_time: i64,
}

/// The price of a listed key was replaced.
#[derive(Clone, Copy, Debug, PartialEq, Eq)]
pub struct ListingUpdated {
    pub key_id: u64,
    pub old_price: u64,
    pub new_price: u64,
    pub seller: Identity,
}

/// A listed key was withdrawn from sale.
#[derive(Clone, Copy, Debug, PartialEq, Eq)]
pub struct ListingCancelled {
    pub key_id: u64,
    pub seller: Identity,
}

/// A listed key was resold at `price`.
#[derive(Clone, Copy, Debug, PartialEq, Eq)]
pub struct KeySold {
    pub key_id: u64,
    pub question_id: u64,
    pub seller: Identity,
    pub buyer: Identity,
    pub price: u64,
    pub sold_time: i64,
}

/// The marketplace was handed to a new authority.
#[derive(Clone, Copy, Debug, PartialEq, Eq)]
pub struct AuthorityTransferred {
    pub previous_authority: Identity,
    pub new_authority: Identity,
    pub timestamp: i64,
}

/// A new receiver of the platform's share was named.
#[derive(Clone, Copy, Debug, PartialEq, Eq)]
pub struct TreasuryUpdated {
    pub previous_treasury: Identity,
    pub new_treasury: Identity,
    pub timestamp: i64,
}

} // verus!
