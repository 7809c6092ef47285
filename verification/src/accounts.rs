//! What each operation is handed: the records it reads and changes, and the
//! identities of the parties that take part. Also the storage that each kind
//! of record needs.

use vstd::prelude::*;
use crate::error::ErrorCode;
use crate::identity::Identity;
use crate::state::{Marketplace, Question, TokenAccount, UnlockKey, UserState};

verus! {

/// Storage taken by the marker in front of every record.
pub const MIN_ACCOUNT_SPACE: usize = 8;

/// Storage of a marketplace record.
pub const MARKETPLACE_SPACE: usize = 129;

/// Storage of a user state record.
pub const USER_STATE_SPACE: usize = 25;

/// Storage of a question record without its content reference: the marker,
/// the creator, the kind of reference, the digest, six 8-byte numbers, the
/// activity flag and the validation time.
pub const QUESTION_BASE_SIZE: usize = 130;

/// Storage of the digest that a pointer to content carries.
pub const POINTER_HASH_SIZE: usize = 32;

/// Storage of an unlock key record without its payload and metadata reference.
pub const UNLOCK_KEY_BASE_SIZE: usize = 122;

/// Storage taken by the length in front of a stored text or byte string.
pub const LENGTH_PREFIX_SIZE: usize = 4;

/// What the setting up of a marketplace is handed.
#[derive(Clone, Copy, Debug, PartialEq, Eq)]
pub struct Initialize {
    pub marketplace: Marketplace,
    pub bonk_mint: Identity,
    pub treasury: Identity,
    pub authority: Identity,
}

/// What the setting up of a user's state is handed.
#[derive(Clone, Copy, Debug, PartialEq, Eq)]
pub struct InitializeUserState {
    pub user_state: UserState,
    pub user: Identity,
}

/// What a change of rates is handed; `authority` is the caller.
#[derive(Clone, Copy, Debug, PartialEq, Eq)]
pub struct UpdateFees {
    pub marketplace: Marketplace,
    pub authority: Identity,
}

/// What a change of treasury is handed; `authority` is the caller.
#[derive(Clone, Copy, Debug, PartialEq, Eq)]
pub struct UpdateTreasury {
    pub marketplace: Marketplace,
    pub authority: Identity,
}

/// What a flip of the global pause switch is handed; `authority` is the caller.
#[derive(Clone, Copy, Debug, PartialEq, Eq)]
pub struct ToggleMarketplace {
    pub marketplace: Marketplace,
    pub authority: Identity,
}

/// What a flip of an operation's pause switch is handed; `authority` is the caller.
#[derive(Clone, Copy, Debug, PartialEq, Eq)]
pub struct ToggleOperation {
    pub marketplace: Marketplace,
    pub authority: Identity,
}

/// What blacklisting and unblacklisting are handed: the state of the user in question; `authority` is the caller.
#[derive(Clone, Copy, Debug, PartialEq, Eq)]
pub struct BlacklistUser {
    pub marketplace: Marketplace,
    pub user_state: UserState,
    pub authority: Identity,
}

/// What a handover of the marketplace is handed; `authority` is the caller.
#[derive(Clone, Copy, Debug, PartialEq, Eq)]
pub struct TransferAuthority {
    pub marketplace: Marketplace,
    pub authority: Identity,
    pub new_authority: Identity,
}

/// What the creation of a question is handed: the marketplace and the creator's state.
#[derive(Clone, Copy, Debug, PartialEq, Eq)]
pub struct CreateQuestion {
    pub marketplace: Marketplace,
    pub user_state: UserState,
    pub creator: Identity,
}

/// What a first sale is handed: the question, the buyer and the buyer's state, and the token accounts between which the price is to move.
#[derive(Clone, Debug, PartialEq, Eq)]
pub struct MintUnlockKey {
    pub marketplace: Marketplace,
    pub question: Question,
    /// The address of the question record.
    pub question_key: Identity,
    pub treasury_token_account: TokenAccount,
    pub buyer: Identity,
    pub buyer_token_account: TokenAccount,
    pub creator_token_account: TokenAccount,
    pub bonk_mint: Identity,
    pub user_state: UserState,
}

/// What a listing is handed: the key, and the seller with the seller's state.
#[derive(Clone, Debug, PartialEq, Eq)]
pub struct ListKey {
    pub marketplace: Marketplace,
    pub unlock_key: UnlockKey,
    pub seller: Identity,
    pub user_state: UserState,
}

/// What a repricing is handed: the key and the seller.
#[derive(Clone, Debug, PartialEq, Eq)]
pub struct UpdateListing {
    pub marketplace: Marketplace,
    pub unlock_key: UnlockKey,
    pub seller: Identity,
}

/// What a withdrawal is handed: the key and the seller.
#[derive(Clone, Debug, PartialEq, Eq)]
pub struct CancelListing {
    pub marketplace: Marketplace,
    pub unlock_key: UnlockKey,
    pub seller: Identity,
}

/// What a resale is handed: the key and its question, the buyer and the buyer's state, and the token accounts between which the price is to move.
#[derive(Clone, Debug, PartialEq, Eq)]
pub struct BuyListedKey {
    pub marketplace: Marketplace,
    pub question: Question,
    pub treasury_token_account: TokenAccount,
    pub unlock_key: UnlockKey,
    pub buyer: Identity,
    pub buyer_token_account: TokenAccount,
    pub seller_token_account: TokenAccount,
    pub creator_token_account: TokenAccount,
    pub bonk_mint: Identity,
    pub user_state: UserState,
}

/// Only the marketplace's authority may administer it.
pub open spec fn authority_spec(marketplace: Marketplace, caller: Identity) -> Result<
    (),
    ErrorCode,
> {
    if marketplace.authority == caller {
        Ok(())
    } else {
        Err(ErrorCode::InvalidAuthority)
    }
}

/// Refuses a caller other than the marketplace's authority.
pub fn check_authority(marketplace: &Marketplace, caller: &Identity) -> (verdict: Result<
    (),
    ErrorCode,
>)
    ensures
        verdict == authority_spec(*marketplace, *caller),
{
    if marketplace.authority.same_as(caller) {
        Ok(())
    } else {
        Err(ErrorCode::InvalidAuthority)
    }
}

/// A token account stands for `party` in a settlement when it belongs to
/// `party` and holds the marketplace's fee token. The token is looked at
/// first.
pub open spec fn token_account_spec(account: TokenAccount, party: Identity, fee_token: Identity) -> Result<
    (),
    ErrorCode,
> {
    if account.mint != fee_token {
        Err(ErrorCode::InvalidBonkMint)
    } else if account.owner != party {
        Err(ErrorCode::InvalidOwner)
    } else {
        Ok(())
    }
}

/// Checks that `account` holds the fee token and belongs to `party`.
pub fn check_token_account(account: &TokenAccount, party: &Identity, fee_token: &Identity) -> (verdict:
    Result<(), ErrorCode>)
    ensures
        verdict == token_account_spec(*account, *party, *fee_token),
{
    if !account.mint.same_as(fee_token) {
        Err(ErrorCode::InvalidBonkMint)
    } else if !account.owner.same_as(party) {
        Err(ErrorCode::InvalidOwner)
    } else {
        Ok(())
    }
}

/// The storage of a record that holds two variable-length fields of
/// `first` and `second` bytes on top of `base` bytes: each field is stored
/// behind its length, and nothing is added for growth.
pub open spec fn record_space_spec(base: usize, first: usize, second: usize) -> Result<
    usize,
    ErrorCode,
> {
    let total = base + LENGTH_PREFIX_SIZE + first + LENGTH_PREFIX_SIZE + second;
    if total > usize::MAX {
        Err(ErrorCode::NumericalOverflow)
    } else {
        Ok(total as usize)
    }
}

fn record_space(base: usize, first: usize, second: usize) -> (space: Result<usize, ErrorCode>)
    requires
        base <= 1024,
    ensures
        space == record_space_spec(base, first, second),
{
    let fixed: usize = base + LENGTH_PREFIX_SIZE + LENGTH_PREFIX_SIZE;
    match fixed.checked_add(first) {
        None => Err(ErrorCode::NumericalOverflow),
        Some(partial) => match partial.checked_add(second) {
            None => Err(ErrorCode::NumericalOverflow),
            Some(total) => Ok(total),
        },
    }
}

/// The storage of an unlock key whose payload is `encrypted_key_length` bytes
/// and whose metadata reference is `metadata_uri_length` bytes long. The same
/// formula sizes a key at its creation and resizes it when a resale replaces
/// the payload.
pub fn unlock_key_space(encrypted_key_length: usize, metadata_uri_length: usize) -> (space: Result<
    usize,
    ErrorCode,
>)
    ensures
        space == record_space_spec(UNLOCK_KEY_BASE_SIZE, encrypted_key_length, metadata_uri_length),
{
    record_space(UNLOCK_KEY_BASE_SIZE, encrypted_key_length, metadata_uri_length)
}

/// The storage of a question with inline content: a text of `content_length`
/// bytes and an encrypted answer of `answer_length` bytes.
pub fn inline_question_space(content_length: usize, answer_length: usize) -> (space: Result<
    usize,
    ErrorCode,
>)
    ensures
        space == record_space_spec(QUESTION_BASE_SIZE, content_length, answer_length),
{
    record_space(QUESTION_BASE_SIZE, content_length, answer_length)
}

/// The storage of a question that points to its content by an identifier of
/// `cid_length` bytes and carries the digest of that content.
pub open spec fn pointer_question_space_spec(cid_length: usize) -> Result<usize, ErrorCode> {
    let total = QUESTION_BASE_SIZE + LENGTH_PREFIX_SIZE + cid_length + POINTER_HASH_SIZE;
    if total > usize::MAX {
        Err(ErrorCode::NumericalOverflow)
    } else {
        Ok(total as usize)
    }
}

/// The storage of a question that points to its content by an identifier of
/// `cid_length` bytes.
pub fn pointer_question_space(cid_length: usize) -> (space: Result<usize, ErrorCode>)
    ensures
        space == pointer_question_space_spec(cid_length),
{
    match (QUESTION_BASE_SIZE + LENGTH_PREFIX_SIZE + POINTER_HASH_SIZE).checked_add(cid_length) {
        None => Err(ErrorCode::NumericalOverflow),
        Some(total) => Ok(total),
    }
}

} // verus!
