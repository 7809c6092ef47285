//! The persisted records: marketplace, user state, question and unlock key.

use vstd::prelude::*;
use crate::fees::{MAX_FEE_BPS, MAX_TOTAL_FEE_BPS};
use crate::identity::Identity;

verus! {

/// The most questions one user may create.
pub const MAX_QUESTIONS_PER_USER: u64 = 100;

/// Seconds that must lie between two creations by the same user.
pub const OPERATION_COOLDOWN: i64 = 60;

/// Seconds by which a new user's last operation is dated back, so that the
/// first action is never throttled.
pub const MIN_OPERATION_COOLDOWN: i64 = 300;

/// The marker stored in every unlock key record.
pub const UNLOCK_KEY_DISCRIMINATOR: u8 = 1;

/// The kinds of operation that have a pause switch of their own.
#[derive(Clone, Copy, Debug, PartialEq, Eq, Structural)]
pub enum OperationType {
    CreateQuestion,
    MintKey,
    ListKey,
    BuyKey,
}

/// One pause switch per kind of operation; `true` means paused.
#[derive(Clone, Copy, Debug, PartialEq, Eq, Structural)]
pub struct PausedOperations {
    pub create_question: bool,
    pub mint_key: bool,
    pub list_key: bool,
    pub buy_key: bool,
}

impl PausedOperations {
    /// The switch of `operation`.
    pub open spec fn paused(self, operation: OperationType) -> bool {
        match operation {
            OperationType::CreateQuestion => self.create_question,
            OperationType::MintKey => self.mint_key,
            OperationType::ListKey => self.list_key,
            OperationType::BuyKey => self.buy_key,
        }
    }

    /// These switches with the one of `operation` flipped.
    pub open spec fn toggled(self, operation: OperationType) -> PausedOperations {
        match operation {
            OperationType::CreateQuestion => PausedOperations {
                create_question: !self.create_question,
                ..self
            },
            OperationType::MintKey => PausedOperations { mint_key: !self.mint_key, ..self },
            OperationType::ListKey => PausedOperations { list_key: !self.list_key, ..self },
            OperationType::BuyKey => PausedOperations { buy_key: !self.buy_key, ..self },
        }
    }

    /// Flips the switch of `operation` and leaves the other three alone.
    pub fn toggle(&mut self, operation: OperationType)
        ensures
            *final(self) == old(self).toggled(operation),
    {
        match operation {
            OperationType::CreateQuestion => { self.create_question = !self.create_question; },
            OperationType::MintKey => { self.mint_key = !self.mint_key; },
            OperationType::ListKey => { self.list_key = !self.list_key; },
            OperationType::BuyKey => { self.buy_key = !self.buy_key; },
        }
    }

    /// Whether `operation` is paused.
    pub fn is_paused(&self, operation: OperationType) -> (paused: bool)
        ensures
            paused == self.paused(operation),
    {
        match operation {
            OperationType::CreateQuestion => self.create_question,
            OperationType::MintKey => self.mint_key,
            OperationType::ListKey => self.list_key,
            OperationType::BuyKey => self.buy_key,
        }
    }
}

impl Default for PausedOperations {
    /// No operation paused.
    fn default() -> (switches: PausedOperations)
        ensures
            switches == (PausedOperations {
                create_question: false,
                mint_key: false,
                list_key: false,
                buy_key: false,
            }),
    {
        PausedOperations { create_question: false, mint_key: false, list_key: false, buy_key: false }
    }
}

/// The configuration and counters of one deployment.
#[derive(Clone, Copy, Debug, PartialEq, Eq)]
pub struct Marketplace {
    /// Who receives the platform's share.
    pub treasury: Identity,
    /// Who may administer the marketplace.
    pub authority: Identity,
    /// The index that the next question will get.
    pub question_counter: u64,
    /// The platform's share of every sale, in basis points.
    pub platform_fee_bps: u16,
    /// The creator's share of every resale, in basis points.
    pub creator_royalty_bps: u16,
    /// The value settled so far, over all questions.
    pub total_volume: u64,
    /// The global pause switch.
    pub paused: bool,
    /// The pause switches of the single kinds of operation.
    pub paused_operations: PausedOperations,
    /// The fungible token in which prices are paid.
    pub bonk_mint: Identity,
}

impl Marketplace {
    /// Both rates are within the per-rate maximum, and so together within
    /// the combined maximum.
    pub open spec fn rates_valid(self) -> bool {
        &&& self.platform_fee_bps <= MAX_FEE_BPS
        &&& self.creator_royalty_bps <= MAX_FEE_BPS
        &&& self.platform_fee_bps + self.creator_royalty_bps <= MAX_TOTAL_FEE_BPS
    }
}

/// What the marketplace remembers of one participant.
#[derive(Clone, Copy, Debug, PartialEq, Eq, Structural)]
pub struct UserState {
    /// How many questions the user has created.
    pub questions_created: u64,
    /// When the user last performed a rate-limited operation.
    pub last_operation_time: i64,
    /// Whether the user is barred from the marketplace.
    pub is_blacklisted: bool,
}

impl UserState {
    /// The user has not created more questions than the quota allows.
    pub open spec fn within_quota(self) -> bool {
        self.questions_created <= MAX_QUESTIONS_PER_USER
    }
}

/// Where the content of a question lives.
#[derive(Clone, Debug, PartialEq, Eq)]
pub enum ContentReference {
    /// The question text and the encrypted answer are stored in the record.
    Inline { text: String, encrypted_answer: Vec<u8> },
    /// The record stores a content identifier and the digest of the content
    /// it points to.
    ExternalPointer { cid: String, hash: [u8; 32] },
}

/// A published question.
#[derive(Clone, Debug, PartialEq, Eq)]
pub struct Question {
    pub creator: Identity,
    pub content_reference: ContentReference,
    /// The digest that guards the paid content: of the encrypted answer for
    /// inline content, of the referenced content for a pointer.
    pub content_hash: [u8; 32],
    pub unlock_price: u64,
    pub max_keys: u64,
    pub current_keys: u64,
    pub index: u64,
    pub creation_time: i64,
    pub total_sales: u64,
    pub is_active: bool,
    pub validation_timestamp: i64,
}

impl Question {
    /// The question has a price, offers at least one key, has issued no more
    /// keys than it offers, and stores for a pointer the digest that the
    /// pointer carries.
    pub open spec fn well_formed(self) -> bool {
        &&& self.unlock_price > 0
        &&& self.max_keys > 0
        &&& self.current_keys <= self.max_keys
        &&& self.content_reference matches ContentReference::ExternalPointer { cid, hash }
            ==> hash == self.content_hash
    }
}

/// A key that unlocks one question for its owner.
#[derive(Clone, Debug, PartialEq, Eq)]
pub struct UnlockKey {
    pub discriminator: u8,
    pub owner: Identity,
    /// The address of the question that the key unlocks.
    pub question: Identity,
    /// The position of the key among the keys of its question, from 0.
    pub token_id: u64,
    /// The key material, encrypted to the current owner.
    pub encrypted_key: Vec<u8>,
    pub is_listed: bool,
    pub list_price: u64,
    pub mint_time: i64,
    pub metadata_uri: String,
    pub last_sold_price: u64,
    pub last_sold_time: i64,
    pub list_time: i64,
}

impl UnlockKey {
    /// A key has a price exactly while it is listed.
    pub open spec fn well_formed(self) -> bool {
        self.is_listed <==> self.list_price > 0
    }
}

/// What the ledger says of one token account.
#[derive(Clone, Copy, Debug, PartialEq, Eq)]
pub struct TokenAccount {
    /// Whose account it is.
    pub owner: Identity,
    /// Which token it holds.
    pub mint: Identity,
    /// How much of it.
    pub amount: u64,
}

} // verus!
