//! What holds across operations: of the ids of keys, of the life of a
//! listing, of the blacklist and of the counters.

use vstd::prelude::*;
use crate::accounts::{
    BlacklistUser, BuyListedKey, CancelListing, CreateQuestion, ListKey, MintUnlockKey,
    UpdateFees, UpdateListing,
};
use crate::admin::{initial_user_state, set_blacklisted_spec, update_fees_spec};
use crate::content::ContentSubmission;
use crate::error::ErrorCode;
use crate::fees::MAX_FEE_BPS;
use crate::admission::admission_spec;
use crate::listing::{
    cancel_listing_effect, cancel_listing_refusal, list_key_effect, list_key_refusal,
    update_listing_effect, update_listing_refusal,
};
use crate::question::create_question_refusal;
use crate::settlement::{buy_effect, buy_refusal, mint_effect, mint_refusal, minted_key};
use crate::state::{
    Marketplace, OperationType, Question, UserState, MAX_QUESTIONS_PER_USER, OPERATION_COOLDOWN,
};

verus! {

/// The ids that the keys of a question have been given so far: the numbers
/// below the count of its keys.
pub open spec fn issued_ids(question: Question) -> Set<u64> {
    Set::new(|id: u64| id < question.current_keys)
}

/// A first sale gives the new key an id that no key of the question has, and
/// afterwards the issued ids are the old ones and the new one: the count of
/// keys has grown by exactly one and stays within the question's maximum.
pub proof fn lemma_mint_issues_fresh_id(
    ctx: MintUnlockKey,
    metadata_uri: String,
    encrypted_key: Vec<u8>,
    now: i64,
)
    requires
        mint_refusal(ctx, metadata_uri@, encrypted_key@, now) is None,
    ensures
        minted_key(ctx, metadata_uri, encrypted_key, now).token_id == ctx.question.current_keys,
        !issued_ids(ctx.question).contains(
            minted_key(ctx, metadata_uri, encrypted_key, now).token_id,
        ),
        mint_effect(ctx, now).question.current_keys == ctx.question.current_keys + 1,
        mint_effect(ctx, now).question.current_keys <= ctx.question.max_keys,
        issued_ids(mint_effect(ctx, now).question) == issued_ids(ctx.question).insert(
            minted_key(ctx, metadata_uri, encrypted_key, now).token_id,
        ),
{
    assert(issued_ids(mint_effect(ctx, now).question) =~= issued_ids(ctx.question).insert(
        ctx.question.current_keys,
    ));
}

/// No two keys of one question share an id: a key minted when the question
/// has at least as many keys as an earlier first sale left it with has a
/// greater id than the key of that sale.
pub proof fn lemma_mints_never_share_id(
    earlier: MintUnlockKey,
    earlier_uri: String,
    earlier_key: Vec<u8>,
    earlier_time: i64,
    later: MintUnlockKey,
    later_uri: String,
    later_key: Vec<u8>,
    later_time: i64,
)
    requires
        mint_refusal(earlier, earlier_uri@, earlier_key@, earlier_time) is None,
        mint_refusal(later, later_uri@, later_key@, later_time) is None,
        later.question.current_keys >= mint_effect(earlier, earlier_time).question.current_keys,
    ensures
        minted_key(earlier, earlier_uri, earlier_key, earlier_time).token_id < minted_key(
            later,
            later_uri,
            later_key,
            later_time,
        ).token_id,
{
}

/// A resale changes neither the count of a question's keys nor the id of the
/// key that is sold.
pub proof fn lemma_resale_keeps_ids(ctx: BuyListedKey, new_encrypted_key: Vec<u8>, now: i64)
    ensures
        buy_effect(ctx, new_encrypted_key, now).question.current_keys
            == ctx.question.current_keys,
        buy_effect(ctx, new_encrypted_key, now).unlock_key.token_id == ctx.unlock_key.token_id,
        buy_effect(ctx, new_encrypted_key, now).unlock_key.question == ctx.unlock_key.question,
{
}

/// The sales of a question and the volume of the marketplace only grow, by
/// the price of what was sold.
pub proof fn lemma_sales_only_grow(
    mint: MintUnlockKey,
    metadata_uri: Seq<char>,
    encrypted_key: Seq<u8>,
    sale: BuyListedKey,
    new_encrypted_key: Vec<u8>,
    now: i64,
)
    ensures
        mint_refusal(mint, metadata_uri, encrypted_key, now) is None ==> {
            &&& mint_effect(mint, now).question.total_sales == mint.question.total_sales
                + mint.question.unlock_price
            &&& mint_effect(mint, now).marketplace.total_volume == mint.marketplace.total_volume
                + mint.question.unlock_price
        },
        buy_refusal(sale, new_encrypted_key@, now) is None ==> {
            &&& buy_effect(sale, new_encrypted_key, now).question.total_sales
                == sale.question.total_sales + sale.unlock_key.list_price
            &&& buy_effect(sale, new_encrypted_key, now).marketplace.total_volume
                == sale.marketplace.total_volume + sale.unlock_key.list_price
        },
{
}

/// Listing a key twice in a row: where the first listing goes through, a
/// second one at any price above zero is refused as already listed, whenever
/// it is made. As a refused operation changes nothing, the key stays listed
/// at the first price.
pub proof fn lemma_second_listing_refused(
    ctx: ListKey,
    first_price: u64,
    first_time: i64,
    second_price: u64,
    second_time: i64,
)
    requires
        list_key_refusal(ctx, first_price, first_time) is None,
        second_price > 0,
    ensures
        list_key_refusal(
            list_key_effect(ctx, first_price, first_time),
            second_price,
            second_time,
        ) == Some(ErrorCode::AlreadyListed),
        list_key_effect(ctx, first_price, first_time).unlock_key.is_listed,
        list_key_effect(ctx, first_price, first_time).unlock_key.list_price == first_price,
{
}

/// The records that a seller hands to the withdrawal of the listing that
/// `listed` holds.
pub open spec fn as_cancel(listed: ListKey) -> CancelListing {
    CancelListing {
        marketplace: listed.marketplace,
        unlock_key: listed.unlock_key,
        seller: listed.seller,
    }
}

/// Mint, list, cancel, list again: a key that was just minted can be listed
/// by its buyer at `first_price`, withdrawn, and listed again at
/// `second_price`, as long as listing is not paused; in the end the key is
/// listed at `second_price`, whatever `first_price` was.
pub proof fn lemma_relisting_after_cancel(
    mint: MintUnlockKey,
    metadata_uri: String,
    encrypted_key: Vec<u8>,
    mint_time: i64,
    first_price: u64,
    first_time: i64,
    second_price: u64,
    second_time: i64,
)
    requires
        mint_refusal(mint, metadata_uri@, encrypted_key@, mint_time) is None,
        !mint.marketplace.paused_operations.list_key,
        first_price > 0,
        second_price > 0,
    ensures
        ({
            let minted = mint_effect(mint, mint_time);
            let to_list = ListKey {
                marketplace: minted.marketplace,
                unlock_key: minted_key(mint, metadata_uri, encrypted_key, mint_time),
                seller: mint.buyer,
                user_state: minted.user_state,
            };
            let listed = list_key_effect(to_list, first_price, first_time);
            let cancelled = cancel_listing_effect(as_cancel(listed));
            let to_relist = ListKey { unlock_key: cancelled.unlock_key, ..to_list };
            let relisted = list_key_effect(to_relist, second_price, second_time);
            &&& list_key_refusal(to_list, first_price, first_time) is None
            &&& cancel_listing_refusal(as_cancel(listed)) is None
            &&& !cancelled.unlock_key.is_listed
            &&& cancelled.unlock_key.list_price == 0
            &&& list_key_refusal(to_relist, second_price, second_time) is None
            &&& relisted.unlock_key.is_listed
            &&& relisted.unlock_key.list_price == second_price
            &&& relisted.unlock_key.owner == mint.buyer
        }),
{
}

/// Listing, repricing and withdrawing never change the owner of a key, its
/// id, its question or its payload: only a resale changes an owner.
pub proof fn lemma_listing_keeps_owner(
    list: ListKey,
    update: UpdateListing,
    cancel: CancelListing,
    price: u64,
    now: i64,
)
    ensures
        list_key_effect(list, price, now).unlock_key.owner == list.unlock_key.owner,
        list_key_effect(list, price, now).unlock_key.token_id == list.unlock_key.token_id,
        list_key_effect(list, price, now).unlock_key.encrypted_key == list.unlock_key.encrypted_key,
        update_listing_effect(update, price).unlock_key.owner == update.unlock_key.owner,
        update_listing_effect(update, price).unlock_key.token_id == update.unlock_key.token_id,
        update_listing_effect(update, price).unlock_key.is_listed == update.unlock_key.is_listed,
        cancel_listing_effect(cancel).unlock_key.owner == cancel.unlock_key.owner,
        cancel_listing_effect(cancel).unlock_key.token_id == cancel.unlock_key.token_id,
{
}

/// A listed key can be bought by anyone but its owner, and a key that was
/// bought is unlisted and owned by the buyer: withdrawing or repricing it is
/// refused until the buyer lists it again.
pub proof fn lemma_resale_unlists(ctx: BuyListedKey, new_encrypted_key: Vec<u8>, now: i64)
    requires
        buy_refusal(ctx, new_encrypted_key@, now) is None,
    ensures
        ctx.unlock_key.is_listed,
        ctx.unlock_key.owner != ctx.buyer,
        buy_effect(ctx, new_encrypted_key, now).unlock_key.owner == ctx.buyer,
        !buy_effect(ctx, new_encrypted_key, now).unlock_key.is_listed,
        buy_effect(ctx, new_encrypted_key, now).unlock_key.list_price == 0,
        buy_effect(ctx, new_encrypted_key, now).unlock_key.encrypted_key == new_encrypted_key,
{
}

/// Blacklisting: once the authority has blacklisted a user, every creation
/// that the user attempts while neither the marketplace nor creation is
/// paused is refused as blacklisted, whatever the user's quota and however
/// long ago the user last acted. Taking the user off the blacklist gives
/// back the state that the user had, so that admission is decided as it was
/// before.
pub proof fn lemma_blacklist_blocks_creation(
    ctx: BlacklistUser,
    attempt: CreateQuestion,
    submission: ContentSubmission,
    unlock_price: u64,
    max_keys: u64,
    now: i64,
)
    requires
        set_blacklisted_spec(ctx, true) is Ok,
        attempt.user_state == set_blacklisted_spec(ctx, true)->Ok_0.user_state,
        !attempt.marketplace.paused,
        !attempt.marketplace.paused_operations.create_question,
    ensures
        create_question_refusal(attempt, submission, unlock_price, max_keys, now) == Some(
            ErrorCode::UserBlacklisted,
        ),
        set_blacklisted_spec(set_blacklisted_spec(ctx, true)->Ok_0, false) is Ok,
        set_blacklisted_spec(set_blacklisted_spec(ctx, true)->Ok_0, false)->Ok_0.user_state == (
        UserState { is_blacklisted: false, ..ctx.user_state }),
        !ctx.user_state.is_blacklisted ==> set_blacklisted_spec(
            set_blacklisted_spec(ctx, true)->Ok_0,
            false,
        )->Ok_0 == ctx,
{
}

/// A user who is not blacklisted is never refused as blacklisted.
pub proof fn lemma_blacklist_error_needs_blacklist(
    marketplace: Marketplace,
    user_state: UserState,
    operation: OperationType,
    now: i64,
)
    requires
        !user_state.is_blacklisted,
    ensures
        admission_spec(marketplace, user_state, operation, now) != Err::<(), ErrorCode>(
            ErrorCode::UserBlacklisted,
        ),
{
}

/// The quota: a user who has created `MAX_QUESTIONS_PER_USER` questions can
/// create no more, however long the user waits; and where nothing is paused,
/// the user is not blacklisted and the cooldown has passed, the refusal names
/// the quota.
pub proof fn lemma_quota_blocks_creation(
    attempt: CreateQuestion,
    submission: ContentSubmission,
    unlock_price: u64,
    max_keys: u64,
    now: i64,
)
    requires
        attempt.user_state.questions_created >= MAX_QUESTIONS_PER_USER,
    ensures
        create_question_refusal(attempt, submission, unlock_price, max_keys, now) is Some,
        (!attempt.marketplace.paused && !attempt.marketplace.paused_operations.create_question
            && !attempt.user_state.is_blacklisted && now - attempt.user_state.last_operation_time
            >= OPERATION_COOLDOWN) ==> create_question_refusal(
            attempt,
            submission,
            unlock_price,
            max_keys,
            now,
        ) == Some(ErrorCode::TooManyQuestions),
{
}

/// A new user is never throttled: from the moment the user's state was set
/// up, the cooldown counts as passed.
pub proof fn lemma_new_user_not_throttled(marketplace: Marketplace, created: i64, now: i64)
    requires
        initial_user_state(created) is Ok,
        now >= created,
        !marketplace.paused,
        !marketplace.paused_operations.create_question,
    ensures
        admission_spec(
            marketplace,
            initial_user_state(created)->Ok_0,
            OperationType::CreateQuestion,
            now,
        ) is Ok,
{
}

/// A refused creation uses up nothing, and a creation that goes through
/// starts the cooldown: the next creation is refused until
/// `OPERATION_COOLDOWN` seconds have passed.
pub proof fn lemma_creation_starts_cooldown(
    attempt: CreateQuestion,
    submission: ContentSubmission,
    unlock_price: u64,
    max_keys: u64,
    now: i64,
    next_submission: ContentSubmission,
    next_time: i64,
)
    requires
        create_question_refusal(attempt, submission, unlock_price, max_keys, now) is None,
        next_time - now < OPERATION_COOLDOWN,
    ensures
        create_question_refusal(
            crate::question::create_question_effect(attempt, now),
            next_submission,
            unlock_price,
            max_keys,
            next_time,
        ) == Some(ErrorCode::RateLimitExceeded),
        crate::question::create_question_effect(attempt, now).user_state.questions_created
            == attempt.user_state.questions_created + 1,
        crate::question::create_question_effect(attempt, now).user_state.within_quota(),
        crate::question::create_question_effect(attempt, now).marketplace.question_counter
            == attempt.marketplace.question_counter + 1,
{
}

/// The global pause stops everything that buyers, sellers and creators can
/// do, whatever else holds of the records and of what was asked.
pub proof fn lemma_pause_stops_everything(
    create: CreateQuestion,
    submission: ContentSubmission,
    mint: MintUnlockKey,
    metadata_uri: Seq<char>,
    list: ListKey,
    update: UpdateListing,
    cancel: CancelListing,
    sale: BuyListedKey,
    payload: Seq<u8>,
    price: u64,
    max_keys: u64,
    now: i64,
)
    ensures
        create.marketplace.paused ==> create_question_refusal(
            create,
            submission,
            price,
            max_keys,
            now,
        ) == Some(ErrorCode::MarketplacePaused),
        mint.marketplace.paused ==> mint_refusal(mint, metadata_uri, payload, now) == Some(
            ErrorCode::MarketplacePaused,
        ),
        list.marketplace.paused ==> list_key_refusal(list, price, now) == Some(
            ErrorCode::MarketplacePaused,
        ),
        update.marketplace.paused ==> update_listing_refusal(update, price) == Some(
            ErrorCode::MarketplacePaused,
        ),
        cancel.marketplace.paused ==> cancel_listing_refusal(cancel) == Some(
            ErrorCode::MarketplacePaused,
        ),
        sale.marketplace.paused ==> buy_refusal(sale, payload, now) == Some(
            ErrorCode::MarketplacePaused,
        ),
{
}

/// A blacklisted user can neither create nor mint nor list nor buy while the
/// operation is not paused: the refusal names the blacklist.
pub proof fn lemma_blacklist_blocks_every_operation(
    marketplace: Marketplace,
    user_state: UserState,
    operation: OperationType,
    now: i64,
)
    requires
        user_state.is_blacklisted,
        !marketplace.paused,
        !marketplace.paused_operations.paused(operation),
    ensures
        admission_spec(marketplace, user_state, operation, now) == Err::<(), ErrorCode>(
            ErrorCode::UserBlacklisted,
        ),
{
}

/// Setting the rates is open to the authority whatever the pause switches
/// say: called by the authority, it is refused exactly when one of the new
/// rates is above `MAX_FEE_BPS`, and then as a fee too high; otherwise both
/// rates are replaced by the new ones and nothing else changes.
pub proof fn lemma_authority_sets_rates_even_when_paused(
    ctx: UpdateFees,
    new_platform_fee_bps: u16,
    new_creator_royalty_bps: u16,
)
    requires
        ctx.authority == ctx.marketplace.authority,
    ensures
        update_fees_spec(ctx, new_platform_fee_bps, new_creator_royalty_bps) is Err <==> (
        new_platform_fee_bps > MAX_FEE_BPS || new_creator_royalty_bps > MAX_FEE_BPS),
        update_fees_spec(ctx, new_platform_fee_bps, new_creator_royalty_bps) matches Err(e) ==> e
            == ErrorCode::FeeTooHigh,
        update_fees_spec(ctx, new_platform_fee_bps, new_creator_royalty_bps) matches Ok(outcome)
            ==> {
            &&& outcome.0.marketplace == (Marketplace {
                platform_fee_bps: new_platform_fee_bps,
                creator_royalty_bps: new_creator_royalty_bps,
                ..ctx.marketplace
            })
            &&& outcome.0.authority == ctx.authority
            &&& outcome.0.marketplace.paused == ctx.marketplace.paused
            &&& outcome.0.marketplace.paused_operations == ctx.marketplace.paused_operations
            &&& outcome.0.marketplace.rates_valid()
        },
{
}

} // verus!
