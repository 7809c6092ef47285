use myqa::accounts::{CancelListing, ListKey, UpdateListing};
use myqa::error::ErrorCode;
use myqa::events::{KeyListed, ListingCancelled, ListingUpdated};
use myqa::identity::Identity;
use myqa::listing::{cancel_listing, list_key, update_listing};
use myqa::state::{Marketplace, PausedOperations, UnlockKey, UserState};

fn id(tag: u8) -> Identity {
    Identity { bytes: [tag; 32] }
}

fn marketplace() -> Marketplace {
    Marketplace {
        treasury: id(2),
        authority: id(1),
        question_counter: 7,
        platform_fee_bps: 500,
        creator_royalty_bps: 200,
        total_volume: 0,
        paused: false,
        paused_operations: PausedOperations::default(),
        bonk_mint: id(3),
    }
}

fn key() -> UnlockKey {
    UnlockKey {
        discriminator: 1,
        owner: id(20),
        question: id(30),
        token_id: 3,
        encrypted_key: vec![9, 9, 9],
        is_listed: false,
        list_price: 0,
        mint_time: 50,
        metadata_uri: "ipfs://meta".to_string(),
        last_sold_price: 0,
        last_sold_time: 0,
        list_time: 0,
    }
}

fn user() -> UserState {
    UserState { questions_created: 0, last_operation_time: 0, is_blacklisted: false }
}

fn to_list(unlock_key: UnlockKey) -> ListKey {
    ListKey { marketplace: marketplace(), unlock_key, seller: id(20), user_state: user() }
}

fn to_cancel(unlock_key: UnlockKey) -> CancelListing {
    CancelListing { marketplace: marketplace(), unlock_key, seller: id(20) }
}

fn to_update(unlock_key: UnlockKey) -> UpdateListing {
    UpdateListing { marketplace: marketplace(), unlock_key, seller: id(20) }
}

#[test]
fn listing_sets_price_and_time() {
    let mut ctx = to_list(key());
    assert_eq!(
        list_key(&mut ctx, 1000, 77),
        Ok(KeyListed { key_id: 3, price: 1000, seller: id(20), list_time: 77 })
    );
    assert_eq!(
        ctx.unlock_key,
        UnlockKey { is_listed: true, list_price: 1000, list_time: 77, ..key() }
    );
    assert_eq!(ctx.marketplace, marketplace());
    assert_eq!(ctx.user_state, user());
}

#[test]
fn listing_twice_fails_the_second_time_and_keeps_the_price() {
    let mut ctx = to_list(key());
    assert!(list_key(&mut ctx, 1000, 77).is_ok());
    let listed = ctx.clone();
    assert_eq!(list_key(&mut ctx, 2000, 78), Err(ErrorCode::AlreadyListed));
    assert_eq!(ctx, listed);
    assert_eq!(ctx.unlock_key.list_price, 1000);
    assert_eq!(ctx.unlock_key.list_time, 77);
    assert_eq!(list_key(&mut ctx, 1000, 79), Err(ErrorCode::AlreadyListed));
    assert_eq!(ctx, listed);
}

#[test]
fn list_cancel_list_leaves_the_second_price() {
    let mut ctx = to_list(key());
    list_key(&mut ctx, 1000, 77).unwrap();
    let mut cancel = to_cancel(ctx.unlock_key.clone());
    assert_eq!(cancel_listing(&mut cancel), Ok(ListingCancelled { key_id: 3, seller: id(20) }));
    assert!(!cancel.unlock_key.is_listed);
    assert_eq!(cancel.unlock_key.list_price, 0);
    let mut again = to_list(cancel.unlock_key.clone());
    list_key(&mut again, 250, 90).unwrap();
    assert!(again.unlock_key.is_listed);
    assert_eq!(again.unlock_key.list_price, 250);
    assert_eq!(again.unlock_key.list_time, 90);
    assert_eq!(again.unlock_key.owner, id(20));
}

#[test]
fn listing_at_zero_is_refused() {
    let mut ctx = to_list(key());
    assert_eq!(list_key(&mut ctx, 0, 77), Err(ErrorCode::InvalidPrice));
    assert_eq!(ctx, to_list(key()));
}

#[test]
fn only_the_owner_lists() {
    let mut ctx = to_list(key());
    ctx.seller = id(21);
    assert_eq!(list_key(&mut ctx, 10, 77), Err(ErrorCode::NotKeyOwner));
    assert_eq!(ctx.unlock_key, key());
    // A stranger is told so even when the key is listed already.
    ctx.unlock_key.is_listed = true;
    ctx.unlock_key.list_price = 5;
    assert_eq!(list_key(&mut ctx, 10, 77), Err(ErrorCode::NotKeyOwner));
}

#[test]
fn listing_passes_admission_first() {
    let mut ctx = to_list(key());
    ctx.seller = id(21);
    ctx.user_state.is_blacklisted = true;
    assert_eq!(list_key(&mut ctx, 0, 77), Err(ErrorCode::UserBlacklisted));
    ctx.marketplace.paused_operations.list_key = true;
    assert_eq!(list_key(&mut ctx, 0, 77), Err(ErrorCode::OperationPaused));
    ctx.marketplace.paused = true;
    assert_eq!(list_key(&mut ctx, 0, 77), Err(ErrorCode::MarketplacePaused));
    assert_eq!(ctx.unlock_key, key());
}

#[test]
fn pausing_other_operations_does_not_stop_listing() {
    let mut ctx = to_list(key());
    ctx.marketplace.paused_operations =
        PausedOperations { create_question: true, mint_key: true, list_key: false, buy_key: true };
    assert!(list_key(&mut ctx, 10, 77).is_ok());
}

#[test]
fn repricing_replaces_the_price_only() {
    let listed = UnlockKey { is_listed: true, list_price: 1000, list_time: 77, ..key() };
    let mut ctx = to_update(listed.clone());
    assert_eq!(
        update_listing(&mut ctx, 1500),
        Ok(ListingUpdated { key_id: 3, old_price: 1000, new_price: 1500, seller: id(20) })
    );
    assert_eq!(ctx.unlock_key, UnlockKey { list_price: 1500, ..listed });
}

#[test]
fn repricing_refusals_in_order() {
    let listed = UnlockKey { is_listed: true, list_price: 1000, list_time: 77, ..key() };
    let mut ctx = to_update(key());
    assert_eq!(update_listing(&mut ctx, 1500), Err(ErrorCode::NotListed));
    let mut ctx = to_update(listed.clone());
    assert_eq!(update_listing(&mut ctx, 0), Err(ErrorCode::InvalidPrice));
    ctx.seller = id(21);
    assert_eq!(update_listing(&mut ctx, 1500), Err(ErrorCode::NotKeyOwner));
    assert_eq!(update_listing(&mut ctx, 0), Err(ErrorCode::InvalidPrice));
    ctx.marketplace.paused = true;
    assert_eq!(update_listing(&mut ctx, 0), Err(ErrorCode::MarketplacePaused));
    assert_eq!(ctx.unlock_key, listed);
    // The switch of listing does not bind repricing.
    let mut ctx = to_update(listed);
    ctx.marketplace.paused_operations.list_key = true;
    assert!(update_listing(&mut ctx, 1500).is_ok());
}

#[test]
fn cancelling_refusals_in_order() {
    let listed = UnlockKey { is_listed: true, list_price: 1000, list_time: 77, ..key() };
    let mut ctx = to_cancel(key());
    assert_eq!(cancel_listing(&mut ctx), Err(ErrorCode::NotListed));
    assert_eq!(ctx.unlock_key, key());
    let mut ctx = to_cancel(listed.clone());
    ctx.seller = id(21);
    assert_eq!(cancel_listing(&mut ctx), Err(ErrorCode::NotKeyOwner));
    ctx.marketplace.paused = true;
    assert_eq!(cancel_listing(&mut ctx), Err(ErrorCode::MarketplacePaused));
    assert_eq!(ctx.unlock_key, listed);
}

#[test]
fn cancelling_keeps_the_time_of_listing() {
    let listed = UnlockKey { is_listed: true, list_price: 1000, list_time: 77, ..key() };
    let mut ctx = to_cancel(listed);
    cancel_listing(&mut ctx).unwrap();
    assert_eq!(ctx.unlock_key, UnlockKey { list_time: 77, ..key() });
    let mut ctx = to_cancel(ctx.unlock_key.clone());
    assert_eq!(cancel_listing(&mut ctx), Err(ErrorCode::NotListed));
}
