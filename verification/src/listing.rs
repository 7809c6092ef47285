//! The secondary market's listings: offering a key for sale, repricing the
//! offer and withdrawing it. A key is either unlisted, with no price, or
//! listed at a price above zero; only its owner moves it between the two.

use vstd::prelude::*;
use crate::accounts::{CancelListing, ListKey, UpdateListing};
use crate::error::ErrorCode;
use crate::events::{KeyListed, ListingCancelled, ListingUpdated};
use crate::admission::{check_admission, check_not_paused, admission_spec};
use crate::state::{OperationType, UnlockKey};

verus! {

/// Why a key may not be listed, if it may not. The checks are made in this
/// order: admission, the price, the owner, the listing.
pub open spec fn list_key_refusal(ctx: ListKey, price: u64, now: i64) -> Option<ErrorCode> {
    let admission = admission_spec(ctx.marketplace, ctx.user_state, OperationType::ListKey, now);
    if admission is Err {
        admission.err()
    } else if price == 0 {
        Some(ErrorCode::InvalidPrice)
    } else if ctx.unlock_key.owner != ctx.seller {
        Some(ErrorCode::NotKeyOwner)
    } else if ctx.unlock_key.is_listed {
        Some(ErrorCode::AlreadyListed)
    } else {
        None
    }
}

/// The records after a key was listed at `price` at time `now`.
pub open spec fn list_key_effect(ctx: ListKey, price: u64, now: i64) -> ListKey {
    ListKey {
        unlock_key: UnlockKey {
            is_listed: true,
            list_price: price,
            list_time: now,
            ..ctx.unlock_key
        },
        ..ctx
    }
}

/// Offers the key for sale at `price`.
pub fn list_key(ctx: &mut ListKey, price: u64, now: i64) -> (result: Result<KeyListed, ErrorCode>)
    ensures
        match result {
            Ok(event) => {
                &&& list_key_refusal(*old(ctx), price, now) is None
                &&& *final(ctx) == list_key_effect(*old(ctx), price, now)
                &&& final(ctx).unlock_key.well_formed()
                &&& event == (KeyListed {
                    key_id: old(ctx).unlock_key.token_id,
                    price,
                    seller: old(ctx).unlock_key.owner,
                    list_time: now,
                })
            },
            Err(e) => list_key_refusal(*old(ctx), price, now) == Some(e) && *final(ctx) == *old(
                ctx,
            ),
        },
{
    check_admission(&ctx.marketplace, &ctx.user_state, OperationType::ListKey, now)?;
    if price == 0 {
        return Err(ErrorCode::InvalidPrice);
    }
    if !ctx.unlock_key.owner.same_as(&ctx.seller) {
        return Err(ErrorCode::NotKeyOwner);
    }
    if ctx.unlock_key.is_listed {
        return Err(ErrorCode::AlreadyListed);
    }
    ctx.unlock_key.is_listed = true;
    ctx.unlock_key.list_price = price;
    ctx.unlock_key.list_time = now;
    Ok(
        KeyListed {
            key_id: ctx.unlock_key.token_id,
            price,
            seller: ctx.unlock_key.owner,
            list_time: now,
        },
    )
}

/// Why a listing may not be repriced, if it may not. The checks are made in
/// this order: the global pause, the price, the owner, the listing.
pub open spec fn update_listing_refusal(ctx: UpdateListing, new_price: u64) -> Option<ErrorCode> {
    if ctx.marketplace.paused {
        Some(ErrorCode::MarketplacePaused)
    } else if new_price == 0 {
        Some(ErrorCode::InvalidPrice)
    } else if ctx.unlock_key.owner != ctx.seller {
        Some(ErrorCode::NotKeyOwner)
    } else if !ctx.unlock_key.is_listed {
        Some(ErrorCode::NotListed)
    } else {
        None
    }
}

/// The records after a listing was repriced: the price is replaced and
/// nothing else.
pub open spec fn update_listing_effect(ctx: UpdateListing, new_price: u64) -> UpdateListing {
    UpdateListing { unlock_key: UnlockKey { list_price: new_price, ..ctx.unlock_key }, ..ctx }
}

/// Replaces the price of a listed key.
pub fn update_listing(ctx: &mut UpdateListing, new_price: u64) -> (result: Result<
    ListingUpdated,
    ErrorCode,
>)
    ensures
        match result {
            Ok(event) => {
                &&& update_listing_refusal(*old(ctx), new_price) is None
                &&& *final(ctx) == update_listing_effect(*old(ctx), new_price)
                &&& final(ctx).unlock_key.well_formed()
                &&& event == (ListingUpdated {
                    key_id: old(ctx).unlock_key.token_id,
                    old_price: old(ctx).unlock_key.list_price,
                    new_price,
                    seller: old(ctx).unlock_key.owner,
                })
            },
            Err(e) => update_listing_refusal(*old(ctx), new_price) == Some(e) && *final(ctx)
                == *old(ctx),
        },
{
    check_not_paused(&ctx.marketplace)?;
    if new_price == 0 {
        return Err(ErrorCode::InvalidPrice);
    }
    if !ctx.unlock_key.owner.same_as(&ctx.seller) {
        return Err(ErrorCode::NotKeyOwner);
    }
    if !ctx.unlock_key.is_listed {
        return Err(ErrorCode::NotListed);
    }
    let old_price: u64 = ctx.unlock_key.list_price;
    ctx.unlock_key.list_price = new_price;
    Ok(
        ListingUpdated {
            key_id: ctx.unlock_key.token_id,
            old_price,
            new_price,
            seller: ctx.unlock_key.owner,
        },
    )
}

/// Why a listing may not be withdrawn, if it may not. The checks are made in
/// this order: the global pause, the owner, the listing.
pub open spec fn cancel_listing_refusal(ctx: CancelListing) -> Option<ErrorCode> {
    if ctx.marketplace.paused {
        Some(ErrorCode::MarketplacePaused)
    } else if ctx.unlock_key.owner != ctx.seller {
        Some(ErrorCode::NotKeyOwner)
    } else if !ctx.unlock_key.is_listed {
        Some(ErrorCode::NotListed)
    } else {
        None
    }
}

/// The records after a listing was withdrawn: the key is unlisted and has no
/// price.
pub open spec fn cancel_listing_effect(ctx: CancelListing) -> CancelListing {
    CancelListing {
        unlock_key: UnlockKey { is_listed: false, list_price: 0, ..ctx.unlock_key },
        ..ctx
    }
}

/// Withdraws a listed key from sale.
pub fn cancel_listing(ctx: &mut CancelListing) -> (result: Result<ListingCancelled, ErrorCode>)
    ensures
        match result {
            Ok(event) => {
                &&& cancel_listing_refusal(*old(ctx)) is None
                &&& *final(ctx) == cancel_listing_effect(*old(ctx))
                &&& final(ctx).unlock_key.well_formed()
                &&& event == (ListingCancelled {
                    key_id: old(ctx).unlock_key.token_id,
                    seller: old(ctx).unlock_key.owner,
                })
            },
            Err(e) => cancel_listing_refusal(*old(ctx)) == Some(e) && *final(ctx) == *old(ctx),
        },
{
    check_not_paused(&ctx.marketplace)?;
    if !ctx.unlock_key.owner.same_as(&ctx.seller) {
        return Err(ErrorCode::NotKeyOwner);
    }
    if !ctx.unlock_key.is_listed {
        return Err(ErrorCode::NotListed);
    }
    ctx.unlock_key.is_listed = false;
    ctx.unlock_key.list_price = 0;
    Ok(ListingCancelled { key_id: ctx.unlock_key.token_id, seller: ctx.unlock_key.owner })
}

} // verus!
