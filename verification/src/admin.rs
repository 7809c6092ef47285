//! Administration: setting the marketplace up and changing its
//! configuration. Apart from the two initializations, every operation here
//! is open to the marketplace's authority alone and bypasses the admission checks.

use vstd::prelude::*;
use crate::accounts::{
    authority_spec, check_authority, BlacklistUser, Initialize, InitializeUserState,
    ToggleMarketplace, ToggleOperation, TransferAuthority, UpdateFees, UpdateTreasury,
};
use crate::error::ErrorCode;
use crate::events::{
    AuthorityTransferred, FeeUpdateEvent, MarketplaceInitialized, MarketplaceToggled,
    OperationToggled, TreasuryUpdated, UserBlacklisted, UserUnblacklisted,
};
use crate::fees::{INITIAL_CREATOR_ROYALTY_BPS, INITIAL_PLATFORM_FEE_BPS, MAX_FEE_BPS};
use crate::identity::Identity;
use crate::state::{
    Marketplace, OperationType, PausedOperations, UserState, MIN_OPERATION_COOLDOWN,
};

verus! {

/// A marketplace as it is right after its initialization: nothing counted,
/// nothing paused, the initial rates.
pub open spec fn initial_marketplace(authority: Identity, treasury: Identity, bonk_mint: Identity) -> Marketplace {
    Marketplace {
        treasury,
        authority,
        question_counter: 0,
        platform_fee_bps: INITIAL_PLATFORM_FEE_BPS,
        creator_royalty_bps: INITIAL_CREATOR_ROYALTY_BPS,
        total_volume: 0,
        paused: false,
        paused_operations: PausedOperations {
            create_question: false,
            mint_key: false,
            list_key: false,
            buy_key: false,
        },
        bonk_mint,
    }
}

/// Sets up the marketplace for the authority, treasury and fee token named
/// in `ctx`. Never refused.
pub fn initialize(ctx: &mut Initialize) -> (result: Result<MarketplaceInitialized, ErrorCode>)
    ensures
        final(ctx).marketplace == initial_marketplace(
            old(ctx).authority,
            old(ctx).treasury,
            old(ctx).bonk_mint,
        ),
        final(ctx).marketplace.rates_valid(),
        final(ctx).authority == old(ctx).authority,
        final(ctx).treasury == old(ctx).treasury,
        final(ctx).bonk_mint == old(ctx).bonk_mint,
        result == Ok::<MarketplaceInitialized, ErrorCode>(
            MarketplaceInitialized {
                authority: old(ctx).authority,
                platform_fee_bps: INITIAL_PLATFORM_FEE_BPS,
                creator_royalty_bps: INITIAL_CREATOR_ROYALTY_BPS,
                bonk_mint: old(ctx).bonk_mint,
            },
        ),
{
    ctx.marketplace = Marketplace {
        treasury: ctx.treasury,
        authority: ctx.authority,
        question_counter: 0,
        platform_fee_bps: INITIAL_PLATFORM_FEE_BPS,
        creator_royalty_bps: INITIAL_CREATOR_ROYALTY_BPS,
        total_volume: 0,
        paused: false,
        paused_operations: PausedOperations::default(),
        bonk_mint: ctx.bonk_mint,
    };
    Ok(
        MarketplaceInitialized {
            authority: ctx.authority,
            platform_fee_bps: INITIAL_PLATFORM_FEE_BPS,
            creator_royalty_bps: INITIAL_CREATOR_ROYALTY_BPS,
            bonk_mint: ctx.bonk_mint,
        },
    )
}

/// The state of a user who first appears at time `now`: nothing created, not
/// blacklisted, and the last operation dated back by
/// `MIN_OPERATION_COOLDOWN`. Refused where that date is not a 64-bit time.
pub open spec fn initial_user_state(now: i64) -> Result<UserState, ErrorCode> {
    if now - MIN_OPERATION_COOLDOWN < i64::MIN {
        Err(ErrorCode::NumericalOverflow)
    } else {
        Ok(
            UserState {
                questions_created: 0,
                last_operation_time: (now - MIN_OPERATION_COOLDOWN) as i64,
                is_blacklisted: false,
            },
        )
    }
}

/// Sets up the state of a user who first appears at time `now`.
pub fn initialize_user_state(ctx: &mut InitializeUserState, now: i64) -> (result: Result<
    (),
    ErrorCode,
>)
    ensures
        final(ctx).user == old(ctx).user,
        match result {
            Ok(_) => initial_user_state(now) == Ok::<UserState, ErrorCode>(final(ctx).user_state),
            Err(e) => initial_user_state(now) == Err::<UserState, ErrorCode>(e) && *final(ctx)
                == *old(ctx),
        },
{
    match now.checked_sub(MIN_OPERATION_COOLDOWN) {
        None => Err(ErrorCode::NumericalOverflow),
        Some(dated_back) => {
            ctx.user_state = UserState {
                questions_created: 0,
                last_operation_time: dated_back,
                is_blacklisted: false,
            };
            Ok(())
        },
    }
}

/// The outcome of a change of treasury.
pub open spec fn update_treasury_spec(ctx: UpdateTreasury, new_treasury: Identity, now: i64) -> Result<
    (UpdateTreasury, TreasuryUpdated),
    ErrorCode,
> {
    if authority_spec(ctx.marketplace, ctx.authority) is Err {
        Err(ErrorCode::InvalidAuthority)
    } else {
        Ok(
            (
                UpdateTreasury {
                    marketplace: Marketplace { treasury: new_treasury, ..ctx.marketplace },
                    ..ctx
                },
                TreasuryUpdated {
                    previous_treasury: ctx.marketplace.treasury,
                    new_treasury,
                    timestamp: now,
                },
            ),
        )
    }
}

/// Names a new receiver of the platform's share.
pub fn update_treasury(ctx: &mut UpdateTreasury, new_treasury: Identity, now: i64) -> (result:
    Result<TreasuryUpdated, ErrorCode>)
    ensures
        match result {
            Ok(event) => update_treasury_spec(*old(ctx), new_treasury, now) == Ok::<
                (UpdateTreasury, TreasuryUpdated),
                ErrorCode,
            >((*final(ctx), event)),
            Err(e) => update_treasury_spec(*old(ctx), new_treasury, now) == Err::<
                (UpdateTreasury, TreasuryUpdated),
                ErrorCode,
            >(e) && *final(ctx) == *old(ctx),
        },
{
    check_authority(&ctx.marketplace, &ctx.authority)?;
    let event = TreasuryUpdated {
        previous_treasury: ctx.marketplace.treasury,
        new_treasury,
        timestamp: now,
    };
    ctx.marketplace.treasury = new_treasury;
    Ok(event)
}

/// The outcome of a change of rates. The checks are made in this order: the
/// caller's authority, the platform rate, the royalty rate. The pause
/// switches are not looked at: the authority sets rates on a paused
/// marketplace as on a running one.
pub open spec fn update_fees_spec(
    ctx: UpdateFees,
    new_platform_fee_bps: u16,
    new_creator_royalty_bps: u16,
) -> Result<(UpdateFees, FeeUpdateEvent), ErrorCode> {
    if authority_spec(ctx.marketplace, ctx.authority) is Err {
        Err(ErrorCode::InvalidAuthority)
    } else if new_platform_fee_bps > MAX_FEE_BPS {
        Err(ErrorCode::FeeTooHigh)
    } else if new_creator_royalty_bps > MAX_FEE_BPS {
        Err(ErrorCode::FeeTooHigh)
    } else {
        Ok(
            (
                UpdateFees {
                    marketplace: Marketplace {
                        platform_fee_bps: new_platform_fee_bps,
                        creator_royalty_bps: new_creator_royalty_bps,
                        ..ctx.marketplace
                    },
                    ..ctx
                },
                FeeUpdateEvent {
                    platform_fee_bps: new_platform_fee_bps,
                    creator_royalty_bps: new_creator_royalty_bps,
                },
            ),
        )
    }
}

/// Sets both rates, each of which may be at most `MAX_FEE_BPS`. Afterwards
/// the rates are valid.
pub fn update_fees(ctx: &mut UpdateFees, new_platform_fee_bps: u16, new_creator_royalty_bps: u16) -> (result:
    Result<FeeUpdateEvent, ErrorCode>)
    ensures
        match result {
            Ok(event) => update_fees_spec(*old(ctx), new_platform_fee_bps, new_creator_royalty_bps)
                == Ok::<(UpdateFees, FeeUpdateEvent), ErrorCode>((*final(ctx), event))
                && final(ctx).marketplace.rates_valid(),
            Err(e) => update_fees_spec(*old(ctx), new_platform_fee_bps, new_creator_royalty_bps)
                == Err::<(UpdateFees, FeeUpdateEvent), ErrorCode>(e) && *final(ctx) == *old(ctx),
        },
{
    check_authority(&ctx.marketplace, &ctx.authority)?;
    if new_platform_fee_bps > MAX_FEE_BPS {
        return Err(ErrorCode::FeeTooHigh);
    }
    if new_creator_royalty_bps > MAX_FEE_BPS {
        return Err(ErrorCode::FeeTooHigh);
    }
    ctx.marketplace.platform_fee_bps = new_platform_fee_bps;
    ctx.marketplace.creator_royalty_bps = new_creator_royalty_bps;
    Ok(
        FeeUpdateEvent {
            platform_fee_bps: new_platform_fee_bps,
            creator_royalty_bps: new_creator_royalty_bps,
        },
    )
}

/// The outcome of flipping the global pause switch.
pub open spec fn toggle_marketplace_spec(ctx: ToggleMarketplace) -> Result<
    (ToggleMarketplace, MarketplaceToggled),
    ErrorCode,
> {
    if authority_spec(ctx.marketplace, ctx.authority) is Err {
        Err(ErrorCode::InvalidAuthority)
    } else {
        Ok(
            (
                ToggleMarketplace {
                    marketplace: Marketplace { paused: !ctx.marketplace.paused, ..ctx.marketplace },
                    ..ctx
                },
                MarketplaceToggled {
                    authority: ctx.marketplace.authority,
                    paused: !ctx.marketplace.paused,
                },
            ),
        )
    }
}

/// Flips the global pause switch.
pub fn toggle_marketplace(ctx: &mut ToggleMarketplace) -> (result: Result<
    MarketplaceToggled,
    ErrorCode,
>)
    ensures
        match result {
            Ok(event) => toggle_marketplace_spec(*old(ctx)) == Ok::<
                (ToggleMarketplace, MarketplaceToggled),
                ErrorCode,
            >((*final(ctx), event)),
            Err(e) => toggle_marketplace_spec(*old(ctx)) == Err::<
                (ToggleMarketplace, MarketplaceToggled),
                ErrorCode,
            >(e) && *final(ctx) == *old(ctx),
        },
{
    check_authority(&ctx.marketplace, &ctx.authority)?;
    ctx.marketplace.paused = !ctx.marketplace.paused;
    Ok(MarketplaceToggled { authority: ctx.marketplace.authority, paused: ctx.marketplace.paused })
}

/// The outcome of setting a user's blacklist flag to `blacklisted`: the new
/// records, or the refusal of a caller without authority.
pub open spec fn set_blacklisted_spec(ctx: BlacklistUser, blacklisted: bool) -> Result<
    BlacklistUser,
    ErrorCode,
> {
    if authority_spec(ctx.marketplace, ctx.authority) is Err {
        Err(ErrorCode::InvalidAuthority)
    } else {
        Ok(
            BlacklistUser {
                user_state: UserState { is_blacklisted: blacklisted, ..ctx.user_state },
                ..ctx
            },
        )
    }
}

/// Bars `user`, whose state `ctx` holds, from the marketplace.
pub fn blacklist_user(ctx: &mut BlacklistUser, user: Identity, now: i64) -> (result: Result<
    UserBlacklisted,
    ErrorCode,
>)
    ensures
        match result {
            Ok(event) => set_blacklisted_spec(*old(ctx), true) == Ok::<BlacklistUser, ErrorCode>(
                *final(ctx),
            ) && event == (UserBlacklisted {
                user,
                authority: old(ctx).authority,
                timestamp: now,
            }),
            Err(e) => set_blacklisted_spec(*old(ctx), true) == Err::<BlacklistUser, ErrorCode>(e)
                && *final(ctx) == *old(ctx),
        },
{
    check_authority(&ctx.marketplace, &ctx.authority)?;
    ctx.user_state.is_blacklisted = true;
    Ok(UserBlacklisted { user, authority: ctx.authority, timestamp: now })
}

/// Admits `user`, whose state `ctx` holds, to the marketplace again.
pub fn unblacklist_user(ctx: &mut BlacklistUser, user: Identity, now: i64) -> (result: Result<
    UserUnblacklisted,
    ErrorCode,
>)
    ensures
        match result {
            Ok(event) => set_blacklisted_spec(*old(ctx), false) == Ok::<BlacklistUser, ErrorCode>(
                *final(ctx),
            ) && event == (UserUnblacklisted {
                user,
                authority: old(ctx).authority,
                timestamp: now,
            }),
            Err(e) => set_blacklisted_spec(*old(ctx), false) == Err::<BlacklistUser, ErrorCode>(e)
                && *final(ctx) == *old(ctx),
        },
{
    check_authority(&ctx.marketplace, &ctx.authority)?;
    ctx.user_state.is_blacklisted = false;
    Ok(UserUnblacklisted { user, authority: ctx.authority, timestamp: now })
}

/// The outcome of flipping the pause switch of one kind of operation.
pub open spec fn toggle_operation_spec(ctx: ToggleOperation, operation: OperationType) -> Result<
    (ToggleOperation, OperationToggled),
    ErrorCode,
> {
    if authority_spec(ctx.marketplace, ctx.authority) is Err {
        Err(ErrorCode::InvalidAuthority)
    } else {
        Ok(
            (
                ToggleOperation {
                    marketplace: Marketplace {
                        paused_operations: ctx.marketplace.paused_operations.toggled(operation),
                        ..ctx.marketplace
                    },
                    ..ctx
                },
                OperationToggled {
                    operation,
                    is_paused: !ctx.marketplace.paused_operations.paused(operation),
                    authority: ctx.authority,
                },
            ),
        )
    }
}

/// Flips the pause switch of `operation`.
pub fn toggle_operation(ctx: &mut ToggleOperation, operation: OperationType) -> (result: Result<
    OperationToggled,
    ErrorCode,
>)
    ensures
        match result {
            Ok(event) => toggle_operation_spec(*old(ctx), operation) == Ok::<
                (ToggleOperation, OperationToggled),
                ErrorCode,
            >((*final(ctx), event)),
            Err(e) => toggle_operation_spec(*old(ctx), operation) == Err::<
                (ToggleOperation, OperationToggled),
                ErrorCode,
            >(e) && *final(ctx) == *old(ctx),
        },
{
    check_authority(&ctx.marketplace, &ctx.authority)?;
    ctx.marketplace.paused_operations.toggle(operation);
    let is_paused: bool = ctx.marketplace.paused_operations.is_paused(operation);
    Ok(OperationToggled { operation, is_paused, authority: ctx.authority })
}

/// The outcome of handing the marketplace to a new authority.
pub open spec fn transfer_authority_spec(ctx: TransferAuthority, now: i64) -> Result<
    (TransferAuthority, AuthorityTransferred),
    ErrorCode,
> {
    if authority_spec(ctx.marketplace, ctx.authority) is Err {
        Err(ErrorCode::InvalidAuthority)
    } else {
        Ok(
            (
                TransferAuthority {
                    marketplace: Marketplace { authority: ctx.new_authority, ..ctx.marketplace },
                    ..ctx
                },
                AuthorityTransferred {
                    previous_authority: ctx.marketplace.authority,
                    new_authority: ctx.new_authority,
                    timestamp: now,
                },
            ),
        )
    }
}

/// Hands the marketplace to the new authority named in `ctx`.
pub fn transfer_authority(ctx: &mut TransferAuthority, now: i64) -> (result: Result<
    AuthorityTransferred,
    ErrorCode,
>)
    ensures
        match result {
            Ok(event) => transfer_authority_spec(*old(ctx), now) == Ok::<
                (TransferAuthority, AuthorityTransferred),
                ErrorCode,
            >((*final(ctx), event)),
            Err(e) => transfer_authority_spec(*old(ctx), now) == Err::<
                (TransferAuthority, AuthorityTransferred),
                ErrorCode,
            >(e) && *final(ctx) == *old(ctx),
        },
{
    check_authority(&ctx.marketplace, &ctx.authority)?;
    let previous_authority: Identity = ctx.marketplace.authority;
    ctx.marketplace.authority = ctx.new_authority;
    Ok(
        AuthorityTransferred {
            previous_authority,
            new_authority: ctx.new_authority,
            timestamp: now,
        },
    )
}

} // verus!
