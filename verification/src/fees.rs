//! Fee arithmetic: how a price is split between platform, creator and seller.
//!
//! Rates are in basis points, 10000 of which make the whole price. Every
//! share that is a fraction of the price is rounded down; the party that is
//! paid last receives what is left, so the shares always add up to the price.

use vstd::prelude::*;
use crate::error::ErrorCode;

verus! {

/// One hundred percent, in basis points.
pub const BPS_DENOMINATOR: u64 = 10000;

/// The platform fee rate of a newly initialized marketplace (5%).
pub const INITIAL_PLATFORM_FEE_BPS: u16 = 500;

/// The creator royalty rate of a newly initialized marketplace (2%).
pub const INITIAL_CREATOR_ROYALTY_BPS: u16 = 200;

/// The highest value either rate may be set to (10%).
pub const MAX_FEE_BPS: u16 = 1000;

/// The highest sum of both rates under which a question may be created (90%).
pub const MAX_TOTAL_FEE_BPS: u16 = 9000;

/// `bps` basis points of `price`, rounded down.
pub open spec fn share_of(price: u64, bps: u16) -> int {
    (price as int * bps as int) / 10000
}

/// The split of a first sale: `(platform_fee, creator_payment)`.
///
/// The platform fee is `platform_bps` basis points of the price, rounded
/// down; the creator is paid the rest. The split is refused where the product
/// `price * platform_bps` leaves the 64-bit range, or where the fee would be
/// more than the price.
pub open spec fn split_primary_spec(price: u64, platform_bps: u16) -> Result<(u64, u64), ErrorCode> {
    let platform_fee = share_of(price, platform_bps);
    if price as int * platform_bps as int > u64::MAX as int {
        Err(ErrorCode::NumericalOverflow)
    } else if platform_fee > price as int {
        Err(ErrorCode::NumericalOverflow)
    } else {
        Ok((platform_fee as u64, (price as int - platform_fee) as u64))
    }
}

/// The split of a resale: `(platform_fee, creator_royalty, seller_payment)`.
///
/// Fee and royalty are each a rounded-down fraction of the price; the seller
/// is paid the rest and so absorbs what rounding leaves over. The split is
/// refused where either product leaves the 64-bit range, or where fee and
/// royalty together would be more than the price.
pub open spec fn split_resale_spec(price: u64, platform_bps: u16, royalty_bps: u16) -> Result<
    (u64, u64, u64),
    ErrorCode,
> {
    let platform_fee = share_of(price, platform_bps);
    let creator_royalty = share_of(price, royalty_bps);
    if price as int * platform_bps as int > u64::MAX as int {
        Err(ErrorCode::NumericalOverflow)
    } else if price as int * royalty_bps as int > u64::MAX as int {
        Err(ErrorCode::NumericalOverflow)
    } else if platform_fee + creator_royalty > price as int {
        Err(ErrorCode::NumericalOverflow)
    } else {
        Ok(
            (
                platform_fee as u64,
                creator_royalty as u64,
                (price as int - platform_fee - creator_royalty) as u64,
            ),
        )
    }
}

/// A rounded-down share is never negative and never more than the product
/// it was taken from.
pub proof fn lemma_share_bounds(price: u64, bps: u16)
    ensures
        0 <= share_of(price, bps) <= price as int * bps as int,
        bps <= 10000 ==> share_of(price, bps) <= price as int,
{
    let product: int = price as int * bps as int;
    assert(0 <= product) by (nonlinear_arith)
        requires
            product == price as int * bps as int,
            0 <= price as int,
            0 <= bps as int,
    ;
    assert(0 <= product / 10000 <= product) by (nonlinear_arith)
        requires
            0 <= product,
    ;
    if bps <= 10000 {
        assert(product <= price as int * 10000) by (nonlinear_arith)
            requires
                product == price as int * bps as int,
                0 <= price as int,
                0 <= bps as int <= 10000,
        ;
        assert(product / 10000 <= price as int) by (nonlinear_arith)
            requires
                0 <= product <= price as int * 10000,
        ;
    }
}

/// Two rounded-down shares whose rates sum to at most the whole never exceed
/// the price together.
pub proof fn lemma_two_shares_fit(price: u64, platform_bps: u16, royalty_bps: u16)
    requires
        platform_bps as int + royalty_bps as int <= 10000,
    ensures
        share_of(price, platform_bps) + share_of(price, royalty_bps) <= price as int,
{
    let a: int = price as int * platform_bps as int;
    let b: int = price as int * royalty_bps as int;
    assert(0 <= a && 0 <= b && a + b <= price as int * 10000) by (nonlinear_arith)
        requires
            a == price as int * platform_bps as int,
            b == price as int * royalty_bps as int,
            0 <= price as int,
            0 <= platform_bps as int,
            0 <= royalty_bps as int,
            platform_bps as int + royalty_bps as int <= 10000,
    ;
    assert(a / 10000 + b / 10000 <= price as int) by (nonlinear_arith)
        requires
            0 <= a,
            0 <= b,
            a + b <= price as int * 10000,
    ;
}

/// Splits the price of a first sale between platform and creator.
pub fn split_primary(price: u64, platform_bps: u16) -> (result: Result<(u64, u64), ErrorCode>)
    ensures
        result == split_primary_spec(price, platform_bps),
{
    let product: u64 = match price.checked_mul(platform_bps as u64) {
        Some(p) => p,
        None => { return Err(ErrorCode::NumericalOverflow); },
    };
    let platform_fee: u64 = product / BPS_DENOMINATOR;
    match price.checked_sub(platform_fee) {
        Some(creator_payment) => Ok((platform_fee, creator_payment)),
        None => Err(ErrorCode::NumericalOverflow),
    }
}

/// Splits the price of a resale between platform, creator and seller.
pub fn split_resale(price: u64, platform_bps: u16, royalty_bps: u16) -> (result: Result<
    (u64, u64, u64),
    ErrorCode,
>)
    ensures
        result == split_resale_spec(price, platform_bps, royalty_bps),
{
    let platform_product: u64 = match price.checked_mul(platform_bps as u64) {
        Some(p) => p,
        None => { return Err(ErrorCode::NumericalOverflow); },
    };
    let royalty_product: u64 = match price.checked_mul(royalty_bps as u64) {
        Some(p) => p,
        None => { return Err(ErrorCode::NumericalOverflow); },
    };
    let platform_fee: u64 = platform_product / BPS_DENOMINATOR;
    let creator_royalty: u64 = royalty_product / BPS_DENOMINATOR;
    let after_fee: u64 = match price.checked_sub(platform_fee) {
        Some(rest) => rest,
        None => {
            proof {
                lemma_share_bounds(price, royalty_bps);
            }
            return Err(ErrorCode::NumericalOverflow);
        },
    };
    match after_fee.checked_sub(creator_royalty) {
        Some(seller_payment) => Ok((platform_fee, creator_royalty, seller_payment)),
        None => Err(ErrorCode::NumericalOverflow),
    }
}

/// Conservation of value on resale: whenever a resale is split, the three
/// shares add up to the price exactly, none of them is negative, and none is
/// more than the price.
pub proof fn lemma_split_resale_conserves(price: u64, platform_bps: u16, royalty_bps: u16)
    ensures
        split_resale_spec(price, platform_bps, royalty_bps) matches Ok(shares) ==> {
            &&& shares.0 as int + shares.1 as int + shares.2 as int == price as int
            &&& 0 <= shares.0 <= price
            &&& 0 <= shares.1 <= price
            &&& 0 <= shares.2 <= price
        },
{
    lemma_share_bounds(price, platform_bps);
    lemma_share_bounds(price, royalty_bps);
}

/// With a price above zero and rates that sum to at most
/// `MAX_TOTAL_FEE_BPS`, a resale is split unless a product leaves the 64-bit
/// range; the three shares then add up to the price exactly, and none of
/// them is negative.
pub proof fn lemma_split_resale_valid_rates(price: u64, platform_bps: u16, royalty_bps: u16)
    requires
        price > 0,
        platform_bps as int + royalty_bps as int <= MAX_TOTAL_FEE_BPS as int,
    ensures
        split_resale_spec(price, platform_bps, royalty_bps) is Ok <==> {
            &&& price as int * platform_bps as int <= u64::MAX as int
            &&& price as int * royalty_bps as int <= u64::MAX as int
        },
        split_resale_spec(price, platform_bps, royalty_bps) matches Ok(shares) ==> {
            &&& shares.0 as int + shares.1 as int + shares.2 as int == price as int
            &&& shares.0 >= 0
            &&& shares.1 >= 0
            &&& shares.2 >= 0
        },
{
    lemma_two_shares_fit(price, platform_bps, royalty_bps);
    lemma_split_resale_conserves(price, platform_bps, royalty_bps);
}

/// Conservation of value on a first sale: whenever a first sale is split, fee
/// and creator payment add up to the price.
pub proof fn lemma_split_primary_conserves(price: u64, platform_bps: u16)
    ensures
        split_primary_spec(price, platform_bps) matches Ok(shares) ==> shares.0 as int
            + shares.1 as int == price as int,
        platform_bps <= 10000 ==> (split_primary_spec(price, platform_bps) is Ok <==> price as int
            * platform_bps as int <= u64::MAX as int),
{
    lemma_share_bounds(price, platform_bps);
}

/// The platform takes the same fee from a price whether the sale is a first
/// sale or a resale, and with a royalty rate of zero a resale pays the seller
/// what a first sale pays the creator.
pub proof fn lemma_platform_fee_same_in_both_flows(price: u64, platform_bps: u16, royalty_bps: u16)
    ensures
        ({
            let primary = split_primary_spec(price, platform_bps);
            let resale = split_resale_spec(price, platform_bps, royalty_bps);
            primary is Ok && resale is Ok ==> {
                &&& primary->Ok_0.0 == resale->Ok_0.0
                &&& primary->Ok_0.1 == resale->Ok_0.1 + resale->Ok_0.2
            }
        }),
        ({
            let primary = split_primary_spec(price, platform_bps);
            let resale = split_resale_spec(price, platform_bps, 0);
            resale is Ok ==> {
                &&& primary == Ok::<(u64, u64), ErrorCode>((resale->Ok_0.0, resale->Ok_0.2))
                &&& resale->Ok_0.1 == 0
            }
        }),
{
    lemma_share_bounds(price, platform_bps);
    lemma_share_bounds(price, royalty_bps);
    lemma_share_bounds(price, 0);
}

} // verus!
