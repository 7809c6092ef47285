//! The two operations that move money: the first sale of a key and the
//! resale of a listed key.
//!
//! Every check is made before anything is changed, and what has to be paid
//! is returned to the caller together with the changed records: the caller
//! issues the transfers and keeps the records only if all of them went
//! through.

use vstd::prelude::*;
use vstd::utf8::{encode_utf8, is_ascii_chars};
use crate::accounts::{check_token_account, token_account_spec, BuyListedKey, MintUnlockKey};
use crate::error::ErrorCode;
use crate::events::{KeyMinted, KeySold};
use crate::fees::{split_primary, split_primary_spec, split_resale, split_resale_spec};
use crate::admission::{check_admission, admission_spec};
use crate::identity::Identity;
use crate::registration::{key_registration, key_registration_spec, KeyRegistration};
use crate::state::{
    Marketplace, OperationType, Question, UnlockKey, UserState, UNLOCK_KEY_DISCRIMINATOR,
};

verus! {

/// The longest metadata reference, in bytes.
pub const MAX_URI_LENGTH: usize = 200;

/// The shortest metadata reference, in bytes.
pub const MIN_METADATA_LENGTH: usize = 5;

/// The longest encrypted payload of a key, in bytes.
pub const MAX_ENCRYPTED_KEY_LENGTH: usize = 1024;

/// An amount owed to a party, to be transferred from the buyer.
#[derive(Clone, Copy, Debug, PartialEq, Eq)]
pub struct Payment {
    pub payee: Identity,
    pub amount: u64,
}

/// What a first sale leaves to do and to announce.
#[derive(Clone, Debug, PartialEq, Eq)]
pub struct MintReceipt {
    /// The key that was created.
    pub unlock_key: UnlockKey,
    /// The platform's share, owed to the treasury.
    pub platform_fee: Payment,
    /// The rest of the price, owed to the question's creator.
    pub creator_payment: Payment,
    /// What to register for the key's ownership token.
    pub registration: KeyRegistration,
    pub event: KeyMinted,
}

/// What a resale leaves to do and to announce.
#[derive(Clone, Copy, Debug, PartialEq, Eq)]
pub struct SaleReceipt {
    /// The platform's share, owed to the treasury.
    pub platform_fee: Payment,
    /// The creator's royalty, owed to the question's creator.
    pub creator_royalty: Payment,
    /// The rest of the price, owed to the seller.
    pub seller_payment: Payment,
    pub event: KeySold,
}

/// Whether the token accounts of a settlement are what they stand for: the
/// token named for the settlement is the marketplace's fee token, and the
/// accounts of buyer, treasury and creator hold that token and belong to
/// these parties. They are looked at in this order.
pub open spec fn settlement_accounts_spec(
    marketplace: Marketplace,
    question: Question,
    bonk_mint: Identity,
    buyer: Identity,
    buyer_token_account: crate::state::TokenAccount,
    treasury_token_account: crate::state::TokenAccount,
    creator_token_account: crate::state::TokenAccount,
) -> Result<(), ErrorCode> {
    let fee_token = marketplace.bonk_mint;
    let of_buyer = token_account_spec(buyer_token_account, buyer, fee_token);
    let of_treasury = token_account_spec(treasury_token_account, marketplace.treasury, fee_token);
    let of_creator = token_account_spec(creator_token_account, question.creator, fee_token);
    if bonk_mint != fee_token {
        Err(ErrorCode::InvalidBonkMint)
    } else if of_buyer is Err {
        of_buyer
    } else if of_treasury is Err {
        of_treasury
    } else {
        of_creator
    }
}

fn check_settlement_accounts(
    marketplace: &Marketplace,
    question: &Question,
    bonk_mint: &Identity,
    buyer: &Identity,
    buyer_token_account: &crate::state::TokenAccount,
    treasury_token_account: &crate::state::TokenAccount,
    creator_token_account: &crate::state::TokenAccount,
) -> (verdict: Result<(), ErrorCode>)
    ensures
        verdict == settlement_accounts_spec(
            *marketplace,
            *question,
            *bonk_mint,
            *buyer,
            *buyer_token_account,
            *treasury_token_account,
            *creator_token_account,
        ),
{
    if !bonk_mint.same_as(&marketplace.bonk_mint) {
        return Err(ErrorCode::InvalidBonkMint);
    }
    check_token_account(buyer_token_account, buyer, &marketplace.bonk_mint)?;
    check_token_account(treasury_token_account, &marketplace.treasury, &marketplace.bonk_mint)?;
    check_token_account(creator_token_account, &question.creator, &marketplace.bonk_mint)
}

/// Why a key may not be minted, if it may not. The checks are made in this
/// order and the first that fails decides: admission; that the question is
/// active; the upper length of the metadata reference; that a key is left;
/// the length of the payload; that the metadata reference is ASCII and not
/// too short; the token accounts; the buyer's balance; the split of the
/// price; room for the price in the question's sales and in the
/// marketplace's volume.
pub open spec fn mint_refusal(
    ctx: MintUnlockKey,
    metadata_uri: Seq<char>,
    encrypted_key: Seq<u8>,
    now: i64,
) -> Option<ErrorCode> {
    let admission = admission_spec(ctx.marketplace, ctx.user_state, OperationType::MintKey, now);
    let accounts = settlement_accounts_spec(
        ctx.marketplace,
        ctx.question,
        ctx.bonk_mint,
        ctx.buyer,
        ctx.buyer_token_account,
        ctx.treasury_token_account,
        ctx.creator_token_account,
    );
    let uri_length = encode_utf8(metadata_uri).len();
    let price = ctx.question.unlock_price;
    if admission is Err {
        admission.err()
    } else if !ctx.question.is_active {
        Some(ErrorCode::QuestionInactive)
    } else if uri_length > MAX_URI_LENGTH {
        Some(ErrorCode::URITooLong)
    } else if ctx.question.current_keys >= ctx.question.max_keys {
        Some(ErrorCode::NoKeysAvailable)
    } else if encrypted_key.len() > MAX_ENCRYPTED_KEY_LENGTH {
        Some(ErrorCode::InvalidKeyLength)
    } else if !is_ascii_chars(metadata_uri) {
        Some(ErrorCode::InvalidMetadataFormat)
    } else if uri_length < MIN_METADATA_LENGTH {
        Some(ErrorCode::InvalidMetadataFormat)
    } else if accounts is Err {
        accounts.err()
    } else if ctx.buyer_token_account.amount < price {
        Some(ErrorCode::InsufficientFunds)
    } else if split_primary_spec(price, ctx.marketplace.platform_fee_bps) is Err {
        Some(ErrorCode::NumericalOverflow)
    } else if ctx.question.total_sales + price > u64::MAX {
        Some(ErrorCode::NumericalOverflow)
    } else if ctx.marketplace.total_volume + price > u64::MAX {
        Some(ErrorCode::NumericalOverflow)
    } else {
        None
    }
}

/// The records after a first sale at time `now`: the question has issued one
/// more key and sold for its price more, the marketplace has settled that
/// much more, and the buyer has just acted.
pub open spec fn mint_effect(ctx: MintUnlockKey, now: i64) -> MintUnlockKey {
    MintUnlockKey {
        marketplace: Marketplace {
            total_volume: (ctx.marketplace.total_volume + ctx.question.unlock_price) as u64,
            ..ctx.marketplace
        },
        question: Question {
            current_keys: (ctx.question.current_keys + 1) as u64,
            total_sales: (ctx.question.total_sales + ctx.question.unlock_price) as u64,
            ..ctx.question
        },
        user_state: UserState { last_operation_time: now, ..ctx.user_state },
        ..ctx
    }
}

/// The key that a first sale creates: owned by the buyer, unlisted, never
/// sold, and numbered with the count of keys that the question had issued
/// before.
pub open spec fn minted_key(
    ctx: MintUnlockKey,
    metadata_uri: String,
    encrypted_key: Vec<u8>,
    now: i64,
) -> UnlockKey {
    UnlockKey {
        discriminator: UNLOCK_KEY_DISCRIMINATOR,
        owner: ctx.buyer,
        question: ctx.question_key,
        token_id: ctx.question.current_keys,
        encrypted_key,
        is_listed: false,
        list_price: 0,
        mint_time: now,
        metadata_uri,
        last_sold_price: 0,
        last_sold_time: 0,
        list_time: 0,
    }
}

/// What a first sale returns: the new key, the two payments that the split
/// of the question's price gives, the registration of the key's ownership
/// token in the buyer's name, and the event.
pub open spec fn is_mint_receipt(
    ctx: MintUnlockKey,
    metadata_uri: String,
    encrypted_key: Vec<u8>,
    now: i64,
    receipt: MintReceipt,
) -> bool {
    let shares = split_primary_spec(ctx.question.unlock_price, ctx.marketplace.platform_fee_bps)->Ok_0;
    &&& receipt.unlock_key == minted_key(ctx, metadata_uri, encrypted_key, now)
    &&& receipt.platform_fee == (Payment { payee: ctx.marketplace.treasury, amount: shares.0 })
    &&& receipt.creator_payment == (Payment { payee: ctx.question.creator, amount: shares.1 })
    &&& key_registration_spec(
        ctx.buyer,
        ctx.question.current_keys,
        ctx.question.index,
        metadata_uri@,
        receipt.registration,
    )
    &&& receipt.event == (KeyMinted {
        key_id: ctx.question.current_keys,
        question_id: ctx.question.index,
        owner: ctx.buyer,
        mint_time: now,
        price: ctx.question.unlock_price,
    })
}

/// Sells the buyer a new key of the question at the question's price.
pub fn mint_unlock_key(
    ctx: &mut MintUnlockKey,
    metadata_uri: String,
    encrypted_key: Vec<u8>,
    now: i64,
) -> (result: Result<MintReceipt, ErrorCode>)
    ensures
        match result {
            Ok(receipt) => {
                &&& mint_refusal(*old(ctx), metadata_uri@, encrypted_key@, now) is None
                &&& *final(ctx) == mint_effect(*old(ctx), now)
                &&& is_mint_receipt(*old(ctx), metadata_uri, encrypted_key, now, receipt)
                &&& receipt.unlock_key.token_id == old(ctx).question.current_keys
                &&& final(ctx).question.current_keys == old(ctx).question.current_keys + 1
                &&& final(ctx).question.current_keys <= final(ctx).question.max_keys
                &&& receipt.platform_fee.amount + receipt.creator_payment.amount == old(
                    ctx,
                ).question.unlock_price
                &&& receipt.unlock_key.well_formed()
                &&& old(ctx).question.well_formed() ==> final(ctx).question.well_formed()
            },
            Err(e) => {
                &&& mint_refusal(*old(ctx), metadata_uri@, encrypted_key@, now) == Some(e)
                &&& *final(ctx) == *old(ctx)
            },
        },
{
    check_admission(&ctx.marketplace, &ctx.user_state, OperationType::MintKey, now)?;
    if !ctx.question.is_active {
        return Err(ErrorCode::QuestionInactive);
    }
    let uri_length: usize = metadata_uri.as_str().as_bytes().len();
    if uri_length > MAX_URI_LENGTH {
        return Err(ErrorCode::URITooLong);
    }
    if ctx.question.current_keys >= ctx.question.max_keys {
        return Err(ErrorCode::NoKeysAvailable);
    }
    if encrypted_key.len() > MAX_ENCRYPTED_KEY_LENGTH {
        return Err(ErrorCode::InvalidKeyLength);
    }
    if !metadata_uri.as_str().is_ascii() {
        return Err(ErrorCode::InvalidMetadataFormat);
    }
    if uri_length < MIN_METADATA_LENGTH {
        return Err(ErrorCode::InvalidMetadataFormat);
    }
    check_settlement_accounts(
        &ctx.marketplace,
        &ctx.question,
        &ctx.bonk_mint,
        &ctx.buyer,
        &ctx.buyer_token_account,
        &ctx.treasury_token_account,
        &ctx.creator_token_account,
    )?;
    let price: u64 = ctx.question.unlock_price;
    if ctx.buyer_token_account.amount < price {
        return Err(ErrorCode::InsufficientFunds);
    }
    let (platform_fee, creator_payment) = match split_primary(
        price,
        ctx.marketplace.platform_fee_bps,
    ) {
        Ok(shares) => shares,
        Err(_) => { return Err(ErrorCode::NumericalOverflow); },
    };
    let token_id: u64 = ctx.question.current_keys;
    let total_sales: u64 = match ctx.question.total_sales.checked_add(price) {
        Some(total) => total,
        None => { return Err(ErrorCode::NumericalOverflow); },
    };
    let total_volume: u64 = match ctx.marketplace.total_volume.checked_add(price) {
        Some(total) => total,
        None => { return Err(ErrorCode::NumericalOverflow); },
    };
    let registration: KeyRegistration = key_registration(
        ctx.buyer,
        token_id,
        ctx.question.index,
        metadata_uri.clone(),
    );
    let unlock_key = UnlockKey {
        discriminator: UNLOCK_KEY_DISCRIMINATOR,
        owner: ctx.buyer,
        question: ctx.question_key,
        token_id,
        encrypted_key,
        is_listed: false,
        list_price: 0,
        mint_time: now,
        metadata_uri,
        last_sold_price: 0,
        last_sold_time: 0,
        list_time: 0,
    };
    let receipt = MintReceipt {
        unlock_key,
        platform_fee: Payment { payee: ctx.marketplace.treasury, amount: platform_fee },
        creator_payment: Payment { payee: ctx.question.creator, amount: creator_payment },
        registration,
        event: KeyMinted {
            key_id: token_id,
            question_id: ctx.question.index,
            owner: ctx.buyer,
            mint_time: now,
            price,
        },
    };
    ctx.question.current_keys = token_id + 1;
    ctx.question.total_sales = total_sales;
    ctx.marketplace.total_volume = total_volume;
    ctx.user_state.last_operation_time = now;
    Ok(receipt)
}

/// Why a listed key may not be bought, if it may not. The checks are made in
/// this order and the first that fails decides: admission; the length of the
/// new payload; that the question is active; that the key is listed; that
/// the buyer is not its owner; the token accounts, the seller's last; the
/// buyer's balance; the split of the price; room for the price in the
/// question's sales and in the marketplace's volume.
pub open spec fn buy_refusal(ctx: BuyListedKey, new_encrypted_key: Seq<u8>, now: i64) -> Option<
    ErrorCode,
> {
    let admission = admission_spec(ctx.marketplace, ctx.user_state, OperationType::BuyKey, now);
    let accounts = settlement_accounts_spec(
        ctx.marketplace,
        ctx.question,
        ctx.bonk_mint,
        ctx.buyer,
        ctx.buyer_token_account,
        ctx.treasury_token_account,
        ctx.creator_token_account,
    );
    let of_seller = token_account_spec(
        ctx.seller_token_account,
        ctx.unlock_key.owner,
        ctx.marketplace.bonk_mint,
    );
    let price = ctx.unlock_key.list_price;
    if admission is Err {
        admission.err()
    } else if new_encrypted_key.len() > MAX_ENCRYPTED_KEY_LENGTH {
        Some(ErrorCode::InvalidKeyLength)
    } else if !ctx.question.is_active {
        Some(ErrorCode::QuestionInactive)
    } else if !ctx.unlock_key.is_listed {
        Some(ErrorCode::NotListed)
    } else if ctx.unlock_key.owner == ctx.buyer {
        Some(ErrorCode::CannotBuyOwnKey)
    } else if accounts is Err {
        accounts.err()
    } else if of_seller is Err {
        of_seller.err()
    } else if ctx.buyer_token_account.amount < price {
        Some(ErrorCode::InsufficientFunds)
    } else if split_resale_spec(
        price,
        ctx.marketplace.platform_fee_bps,
        ctx.marketplace.creator_royalty_bps,
    ) is Err {
        Some(ErrorCode::NumericalOverflow)
    } else if ctx.question.total_sales + price > u64::MAX {
        Some(ErrorCode::NumericalOverflow)
    } else if ctx.marketplace.total_volume + price > u64::MAX {
        Some(ErrorCode::NumericalOverflow)
    } else {
        None
    }
}

/// The records after a resale at time `now`: the key belongs to the buyer,
/// holds the new payload, is unlisted and remembers the price and time of
/// the sale; question and marketplace have counted the price; the buyer has
/// just acted.
pub open spec fn buy_effect(ctx: BuyListedKey, new_encrypted_key: Vec<u8>, now: i64) -> BuyListedKey {
    let price = ctx.unlock_key.list_price;
    BuyListedKey {
        marketplace: Marketplace {
            total_volume: (ctx.marketplace.total_volume + price) as u64,
            ..ctx.marketplace
        },
        question: Question {
            total_sales: (ctx.question.total_sales + price) as u64,
            ..ctx.question
        },
        unlock_key: UnlockKey {
            owner: ctx.buyer,
            encrypted_key: new_encrypted_key,
            is_listed: false,
            list_price: 0,
            last_sold_price: price,
            last_sold_time: now,
            ..ctx.unlock_key
        },
        user_state: UserState { last_operation_time: now, ..ctx.user_state },
        ..ctx
    }
}

/// What a resale returns: the three payments that the split of the listing
/// price gives, and the event.
pub open spec fn sale_receipt(ctx: BuyListedKey, now: i64) -> SaleReceipt {
    let price = ctx.unlock_key.list_price;
    let shares = split_resale_spec(
        price,
        ctx.marketplace.platform_fee_bps,
        ctx.marketplace.creator_royalty_bps,
    )->Ok_0;
    SaleReceipt {
        platform_fee: Payment { payee: ctx.marketplace.treasury, amount: shares.0 },
        creator_royalty: Payment { payee: ctx.question.creator, amount: shares.1 },
        seller_payment: Payment { payee: ctx.unlock_key.owner, amount: shares.2 },
        event: KeySold {
            key_id: ctx.unlock_key.token_id,
            question_id: ctx.question.index,
            seller: ctx.unlock_key.owner,
            buyer: ctx.buyer,
            price,
            sold_time: now,
        },
    }
}

/// Sells the listed key to the buyer at its listing price; `new_encrypted_key`
/// is the key material encrypted to the buyer.
pub fn buy_listed_key(ctx: &mut BuyListedKey, new_encrypted_key: Vec<u8>, now: i64) -> (result:
    Result<SaleReceipt, ErrorCode>)
    ensures
        match result {
            Ok(receipt) => {
                &&& buy_refusal(*old(ctx), new_encrypted_key@, now) is None
                &&& *final(ctx) == buy_effect(*old(ctx), new_encrypted_key, now)
                &&& receipt == sale_receipt(*old(ctx), now)
                &&& receipt.platform_fee.amount + receipt.creator_royalty.amount
                    + receipt.seller_payment.amount == old(ctx).unlock_key.list_price
                &&& final(ctx).unlock_key.well_formed()
                &&& old(ctx).question.well_formed() ==> final(ctx).question.well_formed()
            },
            Err(e) => {
                &&& buy_refusal(*old(ctx), new_encrypted_key@, now) == Some(e)
                &&& *final(ctx) == *old(ctx)
            },
        },
{
    check_admission(&ctx.marketplace, &ctx.user_state, OperationType::BuyKey, now)?;
    if new_encrypted_key.len() > MAX_ENCRYPTED_KEY_LENGTH {
        return Err(ErrorCode::InvalidKeyLength);
    }
    if !ctx.question.is_active {
        return Err(ErrorCode::QuestionInactive);
    }
    if !ctx.unlock_key.is_listed {
        return Err(ErrorCode::NotListed);
    }
    if ctx.unlock_key.owner.same_as(&ctx.buyer) {
        return Err(ErrorCode::CannotBuyOwnKey);
    }
    check_settlement_accounts(
        &ctx.marketplace,
        &ctx.question,
        &ctx.bonk_mint,
        &ctx.buyer,
        &ctx.buyer_token_account,
        &ctx.treasury_token_account,
        &ctx.creator_token_account,
    )?;
    check_token_account(&ctx.seller_token_account, &ctx.unlock_key.owner, &ctx.marketplace.bonk_mint)?;
    let price: u64 = ctx.unlock_key.list_price;
    if ctx.buyer_token_account.amount < price {
        return Err(ErrorCode::InsufficientFunds);
    }
    let (platform_fee, creator_royalty, seller_payment) = match split_resale(
        price,
        ctx.marketplace.platform_fee_bps,
        ctx.marketplace.creator_royalty_bps,
    ) {
        Ok(shares) => shares,
        Err(_) => { return Err(ErrorCode::NumericalOverflow); },
    };
    let total_sales: u64 = match ctx.question.total_sales.checked_add(price) {
        Some(total) => total,
        None => { return Err(ErrorCode::NumericalOverflow); },
    };
    let total_volume: u64 = match ctx.marketplace.total_volume.checked_add(price) {
        Some(total) => total,
        None => { return Err(ErrorCode::NumericalOverflow); },
    };
    let seller: Identity = ctx.unlock_key.owner;
    let receipt = SaleReceipt {
        platform_fee: Payment { payee: ctx.marketplace.treasury, amount: platform_fee },
        creator_royalty: Payment { payee: ctx.question.creator, amount: creator_royalty },
        seller_payment: Payment { payee: seller, amount: seller_payment },
        event: KeySold {
            key_id: ctx.unlock_key.token_id,
            question_id: ctx.question.index,
            seller,
            buyer: ctx.buyer,
            price,
            sold_time: now,
        },
    };
    ctx.question.total_sales = total_sales;
    ctx.marketplace.total_volume = total_volume;
    ctx.unlock_key.owner = ctx.buyer;
    ctx.unlock_key.encrypted_key = new_encrypted_key;
    ctx.unlock_key.is_listed = false;
    ctx.unlock_key.list_price = 0;
    ctx.unlock_key.last_sold_price = price;
    ctx.unlock_key.last_sold_time = now;
    ctx.user_state.last_operation_time = now;
    Ok(receipt)
}

} // verus!
