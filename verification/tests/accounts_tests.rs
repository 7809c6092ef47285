use myqa::accounts::{
    check_authority, check_token_account, inline_question_space, pointer_question_space,
    unlock_key_space, MARKETPLACE_SPACE, MIN_ACCOUNT_SPACE, UNLOCK_KEY_BASE_SIZE,
    USER_STATE_SPACE,
};
use myqa::error::ErrorCode;
use myqa::identity::Identity;
use myqa::state::{Marketplace, PausedOperations, TokenAccount};

fn id(tag: u8) -> Identity {
    Identity { bytes: [tag; 32] }
}

#[test]
fn fixed_record_sizes() {
    assert_eq!(MIN_ACCOUNT_SPACE, 8);
    assert_eq!(MARKETPLACE_SPACE, 8 + 32 + 32 + 8 + 2 + 2 + 8 + 1 + 4 + 32);
    assert_eq!(USER_STATE_SPACE, 8 + 8 + 8 + 1);
    assert_eq!(UNLOCK_KEY_BASE_SIZE, 8 + 1 + 32 + 32 + 8 + 1 + 8 + 8 + 8 + 8 + 8);
}

#[test]
fn unlock_key_is_sized_to_its_content() {
    assert_eq!(unlock_key_space(0, 0), Ok(130));
    assert_eq!(unlock_key_space(1024, 200), Ok(122 + 4 + 1024 + 4 + 200));
    assert_eq!(unlock_key_space(10, 5), Ok(145));
}

#[test]
fn question_is_sized_to_its_content() {
    // marker, creator, kind of reference, digest, six numbers, flag, validation time
    let base = 8 + 32 + 1 + 32 + 8 * 6 + 1 + 8;
    assert_eq!(base, 130);
    assert_eq!(pointer_question_space(46), Ok(base + 4 + 46 + 32));
    assert_eq!(pointer_question_space(0), Ok(166));
    assert_eq!(inline_question_space(0, 0), Ok(138));
    assert_eq!(inline_question_space(1000, 5000), Ok(base + 4 + 1000 + 4 + 5000));
}

#[test]
fn sizes_that_do_not_fit_are_refused() {
    assert_eq!(unlock_key_space(usize::MAX, 0), Err(ErrorCode::NumericalOverflow));
    assert_eq!(unlock_key_space(usize::MAX - 130, 1), Err(ErrorCode::NumericalOverflow));
    assert_eq!(unlock_key_space(usize::MAX - 130, 0), Ok(usize::MAX));
    assert_eq!(unlock_key_space(1, usize::MAX - 130), Err(ErrorCode::NumericalOverflow));
    assert_eq!(inline_question_space(1, usize::MAX - 138), Err(ErrorCode::NumericalOverflow));
    assert_eq!(inline_question_space(0, usize::MAX - 138), Ok(usize::MAX));
    assert_eq!(pointer_question_space(usize::MAX - 165), Err(ErrorCode::NumericalOverflow));
    assert_eq!(pointer_question_space(usize::MAX - 166), Ok(usize::MAX));
}

#[test]
fn token_account_must_hold_the_fee_token_and_belong_to_the_party() {
    let account = TokenAccount { owner: id(1), mint: id(9), amount: 5 };
    assert_eq!(check_token_account(&account, &id(1), &id(9)), Ok(()));
    assert_eq!(check_token_account(&account, &id(2), &id(9)), Err(ErrorCode::InvalidOwner));
    assert_eq!(check_token_account(&account, &id(1), &id(8)), Err(ErrorCode::InvalidBonkMint));
    assert_eq!(check_token_account(&account, &id(2), &id(8)), Err(ErrorCode::InvalidBonkMint));
}

#[test]
fn only_the_authority_passes_the_authority_check() {
    let marketplace = Marketplace {
        treasury: id(2),
        authority: id(1),
        question_counter: 0,
        platform_fee_bps: 500,
        creator_royalty_bps: 200,
        total_volume: 0,
        paused: true,
        paused_operations: PausedOperations::default(),
        bonk_mint: id(3),
    };
    assert_eq!(check_authority(&marketplace, &id(1)), Ok(()));
    assert_eq!(check_authority(&marketplace, &id(2)), Err(ErrorCode::InvalidAuthority));
}
