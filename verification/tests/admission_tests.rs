use myqa::error::ErrorCode;
use myqa::admission::{check_admission, check_not_paused};
use myqa::identity::Identity;
use myqa::state::{
    Marketplace, OperationType, PausedOperations, UserState, MAX_QUESTIONS_PER_USER,
    MIN_OPERATION_COOLDOWN, OPERATION_COOLDOWN,
};

fn id(tag: u8) -> Identity {
    Identity { bytes: [tag; 32] }
}

fn marketplace() -> Marketplace {
    Marketplace {
        treasury: id(2),
        authority: id(1),
        question_counter: 0,
        platform_fee_bps: 500,
        creator_royalty_bps: 200,
        total_volume: 0,
        paused: false,
        paused_operations: PausedOperations::default(),
        bonk_mint: id(3),
    }
}

fn user() -> UserState {
    UserState { questions_created: 0, last_operation_time: 0, is_blacklisted: false }
}

const ALL: [OperationType; 4] = [
    OperationType::CreateQuestion,
    OperationType::MintKey,
    OperationType::ListKey,
    OperationType::BuyKey,
];

#[test]
fn admission_constants_have_their_values() {
    assert_eq!(MAX_QUESTIONS_PER_USER, 100);
    assert_eq!(OPERATION_COOLDOWN, 60);
    assert_eq!(MIN_OPERATION_COOLDOWN, 300);
}

#[test]
fn every_operation_is_admitted_when_nothing_stands_against_it() {
    for op in ALL {
        assert_eq!(check_admission(&marketplace(), &user(), op, 60), Ok(()));
    }
}

#[test]
fn global_pause_wins_over_everything() {
    let mut m = marketplace();
    m.paused = true;
    m.paused_operations =
        PausedOperations { create_question: true, mint_key: true, list_key: true, buy_key: true };
    let u = UserState { questions_created: 100, last_operation_time: 0, is_blacklisted: true };
    for op in ALL {
        assert_eq!(check_admission(&m, &u, op, 0), Err(ErrorCode::MarketplacePaused));
    }
    assert_eq!(check_not_paused(&m), Err(ErrorCode::MarketplacePaused));
    assert_eq!(check_not_paused(&marketplace()), Ok(()));
}

#[test]
fn operation_pause_wins_over_blacklist() {
    let mut m = marketplace();
    m.paused_operations.mint_key = true;
    let u = UserState { questions_created: 0, last_operation_time: 0, is_blacklisted: true };
    assert_eq!(check_admission(&m, &u, OperationType::MintKey, 100), Err(ErrorCode::OperationPaused));
    assert_eq!(check_admission(&m, &u, OperationType::BuyKey, 100), Err(ErrorCode::UserBlacklisted));
}

#[test]
fn each_switch_pauses_its_own_operation_only() {
    for paused in ALL {
        let mut m = marketplace();
        m.paused_operations.toggle(paused);
        for op in ALL {
            let expected = if op == paused { Err(ErrorCode::OperationPaused) } else { Ok(()) };
            assert_eq!(check_admission(&m, &user(), op, 1000), expected);
        }
    }
}

#[test]
fn blacklist_wins_over_rate_limit_and_quota() {
    let u = UserState { questions_created: 100, last_operation_time: 1000, is_blacklisted: true };
    assert_eq!(
        check_admission(&marketplace(), &u, OperationType::CreateQuestion, 1001),
        Err(ErrorCode::UserBlacklisted)
    );
}

#[test]
fn cooldown_applies_to_creation_only() {
    let u = UserState { questions_created: 0, last_operation_time: 1000, is_blacklisted: false };
    let m = marketplace();
    assert_eq!(
        check_admission(&m, &u, OperationType::CreateQuestion, 1059),
        Err(ErrorCode::RateLimitExceeded)
    );
    assert_eq!(check_admission(&m, &u, OperationType::CreateQuestion, 1060), Ok(()));
    assert_eq!(check_admission(&m, &u, OperationType::MintKey, 1000), Ok(()));
    assert_eq!(check_admission(&m, &u, OperationType::ListKey, 1000), Ok(()));
    assert_eq!(check_admission(&m, &u, OperationType::BuyKey, 1000), Ok(()));
}

#[test]
fn cooldown_is_measured_without_overflow() {
    let m = marketplace();
    let u = UserState { questions_created: 0, last_operation_time: i64::MIN, is_blacklisted: false };
    assert_eq!(check_admission(&m, &u, OperationType::CreateQuestion, i64::MAX), Ok(()));
    let u = UserState { questions_created: 0, last_operation_time: i64::MAX, is_blacklisted: false };
    assert_eq!(
        check_admission(&m, &u, OperationType::CreateQuestion, i64::MIN),
        Err(ErrorCode::RateLimitExceeded)
    );
}

#[test]
fn rate_limit_wins_over_quota() {
    let u = UserState { questions_created: 100, last_operation_time: 1000, is_blacklisted: false };
    assert_eq!(
        check_admission(&marketplace(), &u, OperationType::CreateQuestion, 1001),
        Err(ErrorCode::RateLimitExceeded)
    );
}

#[test]
fn user_at_quota_cannot_create_however_long_the_wait() {
    let u = UserState { questions_created: 100, last_operation_time: 0, is_blacklisted: false };
    for now in [60, 61, 3600, 1_000_000, i64::MAX] {
        assert_eq!(
            check_admission(&marketplace(), &u, OperationType::CreateQuestion, now),
            Err(ErrorCode::TooManyQuestions)
        );
    }
    let below = UserState { questions_created: 99, last_operation_time: 0, is_blacklisted: false };
    assert_eq!(check_admission(&marketplace(), &below, OperationType::CreateQuestion, 60), Ok(()));
}

#[test]
fn quota_does_not_bind_buyers_and_sellers() {
    let u = UserState { questions_created: 100, last_operation_time: 0, is_blacklisted: false };
    assert_eq!(check_admission(&marketplace(), &u, OperationType::MintKey, 0), Ok(()));
    assert_eq!(check_admission(&marketplace(), &u, OperationType::BuyKey, 0), Ok(()));
}

#[test]
fn paused_operations_toggle_and_report() {
    let mut switches = PausedOperations::default();
    for op in ALL {
        assert!(!switches.is_paused(op));
    }
    switches.toggle(OperationType::ListKey);
    assert!(switches.is_paused(OperationType::ListKey));
    assert!(!switches.is_paused(OperationType::CreateQuestion));
    assert!(!switches.is_paused(OperationType::MintKey));
    assert!(!switches.is_paused(OperationType::BuyKey));
    switches.toggle(OperationType::ListKey);
    assert_eq!(switches, PausedOperations::default());
}

#[test]
fn refusals_explain_themselves() {
    assert_eq!(ErrorCode::NumericalOverflow.message(), "Numerical overflow occurred");
    assert_eq!(ErrorCode::MarketplacePaused.message(), "Marketplace is paused");
    assert_eq!(ErrorCode::OperationPaused.message(), "Operation is paused");
    assert_eq!(ErrorCode::UserBlacklisted.message(), "User is blacklisted");
    assert_eq!(ErrorCode::RateLimitExceeded.message(), "Rate limit exceeded");
    assert_eq!(ErrorCode::TooManyQuestions.message(), "Too many questions created");
    assert_eq!(ErrorCode::AlreadyListed.message(), "Key is already listed");
    assert_eq!(ErrorCode::NotListed.message(), "Key not listed for sale");
    assert_eq!(ErrorCode::NotKeyOwner.message(), "Not the key owner");
    assert_eq!(ErrorCode::InsufficientFunds.message(), "Insufficient funds for transaction");
    assert_eq!(ErrorCode::TotalFeeTooHigh.message(), "Total fee percentage too high");
    assert_eq!(ErrorCode::ContentHashMismatch.message(), "Content hash mismatch with validation");
    assert_eq!(ErrorCode::InvalidCIDFormat.message(), "Invalid IPFS CID format");
}
