//! Admission: what every mutating operation is held against before anything
//! else: pause switches, blacklist and, for creation, rate limit and quota.

use vstd::prelude::*;
use crate::error::ErrorCode;
use crate::state::{
    Marketplace, OperationType, UserState, MAX_QUESTIONS_PER_USER, OPERATION_COOLDOWN,
};

verus! {

/// Whether `operation` is admitted, attempted by the user of
/// `user_state` at time `now`. The checks are made in this order and the
/// first that fails decides: global pause, the operation's own pause,
/// blacklist, and for the creation of a question the cooldown since the
/// user's last operation and the user's quota.
pub open spec fn admission_spec(
    marketplace: Marketplace,
    user_state: UserState,
    operation: OperationType,
    now: i64,
) -> Result<(), ErrorCode> {
    if marketplace.paused {
        Err(ErrorCode::MarketplacePaused)
    } else if marketplace.paused_operations.paused(operation) {
        Err(ErrorCode::OperationPaused)
    } else if user_state.is_blacklisted {
        Err(ErrorCode::UserBlacklisted)
    } else if operation == OperationType::CreateQuestion && now - user_state.last_operation_time
        < OPERATION_COOLDOWN {
        Err(ErrorCode::RateLimitExceeded)
    } else if operation == OperationType::CreateQuestion && user_state.questions_created
        >= MAX_QUESTIONS_PER_USER {
        Err(ErrorCode::TooManyQuestions)
    } else {
        Ok(())
    }
}

/// Decides whether `operation` may go ahead. Nothing is changed: the caller
/// stamps the user's state once the operation has succeeded.
pub fn check_admission(
    marketplace: &Marketplace,
    user_state: &UserState,
    operation: OperationType,
    now: i64,
) -> (verdict: Result<(), ErrorCode>)
    ensures
        verdict == admission_spec(*marketplace, *user_state, operation, now),
{
    if marketplace.paused {
        return Err(ErrorCode::MarketplacePaused);
    }
    if marketplace.paused_operations.is_paused(operation) {
        return Err(ErrorCode::OperationPaused);
    }
    if user_state.is_blacklisted {
        return Err(ErrorCode::UserBlacklisted);
    }
    match operation {
        OperationType::CreateQuestion => {
            let elapsed: i128 = now as i128 - user_state.last_operation_time as i128;
            if elapsed < OPERATION_COOLDOWN as i128 {
                return Err(ErrorCode::RateLimitExceeded);
            }
            if user_state.questions_created >= MAX_QUESTIONS_PER_USER {
                return Err(ErrorCode::TooManyQuestions);
            }
            Ok(())
        },
        _ => Ok(()),
    }
}

/// The pause check of the operations that have no switch of their own.
pub open spec fn pause_spec(marketplace: Marketplace) -> Result<(), ErrorCode> {
    if marketplace.paused {
        Err(ErrorCode::MarketplacePaused)
    } else {
        Ok(())
    }
}

/// Refuses while the global pause switch is on.
pub fn check_not_paused(marketplace: &Marketplace) -> (verdict: Result<(), ErrorCode>)
    ensures
        verdict == pause_spec(*marketplace),
{
    if marketplace.paused {
        Err(ErrorCode::MarketplacePaused)
    } else {
        Ok(())
    }
}

} // verus!
