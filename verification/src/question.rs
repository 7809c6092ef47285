//! The creation of questions.

use vstd::prelude::*;
use crate::accounts::CreateQuestion;
use crate::content::{check_content, content_spec, ContentSubmission};
use crate::error::ErrorCode;
use crate::events::QuestionCreated;
use crate::fees::MAX_TOTAL_FEE_BPS;
use crate::admission::{check_admission, admission_spec};
use crate::identity::Identity;
use crate::state::{ContentReference, Marketplace, OperationType, Question, UserState};

verus! {

/// Why a question may not be created, if it may not. The checks are made in
/// this order and the first that fails decides: admission, the content, the
/// number of keys, the price, the marketplace's two rates taken together as
/// they are at this moment, and room for one more question in the
/// marketplace's counter.
pub open spec fn create_question_refusal(
    ctx: CreateQuestion,
    submission: ContentSubmission,
    unlock_price: u64,
    max_keys: u64,
    now: i64,
) -> Option<ErrorCode> {
    let total_fee_bps = ctx.marketplace.platform_fee_bps + ctx.marketplace.creator_royalty_bps;
    let admission = admission_spec(ctx.marketplace, ctx.user_state, OperationType::CreateQuestion, now);
    let content = content_spec(submission);
    if admission is Err {
        admission.err()
    } else if content is Err {
        content.err()
    } else if max_keys == 0 {
        Some(ErrorCode::InvalidKeyCount)
    } else if unlock_price == 0 {
        Some(ErrorCode::InvalidPrice)
    } else if total_fee_bps > u16::MAX {
        Some(ErrorCode::NumericalOverflow)
    } else if total_fee_bps > MAX_TOTAL_FEE_BPS {
        Some(ErrorCode::TotalFeeTooHigh)
    } else if ctx.marketplace.question_counter == u64::MAX {
        Some(ErrorCode::NumericalOverflow)
    } else {
        None
    }
}

/// What a question stores of a submission: the content itself or the
/// pointer to it.
pub open spec fn stored_reference(submission: ContentSubmission) -> ContentReference {
    match submission {
        ContentSubmission::Inline { content, encrypted_answer, validation, attestation } => {
            ContentReference::Inline { text: content, encrypted_answer }
        },
        ContentSubmission::Pointer { content_cid, content_hash } => {
            ContentReference::ExternalPointer { cid: content_cid, hash: content_hash }
        },
    }
}

/// The digest that a question stores: of the encrypted answer for inline
/// content, of the referenced content for a pointer.
pub open spec fn stored_hash(submission: ContentSubmission) -> [u8; 32] {
    match submission {
        ContentSubmission::Inline { content, encrypted_answer, validation, attestation } => {
            validation.answer_hash
        },
        ContentSubmission::Pointer { content_cid, content_hash } => content_hash,
    }
}

/// The validation time that a question stores: the time of creation for a
/// pointer; inline content carries its validation in the attested claims and
/// the record's own time stays 0.
pub open spec fn stored_validation_time(submission: ContentSubmission, now: i64) -> i64 {
    match submission {
        ContentSubmission::Inline { content, encrypted_answer, validation, attestation } => 0,
        ContentSubmission::Pointer { content_cid, content_hash } => now,
    }
}

/// The question that a creation yields: active, without keys or sales, with
/// the marketplace's counter as its index.
pub open spec fn created_question(
    ctx: CreateQuestion,
    submission: ContentSubmission,
    unlock_price: u64,
    max_keys: u64,
    now: i64,
) -> Question {
    Question {
        creator: ctx.creator,
        content_reference: stored_reference(submission),
        content_hash: stored_hash(submission),
        unlock_price,
        max_keys,
        current_keys: 0,
        index: ctx.marketplace.question_counter,
        creation_time: now,
        total_sales: 0,
        is_active: true,
        validation_timestamp: stored_validation_time(submission, now),
    }
}

/// The records after a creation: the marketplace has counted one more
/// question, and the user has one more question and has just acted.
pub open spec fn create_question_effect(ctx: CreateQuestion, now: i64) -> CreateQuestion {
    CreateQuestion {
        marketplace: Marketplace {
            question_counter: (ctx.marketplace.question_counter + 1) as u64,
            ..ctx.marketplace
        },
        user_state: UserState {
            questions_created: (ctx.user_state.questions_created + 1) as u64,
            last_operation_time: now,
            ..ctx.user_state
        },
        ..ctx
    }
}

/// Creates a question from `submission`, priced at `unlock_price`, with
/// `max_keys` keys on offer, at time `now`. Returns the new question and the
/// event that announces it.
pub fn create_question(
    ctx: &mut CreateQuestion,
    submission: ContentSubmission,
    unlock_price: u64,
    max_keys: u64,
    now: i64,
) -> (result: Result<(Question, QuestionCreated), ErrorCode>)
    ensures
        match result {
            Ok((question, event)) => {
                &&& create_question_refusal(*old(ctx), submission, unlock_price, max_keys, now)
                    is None
                &&& *final(ctx) == create_question_effect(*old(ctx), now)
                &&& question == created_question(*old(ctx), submission, unlock_price, max_keys, now)
                &&& question.well_formed()
                &&& final(ctx).user_state.within_quota()
                &&& event == (QuestionCreated {
                    question_id: old(ctx).marketplace.question_counter,
                    creator: old(ctx).creator,
                    unlock_price,
                    max_keys,
                    creation_time: now,
                })
            },
            Err(e) => {
                &&& create_question_refusal(*old(ctx), submission, unlock_price, max_keys, now)
                    == Some(e)
                &&& *final(ctx) == *old(ctx)
            },
        },
{
    check_admission(&ctx.marketplace, &ctx.user_state, OperationType::CreateQuestion, now)?;
    check_content(&submission)?;
    if max_keys == 0 {
        return Err(ErrorCode::InvalidKeyCount);
    }
    if unlock_price == 0 {
        return Err(ErrorCode::InvalidPrice);
    }
    let total_fee_bps: u16 = match ctx.marketplace.platform_fee_bps.checked_add(
        ctx.marketplace.creator_royalty_bps,
    ) {
        Some(total) => total,
        None => { return Err(ErrorCode::NumericalOverflow); },
    };
    if total_fee_bps > MAX_TOTAL_FEE_BPS {
        return Err(ErrorCode::TotalFeeTooHigh);
    }
    let index: u64 = ctx.marketplace.question_counter;
    let next_index: u64 = match index.checked_add(1) {
        Some(next) => next,
        None => { return Err(ErrorCode::NumericalOverflow); },
    };
    let creator: Identity = ctx.creator;
    let question = match submission {
        ContentSubmission::Inline { content, encrypted_answer, validation, attestation } => Question {
            creator,
            content_reference: ContentReference::Inline { text: content, encrypted_answer },
            content_hash: validation.answer_hash,
            unlock_price,
            max_keys,
            current_keys: 0,
            index,
            creation_time: now,
            total_sales: 0,
            is_active: true,
            validation_timestamp: 0,
        },
        ContentSubmission::Pointer { content_cid, content_hash } => Question {
            creator,
            content_reference: ContentReference::ExternalPointer {
                cid: content_cid,
                hash: content_hash,
            },
            content_hash,
            unlock_price,
            max_keys,
            current_keys: 0,
            index,
            creation_time: now,
            total_sales: 0,
            is_active: true,
            validation_timestamp: now,
        },
    };
    ctx.marketplace.question_counter = next_index;
    ctx.user_state.questions_created = ctx.user_state.questions_created + 1;
    ctx.user_state.last_operation_time = now;
    let event = QuestionCreated {
        question_id: index,
        creator,
        unlock_price,
        max_keys,
        creation_time: now,
    };
    Ok((question, event))
}

} // verus!
