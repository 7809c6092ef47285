//! The claims that a validator makes about inline content, and the exact
//! bytes that the validator signs.
//!
//! Checking the signature is the work of an outside verifier. This module
//! builds what is handed to it; its verdict comes back as an
//! [`Attestation`].

use vstd::prelude::*;
use crate::error::ErrorCode;

verus! {

/// Length of a validator's public key, in bytes.
pub const ED25519_PUBLIC_KEY_LENGTH: usize = 32;

/// Length of a validator's signature, in bytes.
pub const ED25519_SIGNATURE_LENGTH: usize = 64;

/// Length of the message that a validator signs, in bytes.
pub const ATTESTATION_MESSAGE_LENGTH: usize = 80;

/// What a validator claims of a question's content.
#[derive(Clone, Copy, Debug, PartialEq, Eq)]
pub struct ContentValidation {
    /// The length of the question text, in bytes.
    pub question_length: u32,
    /// The length of the encrypted answer, in bytes.
    pub answer_length: u32,
    /// The digest of the question text.
    pub content_hash: [u8; 32],
    /// The digest of the encrypted answer.
    pub answer_hash: [u8; 32],
    /// When the validator looked at the content.
    pub timestamp: i64,
    /// The validator's signature over the message made of the fields above.
    pub validator_signature: [u8; 64],
}

/// What the outside verifier said of a validator's signature.
#[derive(Clone, Copy, Debug, PartialEq, Eq, Structural)]
pub enum Attestation {
    /// No attestation is asked for.
    NotRequired,
    /// The signature is valid over the message, under the validator's key.
    Accepted,
    /// The signature is not valid.
    Rejected,
}

/// What a verdict means for the content it is about: content whose
/// attestation was rejected is refused, any other goes on to be checked.
pub open spec fn attestation_spec(attestation: Attestation) -> Result<(), ErrorCode> {
    if attestation == Attestation::Rejected {
        Err(ErrorCode::InvalidValidatorSignature)
    } else {
        Ok(())
    }
}

/// Refuses content whose attestation the verifier rejected.
pub fn verify_validator_signature(attestation: Attestation) -> (verdict: Result<(), ErrorCode>)
    ensures
        verdict == attestation_spec(attestation),
{
    match attestation {
        Attestation::Rejected => Err(ErrorCode::InvalidValidatorSignature),
        Attestation::NotRequired => Ok(()),
        Attestation::Accepted => Ok(()),
    }
}

/// The `width` low-order bytes of `value`, least significant first.
pub open spec fn le_bytes(value: nat, width: nat) -> Seq<u8>
    decreases width,
{
    if width == 0 {
        Seq::empty()
    } else {
        seq![(value % 256) as u8] + le_bytes(value / 256, (width - 1) as nat)
    }
}

/// A signed 64-bit number as the unsigned number with the same bits.
pub open spec fn twos_complement(value: i64) -> nat {
    if value >= 0 {
        value as nat
    } else {
        (value + 0x1_0000_0000_0000_0000) as nat
    }
}

/// The message that a validator signs: both lengths, both digests and the
/// timestamp, in this order, numbers with their least significant byte first.
pub open spec fn attestation_message_spec(validation: ContentValidation) -> Seq<u8> {
    le_bytes(validation.question_length as nat, 4) + le_bytes(validation.answer_length as nat, 4)
        + validation.content_hash@ + validation.answer_hash@ + le_bytes(
        twos_complement(validation.timestamp),
        8,
    )
}

/// What is handed to the verifier: the validator's key, the signature, and
/// the signed message.
pub open spec fn verification_request_spec(
    validation: ContentValidation,
    validator_pubkey: [u8; 32],
) -> Seq<u8> {
    validator_pubkey@ + validation.validator_signature@ + attestation_message_spec(validation)
}

/// `le_bytes` has the length it was asked for.
pub proof fn lemma_le_bytes_len(value: nat, width: nat)
    ensures
        le_bytes(value, width).len() == width,
    decreases width,
{
    if width > 0 {
        lemma_le_bytes_len(value / 256, (width - 1) as nat);
    }
}

/// Appends the `width` low-order bytes of `value` to `out`, least significant
/// first. Beyond the eighth byte every byte is zero.
pub fn push_le_bytes(out: &mut Vec<u8>, value: u64, width: usize)
    ensures
        final(out)@ == old(out)@ + le_bytes(value as nat, width as nat),
{
    let ghost start: Seq<u8> = out@;
    let ghost mut written: Seq<u8> = Seq::empty();
    let mut rest: u64 = value;
    let mut done: usize = 0;
    assert(start + written =~= start);
    assert(written + le_bytes(value as nat, width as nat) =~= le_bytes(value as nat, width as nat));
    while done < width
        invariant
            done <= width,
            out@ == start + written,
            written + le_bytes(rest as nat, (width - done) as nat) == le_bytes(
                value as nat,
                width as nat,
            ),
        decreases width - done,
    {
        let byte: u8 = (rest % 256) as u8;
        out.push(byte);
        proof {
            let next: Seq<u8> = written + seq![byte];
            assert(le_bytes(rest as nat, (width - done) as nat) == seq![byte] + le_bytes(
                (rest / 256) as nat,
                (width - done - 1) as nat,
            ));
            assert(next + le_bytes((rest / 256) as nat, (width - done - 1) as nat) =~= written
                + le_bytes(rest as nat, (width - done) as nat));
            assert(out@ =~= start + next);
            written = next;
        }
        rest = rest / 256;
        done = done + 1;
    }
    assert(written + Seq::<u8>::empty() =~= written);
}

/// Appends `bytes` to `out`.
pub fn push_bytes(out: &mut Vec<u8>, bytes: &[u8])
    ensures
        final(out)@ == old(out)@ + bytes@,
{
    let ghost start: Seq<u8> = out@;
    let mut i: usize = 0;
    assert(start + bytes@.take(0) =~= start);
    while i < bytes.len()
        invariant
            i <= bytes@.len(),
            out@ == start + bytes@.take(i as int),
        decreases bytes@.len() - i,
    {
        out.push(bytes[i]);
        assert(out@ =~= start + bytes@.take(i + 1));
        i = i + 1;
    }
    assert(bytes@.take(i as int) =~= bytes@);
}

/// The unsigned number with the same bits as `value`.
pub fn to_twos_complement(value: i64) -> (bits: u64)
    ensures
        bits as nat == twos_complement(value),
{
    if value >= 0 {
        value as u64
    } else {
        let above_min: u64 = (value - i64::MIN) as u64;
        above_min + 0x8000_0000_0000_0000u64
    }
}

/// Builds the message that a validator signs over `validation`.
pub fn attestation_message(validation: &ContentValidation) -> (message: Vec<u8>)
    ensures
        message@ == attestation_message_spec(*validation),
        message@.len() == ATTESTATION_MESSAGE_LENGTH,
{
    let mut message: Vec<u8> = Vec::new();
    assert(message@ + le_bytes(validation.question_length as nat, 4) =~= le_bytes(
        validation.question_length as nat,
        4,
    ));
    push_le_bytes(&mut message, validation.question_length as u64, 4);
    push_le_bytes(&mut message, validation.answer_length as u64, 4);
    push_bytes(&mut message, validation.content_hash.as_slice());
    push_bytes(&mut message, validation.answer_hash.as_slice());
    push_le_bytes(&mut message, to_twos_complement(validation.timestamp), 8);
    proof {
        lemma_le_bytes_len(validation.question_length as nat, 4);
        lemma_le_bytes_len(validation.answer_length as nat, 4);
        lemma_le_bytes_len(twos_complement(validation.timestamp), 8);
    }
    message
}

/// Builds what is handed to the verifier of a validator's signature: the
/// validator's key, then the signature, then the signed message.
pub fn verification_request(validation: &ContentValidation, validator_pubkey: &[u8; 32]) -> (request:
    Vec<u8>)
    ensures
        request@ == verification_request_spec(*validation, *validator_pubkey),
        request@.len() == ED25519_PUBLIC_KEY_LENGTH + ED25519_SIGNATURE_LENGTH
            + ATTESTATION_MESSAGE_LENGTH,
{
    let mut request: Vec<u8> = Vec::new();
    assert(request@ + validator_pubkey@ =~= validator_pubkey@);
    push_bytes(&mut request, validator_pubkey.as_slice());
    push_bytes(&mut request, validation.validator_signature.as_slice());
    let message: Vec<u8> = attestation_message(validation);
    push_bytes(&mut request, message.as_slice());
    request
}

} // verus!
