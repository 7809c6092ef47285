//! Checks on submitted content: lengths, digests, character sets and the
//! validator's attestation. Each mismatch has an error of its own.

use vstd::prelude::*;
use vstd::string::StringSliceAdditionalSpecFns;
use vstd::utf8::{encode_utf8, is_ascii_chars};
use crate::attestation::{
    attestation_spec, verify_validator_signature, Attestation, ContentValidation,
};
use crate::digest::{hash_bytes, sha256};
use crate::error::ErrorCode;
use crate::identity::digests_equal;

verus! {

/// The longest question text, in bytes.
pub const MAX_QUESTION_CONTENT_LENGTH: usize = 1000;

/// The longest encrypted answer, in bytes.
pub const MAX_ANSWER_LENGTH: usize = 5000;

/// The shortest content identifier, in bytes.
pub const IPFS_CID_LENGTH: usize = 46;

/// The longest content identifier, in bytes.
pub const MAX_CID_LENGTH: usize = 64;

/// What a creator submits as the content of a new question.
#[derive(Clone, Debug, PartialEq, Eq)]
pub enum ContentSubmission {
    /// The text and the encrypted answer themselves, with a validator's
    /// claims about them and the verifier's verdict on those claims.
    Inline {
        content: String,
        encrypted_answer: Vec<u8>,
        validation: ContentValidation,
        attestation: Attestation,
    },
    /// An identifier of content stored elsewhere, and the digest of it.
    Pointer { content_cid: String, content_hash: [u8; 32] },
}

/// The characters of a content identifier: ASCII letters and digits, `-`
/// and `_`.
pub open spec fn is_cid_char(c: char) -> bool {
    ||| '0' <= c <= '9'
    ||| 'a' <= c <= 'z'
    ||| 'A' <= c <= 'Z'
    ||| c == '-'
    ||| c == '_'
}

/// A content identifier is accepted when its encoding is between
/// `IPFS_CID_LENGTH` and `MAX_CID_LENGTH` bytes long and all its characters
/// are of the identifier alphabet.
pub open spec fn cid_spec(cid: Seq<char>) -> Result<(), ErrorCode> {
    let length = encode_utf8(cid).len();
    if length < IPFS_CID_LENGTH || length > MAX_CID_LENGTH {
        Err(ErrorCode::InvalidCIDFormat)
    } else if !(forall|i: int| 0 <= i < cid.len() ==> is_cid_char(#[trigger] cid[i])) {
        Err(ErrorCode::InvalidCIDFormat)
    } else {
        Ok(())
    }
}

/// Whether `byte` encodes a character of the identifier alphabet.
fn is_cid_byte(byte: u8) -> (ok: bool)
    ensures
        ok == is_cid_char(byte as char),
{
    (byte >= 0x30 && byte <= 0x39) || (byte >= 0x61 && byte <= 0x7a) || (byte >= 0x41 && byte
        <= 0x5a) || byte == 0x2d || byte == 0x5f
}

/// Checks the length and the alphabet of a content identifier.
pub fn check_cid(cid: &str) -> (verdict: Result<(), ErrorCode>)
    ensures
        verdict == cid_spec(cid@),
{
    let bytes: &[u8] = cid.as_bytes();
    let length: usize = bytes.len();
    if length < IPFS_CID_LENGTH || length > MAX_CID_LENGTH {
        return Err(ErrorCode::InvalidCIDFormat);
    }
    if !cid.is_ascii() {
        proof {
            let i = choose|i: int| 0 <= i < cid@.len() && !('\0' <= #[trigger] cid@[i] <= '\u{7f}');
            assert(!is_cid_char(cid@[i]));
        }
        return Err(ErrorCode::InvalidCIDFormat);
    }
    proof {
        vstd::string::is_ascii_spec_bytes(cid);
    }
    let mut i: usize = 0;
    while i < bytes.len()
        invariant
            i <= bytes@.len(),
            bytes@.len() == cid@.len(),
            is_ascii_chars(cid@),
            forall|j: int| 0 <= j < bytes@.len() ==> bytes@[j] == cid@[j] as u8,
            forall|j: int| 0 <= j < i ==> is_cid_char(#[trigger] cid@[j]),
        decreases bytes@.len() - i,
    {
        let ghost c: char = cid@[i as int];
        assert('\0' <= c <= '\u{7f}');
        assert(bytes@[i as int] == c as u8);
        assert((c as u8) as char == c);
        if !is_cid_byte(bytes[i]) {
            assert(!is_cid_char(cid@[i as int]));
            return Err(ErrorCode::InvalidCIDFormat);
        }
        i = i + 1;
    }
    Ok(())
}

/// The verdict on inline content, given what was measured of it: the length
/// of the text in bytes, whether the text is ASCII, and the digests of the
/// text and of the encrypted answer. The checks are made in this order and
/// the first that fails decides: the attestation, the claimed text length,
/// the claimed text digest, the claimed answer digest, the maximum text
/// length, the maximum answer length, the character set.
pub open spec fn inline_claims_spec(
    content_length: nat,
    content_ascii: bool,
    content_digest: Seq<u8>,
    answer_digest: Seq<u8>,
    validation: ContentValidation,
    attestation: Attestation,
) -> Result<(), ErrorCode> {
    if attestation_spec(attestation) is Err {
        Err(ErrorCode::InvalidValidatorSignature)
    } else if content_length != validation.question_length {
        Err(ErrorCode::ContentLengthMismatch)
    } else if content_digest != validation.content_hash@ {
        Err(ErrorCode::ContentHashMismatch)
    } else if answer_digest != validation.answer_hash@ {
        Err(ErrorCode::AnswerHashMismatch)
    } else if validation.question_length > MAX_QUESTION_CONTENT_LENGTH {
        Err(ErrorCode::ContentTooLong)
    } else if validation.answer_length > MAX_ANSWER_LENGTH {
        Err(ErrorCode::AnswerTooLong)
    } else if !content_ascii {
        Err(ErrorCode::InvalidCharacters)
    } else {
        Ok(())
    }
}

/// Holds the measured length, character set and digests of inline content
/// against the validator's claims.
pub fn check_inline_claims(
    content_length: usize,
    content_ascii: bool,
    content_digest: &[u8; 32],
    answer_digest: &[u8; 32],
    validation: &ContentValidation,
    attestation: Attestation,
) -> (verdict: Result<(), ErrorCode>)
    ensures
        verdict == inline_claims_spec(
            content_length as nat,
            content_ascii,
            content_digest@,
            answer_digest@,
            *validation,
            attestation,
        ),
{
    verify_validator_signature(attestation)?;
    if content_length as u64 != validation.question_length as u64 {
        return Err(ErrorCode::ContentLengthMismatch);
    }
    if !digests_equal(content_digest, &validation.content_hash) {
        return Err(ErrorCode::ContentHashMismatch);
    }
    if !digests_equal(answer_digest, &validation.answer_hash) {
        return Err(ErrorCode::AnswerHashMismatch);
    }
    if validation.question_length as u64 > MAX_QUESTION_CONTENT_LENGTH as u64 {
        return Err(ErrorCode::ContentTooLong);
    }
    if validation.answer_length as u64 > MAX_ANSWER_LENGTH as u64 {
        return Err(ErrorCode::AnswerTooLong);
    }
    if !content_ascii {
        return Err(ErrorCode::InvalidCharacters);
    }
    Ok(())
}

/// The verdict on inline content: that of `inline_claims_spec` on the length
/// of the text's encoding, on whether the text is ASCII, and on the SHA-256
/// digests of the text's encoding and of the encrypted answer.
pub open spec fn inline_content_spec(
    content: Seq<char>,
    encrypted_answer: Seq<u8>,
    validation: ContentValidation,
    attestation: Attestation,
) -> Result<(), ErrorCode> {
    inline_claims_spec(
        encode_utf8(content).len(),
        is_ascii_chars(content),
        sha256(encode_utf8(content)),
        sha256(encrypted_answer),
        validation,
        attestation,
    )
}

/// Measures inline content and holds it against the validator's claims.
pub fn check_inline_content(
    content: &str,
    encrypted_answer: &[u8],
    validation: &ContentValidation,
    attestation: Attestation,
) -> (verdict: Result<(), ErrorCode>)
    ensures
        verdict == inline_content_spec(content@, encrypted_answer@, *validation, attestation),
{
    let content_bytes: &[u8] = content.as_bytes();
    let content_digest: [u8; 32] = hash_bytes(content_bytes);
    let answer_digest: [u8; 32] = hash_bytes(encrypted_answer);
    check_inline_claims(
        content_bytes.len(),
        content.is_ascii(),
        &content_digest,
        &answer_digest,
        validation,
        attestation,
    )
}

/// The verdict on a submission, by its kind.
pub open spec fn content_spec(submission: ContentSubmission) -> Result<(), ErrorCode> {
    match submission {
        ContentSubmission::Inline { content, encrypted_answer, validation, attestation } => {
            inline_content_spec(content@, encrypted_answer@, validation, attestation)
        },
        ContentSubmission::Pointer { content_cid, content_hash } => cid_spec(content_cid@),
    }
}

/// Checks a submission before a question is created from it.
pub fn check_content(submission: &ContentSubmission) -> (verdict: Result<(), ErrorCode>)
    ensures
        verdict == content_spec(*submission),
{
    match submission {
        ContentSubmission::Inline { content, encrypted_answer, validation, attestation } => {
            check_inline_content(
                content.as_str(),
                encrypted_answer.as_slice(),
                validation,
                *attestation,
            )
        },
        ContentSubmission::Pointer { content_cid, content_hash } => check_cid(content_cid.as_str()),
    }
}

} // verus!
