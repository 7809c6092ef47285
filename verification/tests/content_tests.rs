use myqa::attestation::{
    attestation_message, push_bytes, push_le_bytes, to_twos_complement, verification_request,
    verify_validator_signature, Attestation, ContentValidation,
};
use myqa::content::{
    check_cid, check_content, check_inline_claims, check_inline_content, ContentSubmission,
    IPFS_CID_LENGTH, MAX_ANSWER_LENGTH, MAX_CID_LENGTH, MAX_QUESTION_CONTENT_LENGTH,
};
use myqa::error::ErrorCode;

fn hex(text: &str) -> [u8; 32] {
    let mut out = [0u8; 32];
    for i in 0..32 {
        out[i] = u8::from_str_radix(&text[2 * i..2 * i + 2], 16).unwrap();
    }
    out
}

const SHA_ABC: &str = "ba7816bf8f01cfea414140de5dae2223b00361a396177a9cb410ff61f20015ad";
const SHA_EMPTY: &str = "e3b0c44298fc1c149afbf4c8996fb92427ae41e4649b934ca495991b7852b855";
const SHA_E_ACUTE: &str = "4a99557e4033c3539de2eb65472017cad5f9557f7a0625a09f1c3f6e2ba69c4c";
const SHA_1234: &str = "9f64a747e1b97f131fabb6b447296c9b6f0201e79fb3c5356e6c77e89b6a806a";
const SHA_1000_X: &str = "44f8354494a5ba03ba1792a8d3e9c534c47a9181980fde7a3f44b06ef2ae7c7f";
const SHA_1001_X: &str = "cbe4a2e86e808c9b51174c17d56b401791a6282036247a95c3fb2098f098ff79";

fn claims(question_length: u32, content_hash: &str, answer_hash: &str) -> ContentValidation {
    ContentValidation {
        question_length,
        answer_length: 4,
        content_hash: hex(content_hash),
        answer_hash: hex(answer_hash),
        timestamp: 1_700_000_000,
        validator_signature: [7u8; 64],
    }
}

#[test]
fn content_limits_have_their_values() {
    assert_eq!(MAX_QUESTION_CONTENT_LENGTH, 1000);
    assert_eq!(MAX_ANSWER_LENGTH, 5000);
    assert_eq!(IPFS_CID_LENGTH, 46);
    assert_eq!(MAX_CID_LENGTH, 64);
}

#[test]
fn cid_of_46_to_64_identifier_characters_is_accepted() {
    assert_eq!(check_cid("QmYwAPJzv5CZsnA625s3Xf2nemtYgPpHdWEz79ojWnPbdG"), Ok(()));
    assert_eq!(check_cid(&"a".repeat(46)), Ok(()));
    assert_eq!(check_cid(&"Z".repeat(64)), Ok(()));
    assert_eq!(check_cid(&"0-_9azAZ".repeat(8)), Ok(()));
}

#[test]
fn cid_of_wrong_length_is_refused() {
    assert_eq!(check_cid(""), Err(ErrorCode::InvalidCIDFormat));
    assert_eq!(check_cid(&"a".repeat(45)), Err(ErrorCode::InvalidCIDFormat));
    assert_eq!(check_cid(&"a".repeat(65)), Err(ErrorCode::InvalidCIDFormat));
}

#[test]
fn cid_with_a_character_outside_the_alphabet_is_refused() {
    for bad in ['/', ' ', '.', '+', '=', '@', '[', '`', '{', ':', '\0', '\u{7f}'] {
        let mut cid = "a".repeat(45);
        cid.push(bad);
        assert_eq!(check_cid(&cid), Err(ErrorCode::InvalidCIDFormat));
        let mut cid = String::new();
        cid.push(bad);
        cid.push_str(&"b".repeat(50));
        assert_eq!(check_cid(&cid), Err(ErrorCode::InvalidCIDFormat));
    }
}

#[test]
fn cid_with_a_character_outside_ascii_is_refused() {
    // 44 letters and one two-byte character: 46 bytes.
    let mut cid = "a".repeat(44);
    cid.push('é');
    assert_eq!(cid.len(), 46);
    assert_eq!(check_cid(&cid), Err(ErrorCode::InvalidCIDFormat));
}

#[test]
fn inline_content_matching_its_claims_is_accepted() {
    let validation = claims(3, SHA_ABC, SHA_1234);
    for attestation in [Attestation::NotRequired, Attestation::Accepted] {
        assert_eq!(check_inline_content("abc", &[1, 2, 3, 4], &validation, attestation), Ok(()));
    }
}

#[test]
fn empty_inline_content_is_hashed_too() {
    let validation = claims(0, SHA_EMPTY, SHA_EMPTY);
    assert_eq!(check_inline_content("", &[], &validation, Attestation::NotRequired), Ok(()));
}

#[test]
fn rejected_attestation_is_reported_first() {
    let validation = claims(99, SHA_EMPTY, SHA_EMPTY);
    assert_eq!(
        check_inline_content("abc", &[1, 2, 3, 4], &validation, Attestation::Rejected),
        Err(ErrorCode::InvalidValidatorSignature)
    );
}

#[test]
fn wrong_length_claim_is_reported_before_the_digests() {
    let validation = claims(4, SHA_EMPTY, SHA_EMPTY);
    assert_eq!(
        check_inline_content("abc", &[1, 2, 3, 4], &validation, Attestation::Accepted),
        Err(ErrorCode::ContentLengthMismatch)
    );
}

#[test]
fn wrong_text_digest_is_reported() {
    let validation = claims(3, SHA_EMPTY, SHA_1234);
    assert_eq!(
        check_inline_content("abc", &[1, 2, 3, 4], &validation, Attestation::Accepted),
        Err(ErrorCode::ContentHashMismatch)
    );
    // The text itself is not its digest.
    let mut text_as_digest = [0u8; 32];
    text_as_digest[..3].copy_from_slice(b"abc");
    let mut validation = claims(3, SHA_ABC, SHA_1234);
    validation.content_hash = text_as_digest;
    assert_eq!(
        check_inline_content("abc", &[1, 2, 3, 4], &validation, Attestation::Accepted),
        Err(ErrorCode::ContentHashMismatch)
    );
}

#[test]
fn digest_differing_in_the_last_byte_is_a_mismatch() {
    let mut validation = claims(3, SHA_ABC, SHA_1234);
    validation.content_hash[31] ^= 1;
    assert_eq!(
        check_inline_content("abc", &[1, 2, 3, 4], &validation, Attestation::Accepted),
        Err(ErrorCode::ContentHashMismatch)
    );
    let mut validation = claims(3, SHA_ABC, SHA_1234);
    validation.answer_hash[31] ^= 1;
    assert_eq!(
        check_inline_content("abc", &[1, 2, 3, 4], &validation, Attestation::Accepted),
        Err(ErrorCode::AnswerHashMismatch)
    );
}

#[test]
fn wrong_answer_digest_is_reported() {
    let validation = claims(3, SHA_ABC, SHA_EMPTY);
    assert_eq!(
        check_inline_content("abc", &[1, 2, 3, 4], &validation, Attestation::Accepted),
        Err(ErrorCode::AnswerHashMismatch)
    );
}

#[test]
fn text_of_1000_bytes_is_accepted_and_of_1001_refused() {
    let validation = claims(1000, SHA_1000_X, SHA_1234);
    assert_eq!(
        check_inline_content(&"x".repeat(1000), &[1, 2, 3, 4], &validation, Attestation::Accepted),
        Ok(())
    );
    let validation = claims(1001, SHA_1001_X, SHA_1234);
    assert_eq!(
        check_inline_content(&"x".repeat(1001), &[1, 2, 3, 4], &validation, Attestation::Accepted),
        Err(ErrorCode::ContentTooLong)
    );
}

#[test]
fn claimed_answer_length_above_the_maximum_is_refused() {
    let mut validation = claims(3, SHA_ABC, SHA_1234);
    validation.answer_length = 5000;
    assert_eq!(
        check_inline_content("abc", &[1, 2, 3, 4], &validation, Attestation::Accepted),
        Ok(())
    );
    validation.answer_length = 5001;
    assert_eq!(
        check_inline_content("abc", &[1, 2, 3, 4], &validation, Attestation::Accepted),
        Err(ErrorCode::AnswerTooLong)
    );
}

#[test]
fn text_outside_ascii_is_refused_after_its_digest_matched() {
    let validation = claims(2, SHA_E_ACUTE, SHA_1234);
    assert_eq!(
        check_inline_content("é", &[1, 2, 3, 4], &validation, Attestation::Accepted),
        Err(ErrorCode::InvalidCharacters)
    );
    // The claimed length counts bytes, not characters.
    let validation = claims(1, SHA_E_ACUTE, SHA_1234);
    assert_eq!(
        check_inline_content("é", &[1, 2, 3, 4], &validation, Attestation::Accepted),
        Err(ErrorCode::ContentLengthMismatch)
    );
}

#[test]
fn claims_are_checked_in_order_on_measured_values() {
    let validation = claims(3, SHA_ABC, SHA_1234);
    let text = hex(SHA_ABC);
    let answer = hex(SHA_1234);
    let other = hex(SHA_EMPTY);
    let ok = Attestation::Accepted;
    assert_eq!(check_inline_claims(3, true, &text, &answer, &validation, ok), Ok(()));
    assert_eq!(
        check_inline_claims(4, false, &other, &other, &validation, Attestation::Rejected),
        Err(ErrorCode::InvalidValidatorSignature)
    );
    assert_eq!(
        check_inline_claims(4, false, &other, &other, &validation, ok),
        Err(ErrorCode::ContentLengthMismatch)
    );
    assert_eq!(
        check_inline_claims(3, false, &other, &other, &validation, ok),
        Err(ErrorCode::ContentHashMismatch)
    );
    assert_eq!(
        check_inline_claims(3, false, &text, &other, &validation, ok),
        Err(ErrorCode::AnswerHashMismatch)
    );
    assert_eq!(
        check_inline_claims(3, false, &text, &answer, &validation, ok),
        Err(ErrorCode::InvalidCharacters)
    );
    let mut long = claims(1001, SHA_ABC, SHA_1234);
    long.answer_length = 6000;
    assert_eq!(
        check_inline_claims(1001, false, &text, &answer, &long, ok),
        Err(ErrorCode::ContentTooLong)
    );
    long.question_length = 1000;
    assert_eq!(
        check_inline_claims(1000, false, &text, &answer, &long, ok),
        Err(ErrorCode::AnswerTooLong)
    );
}

#[test]
fn submissions_are_checked_by_their_kind() {
    let inline = ContentSubmission::Inline {
        content: "abc".to_string(),
        encrypted_answer: vec![1, 2, 3, 4],
        validation: claims(3, SHA_ABC, SHA_1234),
        attestation: Attestation::Accepted,
    };
    assert_eq!(check_content(&inline), Ok(()));
    let bad_inline = ContentSubmission::Inline {
        content: "abd".to_string(),
        encrypted_answer: vec![1, 2, 3, 4],
        validation: claims(3, SHA_ABC, SHA_1234),
        attestation: Attestation::Accepted,
    };
    assert_eq!(check_content(&bad_inline), Err(ErrorCode::ContentHashMismatch));
    let pointer = ContentSubmission::Pointer {
        content_cid: "QmYwAPJzv5CZsnA625s3Xf2nemtYgPpHdWEz79ojWnPbdG".to_string(),
        content_hash: [0u8; 32],
    };
    assert_eq!(check_content(&pointer), Ok(()));
    let bad_pointer =
        ContentSubmission::Pointer { content_cid: "short".to_string(), content_hash: [0u8; 32] };
    assert_eq!(check_content(&bad_pointer), Err(ErrorCode::InvalidCIDFormat));
}

#[test]
fn numbers_are_written_least_significant_byte_first() {
    let mut out = vec![0xffu8];
    push_le_bytes(&mut out, 0x0102_0304, 4);
    assert_eq!(out, vec![0xff, 0x04, 0x03, 0x02, 0x01]);
    push_le_bytes(&mut out, 0x1122_3344_5566_7788, 8);
    assert_eq!(
        out,
        vec![0xff, 0x04, 0x03, 0x02, 0x01, 0x88, 0x77, 0x66, 0x55, 0x44, 0x33, 0x22, 0x11]
    );
    let mut out = Vec::new();
    push_le_bytes(&mut out, 0x1234, 0);
    assert!(out.is_empty());
    push_le_bytes(&mut out, 0x1234, 1);
    assert_eq!(out, vec![0x34]);
    push_bytes(&mut out, &[9, 8]);
    assert_eq!(out, vec![0x34, 9, 8]);
    let mut out = Vec::new();
    push_le_bytes(&mut out, 0x0102, 10);
    assert_eq!(out, vec![0x02, 0x01, 0, 0, 0, 0, 0, 0, 0, 0]);
}

#[test]
fn negative_times_are_written_in_twos_complement() {
    assert_eq!(to_twos_complement(0), 0);
    assert_eq!(to_twos_complement(5), 5);
    assert_eq!(to_twos_complement(-1), u64::MAX);
    assert_eq!(to_twos_complement(i64::MIN), 1u64 << 63);
    assert_eq!(to_twos_complement(i64::MAX), (1u64 << 63) - 1);
    for t in [-2i64, -300, 1_700_000_000, i64::MIN + 1] {
        assert_eq!(to_twos_complement(t).to_le_bytes(), t.to_le_bytes());
    }
}

#[test]
fn attestation_message_concatenates_the_claims() {
    let validation = ContentValidation {
        question_length: 0x0102_0304,
        answer_length: 5000,
        content_hash: [0xaa; 32],
        answer_hash: [0xbb; 32],
        timestamp: -2,
        validator_signature: [0xcc; 64],
    };
    let mut expected = vec![0x04, 0x03, 0x02, 0x01];
    expected.extend_from_slice(&5000u32.to_le_bytes());
    expected.extend_from_slice(&[0xaa; 32]);
    expected.extend_from_slice(&[0xbb; 32]);
    expected.extend_from_slice(&[0xfe, 0xff, 0xff, 0xff, 0xff, 0xff, 0xff, 0xff]);
    let message = attestation_message(&validation);
    assert_eq!(message.len(), 80);
    assert_eq!(message, expected);
}

#[test]
fn verification_request_is_key_signature_message() {
    let validation = claims(3, SHA_ABC, SHA_1234);
    let key = [0x11u8; 32];
    let request = verification_request(&validation, &key);
    assert_eq!(request.len(), 176);
    assert_eq!(&request[..32], &key[..]);
    assert_eq!(&request[32..96], &[7u8; 64][..]);
    assert_eq!(&request[96..], &attestation_message(&validation)[..]);
    assert_eq!(&request[96..100], &3u32.to_le_bytes()[..]);
    assert_eq!(&request[168..], &1_700_000_000i64.to_le_bytes()[..]);
}

#[test]
fn only_a_rejected_attestation_is_refused() {
    assert_eq!(verify_validator_signature(Attestation::NotRequired), Ok(()));
    assert_eq!(verify_validator_signature(Attestation::Accepted), Ok(()));
    assert_eq!(
        verify_validator_signature(Attestation::Rejected),
        Err(ErrorCode::InvalidValidatorSignature)
    );
}
