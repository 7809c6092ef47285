//! The reasons for which an operation is refused.

use vstd::prelude::*;

verus! {

/// Why an operation was refused. A refused operation changes no record.
#[derive(Clone, Copy, Debug, PartialEq, Eq, Structural)]
pub enum ErrorCode {
    /// A checked addition, subtraction or multiplication left the 64-bit range.
    NumericalOverflow,
    /// The question has already issued `max_keys` keys.
    NoKeysAvailable,
    /// The caller does not own the key.
    NotKeyOwner,
    /// The key is not listed for sale.
    NotListed,
    /// The key is already listed for sale.
    AlreadyListed,
    /// The buyer already owns the key.
    CannotBuyOwnKey,
    /// A single fee rate is above the per-rate maximum.
    FeeTooHigh,
    /// A price of zero.
    InvalidPrice,
    /// A key count of zero.
    InvalidKeyCount,
    /// The question text is longer than allowed.
    ContentTooLong,
    /// The encrypted answer is longer than allowed.
    AnswerTooLong,
    /// The metadata reference is longer than allowed.
    URITooLong,
    /// The question no longer accepts purchases.
    QuestionInactive,
    /// The global pause switch is on.
    MarketplacePaused,
    /// The acting user is blacklisted.
    UserBlacklisted,
    /// The user's last rate-limited action is too recent.
    RateLimitExceeded,
    /// The user has used up the per-user question quota.
    TooManyQuestions,
    /// The question text holds a character outside ASCII.
    InvalidCharacters,
    /// The pause switch of this kind of operation is on.
    OperationPaused,
    /// The answer digest does not have the expected shape.
    EncryptionError,
    /// The answer key is not acceptable.
    InvalidAnswerKey,
    /// The encrypted payload is longer than allowed.
    InvalidKeyLength,
    /// The metadata reference is too short or holds a character outside ASCII.
    InvalidMetadataFormat,
    /// The two fee rates together are above the combined maximum.
    TotalFeeTooHigh,
    /// The record's storage is too small for its content.
    InsufficientSpace,
    /// The caller is not the marketplace authority.
    InvalidAuthority,
    /// The buyer's balance does not cover the price.
    InsufficientFunds,
    /// The attestation over the content claims was not accepted.
    InvalidValidatorSignature,
    /// The submitted text's length differs from the claimed length.
    ContentLengthMismatch,
    /// The digest of the submitted text differs from the claimed digest.
    ContentHashMismatch,
    /// The digest of the submitted answer differs from the claimed digest.
    AnswerHashMismatch,
    /// The content identifier has a wrong length or a character outside its alphabet.
    InvalidCIDFormat,
    /// A token account belongs to someone other than the party it stands for.
    InvalidOwner,
    /// A token account holds a token other than the marketplace's fee token.
    InvalidBonkMint,
}

impl ErrorCode {
    /// The text that explains the refusal to a user.
    pub open spec fn message_spec(self) -> Seq<char> {
        match self {
            ErrorCode::NumericalOverflow => "Numerical overflow occurred"@,
            ErrorCode::NoKeysAvailable => "No keys available for this question"@,
            ErrorCode::NotKeyOwner => "Not the key owner"@,
            ErrorCode::NotListed => "Key not listed for sale"@,
            ErrorCode::AlreadyListed => "Key is already listed"@,
            ErrorCode::CannotBuyOwnKey => "Cannot buy your own key"@,
            ErrorCode::FeeTooHigh => "Fee too high"@,
            ErrorCode::InvalidPrice => "Invalid price"@,
            ErrorCode::InvalidKeyCount => "Invalid key count"@,
            ErrorCode::ContentTooLong => "Content too long"@,
            ErrorCode::AnswerTooLong => "Answer too long"@,
            ErrorCode::URITooLong => "URI too long"@,
            ErrorCode::QuestionInactive => "Question is inactive"@,
            ErrorCode::MarketplacePaused => "Marketplace is paused"@,
            ErrorCode::UserBlacklisted => "User is blacklisted"@,
            ErrorCode::RateLimitExceeded => "Rate limit exceeded"@,
            ErrorCode::TooManyQuestions => "Too many questions created"@,
            ErrorCode::InvalidCharacters => "Invalid characters in input"@,
            ErrorCode::OperationPaused => "Operation is paused"@,
            ErrorCode::EncryptionError => "Encryption error occurred"@,
            ErrorCode::InvalidAnswerKey => "Invalid answer key"@,
            ErrorCode::InvalidKeyLength => "Invalid encrypted key length"@,
            ErrorCode::InvalidMetadataFormat => "Invalid metadata format"@,
            ErrorCode::TotalFeeTooHigh => "Total fee percentage too high"@,
            ErrorCode::InsufficientSpace => "Insufficient account space"@,
            ErrorCode::InvalidAuthority => "Invalid authority account"@,
            ErrorCode::InsufficientFunds => "Insufficient funds for transaction"@,
            ErrorCode::InvalidValidatorSignature => "Invalid validator signature"@,
            ErrorCode::ContentLengthMismatch => "Content length mismatch with validation"@,
            ErrorCode::ContentHashMismatch => "Content hash mismatch with validation"@,
            ErrorCode::AnswerHashMismatch => "Answer hash mismatch with validation"@,
            ErrorCode::InvalidCIDFormat => "Invalid IPFS CID format"@,
            ErrorCode::InvalidOwner => "Invalid owner for this operation"@,
            ErrorCode::InvalidBonkMint => "Invalid BONK token mint address"@,
        }
    }

    /// The text that explains the refusal to a user.
    pub fn message(&self) -> (text: &'static str)
        ensures
            text@ == self.message_spec(),
    {
        match self {
            ErrorCode::NumericalOverflow => "Numerical overflow occurred",
            ErrorCode::NoKeysAvailable => "No keys available for this question",
            ErrorCode::NotKeyOwner => "Not the key owner",
            ErrorCode::NotListed => "Key not listed for sale",
            ErrorCode::AlreadyListed => "Key is already listed",
            ErrorCode::CannotBuyOwnKey => "Cannot buy your own key",
            ErrorCode::FeeTooHigh => "Fee too high",
            ErrorCode::InvalidPrice => "Invalid price",
            ErrorCode::InvalidKeyCount => "Invalid key count",
            ErrorCode::ContentTooLong => "Content too long",
            ErrorCode::AnswerTooLong => "Answer too long",
            ErrorCode::URITooLong => "URI too long",
            ErrorCode::QuestionInactive => "Question is inactive",
            ErrorCode::MarketplacePaused => "Marketplace is paused",
            ErrorCode::UserBlacklisted => "User is blacklisted",
            ErrorCode::RateLimitExceeded => "Rate limit exceeded",
            ErrorCode::TooManyQuestions => "Too many questions created",
            ErrorCode::InvalidCharacters => "Invalid characters in input",
            ErrorCode::OperationPaused => "Operation is paused",
            ErrorCode::EncryptionError => "Encryption error occurred",
            ErrorCode::InvalidAnswerKey => "Invalid answer key",
            ErrorCode::InvalidKeyLength => "Invalid encrypted key length",
            ErrorCode::InvalidMetadataFormat => "Invalid metadata format",
            ErrorCode::TotalFeeTooHigh => "Total fee percentage too high",
            ErrorCode::InsufficientSpace => "Insufficient account space",
            ErrorCode::InvalidAuthority => "Invalid authority account",
            ErrorCode::InsufficientFunds => "Insufficient funds for transaction",
            ErrorCode::InvalidValidatorSignature => "Invalid validator signature",
            ErrorCode::ContentLengthMismatch => "Content length mismatch with validation",
            ErrorCode::ContentHashMismatch => "Content hash mismatch with validation",
            ErrorCode::AnswerHashMismatch => "Answer hash mismatch with validation",
            ErrorCode::InvalidCIDFormat => "Invalid IPFS CID format",
            ErrorCode::InvalidOwner => "Invalid owner for this operation",
            ErrorCode::InvalidBonkMint => "Invalid BONK token mint address",
        }
    }
}

} // verus!
