//! Settlement and lifecycle core of a marketplace for paid question/answer
//! content: creators publish questions, buyers purchase single-use unlock
//! keys, keys can be resold, and every payment is split between the platform,
//! the creator and (on resale) the seller.
//!
//! Every operation is a function from records and plain values to a result:
//! either the updated records together with what has to be paid and announced,
//! or an [`error::ErrorCode`] with all records left as they were.

pub mod error;
pub mod identity;
pub mod state;
pub mod events;
pub mod accounts;
pub mod fees;
pub mod admission;
pub mod digest;
pub mod attestation;
pub mod content;
pub mod registration;
pub mod admin;
pub mod question;
pub mod listing;
pub mod settlement;
pub mod laws;
