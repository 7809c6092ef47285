//! What is registered for the ownership token of a newly minted key: its
//! name, its symbol and the reference to its metadata. Registering it is the
//! work of an outside collaborator, once per mint.

use vstd::prelude::*;
use vstd::string::StringExecFns;
use crate::identity::Identity;

verus! {

/// What the registration of a key's ownership token is asked to record.
/// The metadata stays mutable and the token belongs to no collection.
#[derive(Clone, Debug, PartialEq, Eq)]
pub struct KeyRegistration {
    /// Who owns the token.
    pub owner: Identity,
    pub name: String,
    pub symbol: String,
    pub uri: String,
    /// The share of later sales that the token itself claims: none.
    pub seller_fee_basis_points: u16,
    pub is_mutable: bool,
}

/// The character of a decimal digit.
pub open spec fn digit_char(digit: nat) -> char {
    if digit == 0 {
        '0'
    } else if digit == 1 {
        '1'
    } else if digit == 2 {
        '2'
    } else if digit == 3 {
        '3'
    } else if digit == 4 {
        '4'
    } else if digit == 5 {
        '5'
    } else if digit == 6 {
        '6'
    } else if digit == 7 {
        '7'
    } else if digit == 8 {
        '8'
    } else {
        '9'
    }
}

/// A number in decimal digits, without leading zeros.
pub open spec fn decimal(number: nat) -> Seq<char>
    decreases number,
{
    if number < 10 {
        seq![digit_char(number)]
    } else {
        decimal(number / 10).push(digit_char(number % 10))
    }
}

/// The name of the ownership token of the key `token_id` of question
/// `question_index`.
pub open spec fn key_name_spec(token_id: u64, question_index: u64) -> Seq<char> {
    "QA Key #"@ + decimal(token_id as nat) + " - Q"@ + decimal(question_index as nat)
}

/// The registration of the ownership token of a key.
pub open spec fn key_registration_spec(
    owner: Identity,
    token_id: u64,
    question_index: u64,
    metadata_uri: Seq<char>,
    registration: KeyRegistration,
) -> bool {
    &&& registration.owner == owner
    &&& registration.name@ == key_name_spec(token_id, question_index)
    &&& registration.symbol@ == "QAK"@
    &&& registration.uri@ == metadata_uri
    &&& registration.seller_fee_basis_points == 0
    &&& registration.is_mutable
}

fn push_digit(out: &mut String, digit: u64)
    requires
        digit < 10,
    ensures
        final(out)@ == old(out)@.push(digit_char(digit as nat)),
{
    proof {
        reveal_strlit("0");
        reveal_strlit("1");
        reveal_strlit("2");
        reveal_strlit("3");
        reveal_strlit("4");
        reveal_strlit("5");
        reveal_strlit("6");
        reveal_strlit("7");
        reveal_strlit("8");
        reveal_strlit("9");
    }
    let text: &str = if digit == 0 {
        "0"
    } else if digit == 1 {
        "1"
    } else if digit == 2 {
        "2"
    } else if digit == 3 {
        "3"
    } else if digit == 4 {
        "4"
    } else if digit == 5 {
        "5"
    } else if digit == 6 {
        "6"
    } else if digit == 7 {
        "7"
    } else if digit == 8 {
        "8"
    } else {
        "9"
    };
    assert(text@ =~= seq![digit_char(digit as nat)]);
    out.append(text);
    assert(out@ =~= old(out)@.push(digit_char(digit as nat)));
}

/// Appends `number` in decimal digits to `out`.
pub fn push_decimal(out: &mut String, number: u64)
    ensures
        final(out)@ == old(out)@ + decimal(number as nat),
    decreases number,
{
    if number >= 10 {
        push_decimal(out, number / 10);
    }
    push_digit(out, number % 10);
    assert(out@ =~= old(out)@ + decimal(number as nat));
}

/// Builds the name of the ownership token of a key.
pub fn key_name(token_id: u64, question_index: u64) -> (name: String)
    ensures
        name@ == key_name_spec(token_id, question_index),
{
    let mut name: String = String::from_str("QA Key #");
    push_decimal(&mut name, token_id);
    name.append(" - Q");
    push_decimal(&mut name, question_index);
    name
}

/// Builds the registration of the ownership token of the key `token_id` of
/// question `question_index`, owned by `owner`, with its metadata at
/// `metadata_uri`.
pub fn key_registration(owner: Identity, token_id: u64, question_index: u64, metadata_uri: String) -> (registration:
    KeyRegistration)
    ensures
        key_registration_spec(owner, token_id, question_index, metadata_uri@, registration),
{
    KeyRegistration {
        owner,
        name: key_name(token_id, question_index),
        symbol: String::from_str("QAK"),
        uri: metadata_uri,
        seller_fee_basis_points: 0,
        is_mutable: true,
    }
}

} // verus!
