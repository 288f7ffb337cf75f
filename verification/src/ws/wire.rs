use vstd::prelude::*;
use vstd::string::*;

verus! {

/// `serde_json::Error`, opaque to the verifier.
#[verifier::external_type_specification]
#[verifier::external_body]
pub struct ExJsonError(serde_json::Error);

/// The JSON string literal for a text, quotes and escapes included, where
/// the text can be written as one.
pub uninterp spec fn json_string(text: Seq<char>) -> Option<Seq<char>>;

/// The six numbers that a JSON text holds, where it is an array of six
/// numbers that each fit into 16 bits.
pub uninterp spec fn json_move(text: Seq<char>) -> Option<Seq<i16>>;

/// The hyphenated lower-case text of a user id.
pub uninterp spec fn uuid_text(id: u128) -> Seq<char>;

/// `serde_json::to_string` on a text: the text as a JSON string literal.
#[verifier::external_body]
pub(crate) fn quote_json(text: &str) -> (quoted: Result<String, serde_json::Error>)
    ensures
        match quoted {
            Ok(literal) => json_string(text@) == Some(literal@),
            Err(_) => json_string(text@).is_none(),
        },
{
    serde_json::to_string(text)
}

/// `serde_json::from_str` for an array of six 16-bit numbers.
#[verifier::external_body]
pub(crate) fn parse_json_move(text: &str) -> (parsed: Result<[i16; 6], serde_json::Error>)
    ensures
        match parsed {
            Ok(numbers) => json_move(text@) == Some(numbers@),
            Err(_) => json_move(text@).is_none(),
        },
{
    serde_json::from_str::<[i16; 6]>(text)
}

/// `Uuid::to_string` of the id with the given value.
#[verifier::external_body]
pub(crate) fn user_id_text(id: u128) -> (text: String)
    ensures
        text@ == uuid_text(id),
{
    uuid::Uuid::from_u128(id).to_string()
}

/// `Uuid::new_v4`: the value of a random id.
#[verifier::external_body]
pub(crate) fn fresh_user_id() -> (id: u128) {
    uuid::Uuid::new_v4().as_u128()
}

} // verus!
