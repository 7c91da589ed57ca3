//! JSON values, as `serde_json` holds them.
//!
//! A `serde_json::Value` is opaque to proofs. What is said of one here is said
//! of its compact text, which determines it: two values with the same compact
//! text are the same value.

use vstd::prelude::*;

use crate::text::decimal;

verus! {

/// `serde_json::Value`, carried without a view into it.
#[verifier::external_type_specification]
#[verifier::external_body]
pub struct ExValue(serde_json::Value);

/// `serde_json::Error`, the reason for which a text is no JSON.
#[verifier::external_type_specification]
#[verifier::external_body]
pub struct ExError(serde_json::Error);

/// The compact text of a value: what `Display` for `serde_json::Value` writes.
pub uninterp spec fn json_text(value: serde_json::Value) -> Seq<char>;

/// The message of an error: what `Display` for `serde_json::Error` writes.
pub uninterp spec fn json_error_text(error: serde_json::Error) -> Seq<char>;

/// What `serde_json::from_str` makes of a text: the compact text of the value
/// that it read, or the message of the error.
pub uninterp spec fn json_parsed(text: Seq<char>) -> Result<Seq<char>, Seq<char>>;

/// The member that `serde_json::Value::get` finds under a key, both the
/// document and the member given by their compact text.
pub uninterp spec fn json_member(document: Seq<char>, key: Seq<char>) -> Option<Seq<char>>;

/// The characters that `serde_json::Value::as_str` gives of the value with this
/// compact text, where that value is a string.
pub uninterp spec fn json_string(document: Seq<char>) -> Option<Seq<char>>;

/// The compact text of the string value with these characters.
pub uninterp spec fn json_quoted(chars: Seq<char>) -> Seq<char>;

/// The compact text of the object that `serde_json::Map` collects from these
/// members, each a key and the compact text of its value.
pub uninterp spec fn json_object(members: Seq<(Seq<char>, Seq<char>)>) -> Seq<char>;

/// The outcome of a parse, by its texts.
pub open spec fn outcome_text(parsed: Result<serde_json::Value, serde_json::Error>) -> Result<
    Seq<char>,
    Seq<char>,
> {
    match parsed {
        Ok(value) => Ok(json_text(value)),
        Err(error) => Err(json_error_text(error)),
    }
}

/// The compact text of a value that may be missing.
pub open spec fn found_text(found: Option<&serde_json::Value>) -> Option<Seq<char>> {
    match found {
        Some(value) => Some(json_text(*value)),
        None => None,
    }
}

/// The characters of a string that may be missing.
pub open spec fn chars_text(chars: Option<&str>) -> Option<Seq<char>> {
    match chars {
        Some(s) => Some(s@),
        None => None,
    }
}

/// The text parses, and to the value with this very text.
pub open spec fn parses_back(text: Seq<char>) -> bool {
    json_parsed(text) == Ok::<Seq<char>, Seq<char>>(text)
}

/// Keys and compact texts of the members that an object is made of.
pub open spec fn member_texts(members: Seq<(String, serde_json::Value)>) -> Seq<
    (Seq<char>, Seq<char>),
> {
    Seq::new(members.len(), |i: int| (members[i].0@, json_text(members[i].1)))
}

/// No key stands for two members.
pub open spec fn distinct_keys(members: Seq<(Seq<char>, Seq<char>)>) -> bool {
    forall|i: int, j: int|
        0 <= i < j < members.len() ==> (#[trigger] members[i]).0 != (#[trigger] members[j]).0
}

/// Every member is a string.
pub open spec fn only_strings(members: Seq<(Seq<char>, Seq<char>)>) -> bool {
    forall|i: int|
        0 <= i < members.len() ==> exists|s: Seq<char>|
            (#[trigger] members[i]).1 == #[trigger] json_quoted(s)
}

/// Every key begins with another character than a dollar sign, which is what the
/// keys that `serde_json` keeps for itself begin with.
pub open spec fn plain_keys(members: Seq<(Seq<char>, Seq<char>)>) -> bool {
    forall|i: int|
        0 <= i < members.len() ==> (#[trigger] members[i]).0.len() > 0 && members[i].0[0] != '$'
}

/// Calls `Display` for `serde_json::Value`. The text is the value's compact
/// text, and a line feed never stands in it: the compact form writes none
/// between tokens and escapes it inside strings.
#[verifier::external_body]
pub(crate) fn text_of(value: &serde_json::Value) -> (text: String)
    ensures
        text@ == json_text(*value),
        !text@.contains('\n'),
{
    value.to_string()
}

/// Calls `Display` for `serde_json::Error`: the text is the error's message.
#[verifier::external_body]
pub(crate) fn error_text(error: &serde_json::Error) -> (text: String)
    ensures
        text@ == json_error_text(*error),
{
    error.to_string()
}

/// Calls `serde_json::from_str` for a `Value`. Whether the text is JSON, which
/// value it holds and which message the error has depend on the text alone.
#[verifier::external_body]
pub(crate) fn parse_value(text: &str) -> (parsed: Result<serde_json::Value, serde_json::Error>)
    ensures
        outcome_text(parsed) == json_parsed(text@),
{
    serde_json::from_str::<serde_json::Value>(text)
}

/// Calls `serde_json::Value::get` with a string: the member under that key, or
/// nothing where the value is no object or holds no such key.
#[verifier::external_body]
pub(crate) fn member<'a>(value: &'a serde_json::Value, key: &str) -> (found: Option<
    &'a serde_json::Value,
>)
    ensures
        found_text(found) == json_member(json_text(*value), key@),
{
    value.get(key)
}

/// Calls `serde_json::Value::as_str`: the characters of a string value, nothing
/// for any other value.
#[verifier::external_body]
pub(crate) fn string_of(value: &serde_json::Value) -> (chars: Option<&str>)
    ensures
        chars_text(chars) == json_string(json_text(*value)),
{
    value.as_str()
}

/// Calls `serde_json::Value::is_null`: true of the value `null` alone, which is
/// the only one with the compact text `null`.
#[verifier::external_body]
pub(crate) fn is_null(value: &serde_json::Value) -> (null: bool)
    ensures
        null == (json_text(*value) == "null"@),
{
    value.is_null()
}

/// Calls `Clone` for `serde_json::Value`: the copy has the same compact text.
#[verifier::external_body]
pub(crate) fn copy_of(value: &serde_json::Value) -> (copy: serde_json::Value)
    ensures
        json_text(copy) == json_text(*value),
{
    value.clone()
}

/// Calls `From<&str>` for `serde_json::Value`: a string value, which gives its
/// characters back when it is read as a string.
#[verifier::external_body]
pub(crate) fn string_value(chars: &str) -> (value: serde_json::Value)
    ensures
        json_text(value) == json_quoted(chars@),
        json_string(json_text(value)) == Some(chars@),
{
    serde_json::Value::from(chars)
}

/// Calls `From<u64>` for `serde_json::Value`: an integer value, whose compact
/// text is the integer in decimal.
#[verifier::external_body]
pub(crate) fn number_value(n: u64) -> (value: serde_json::Value)
    ensures
        json_text(value) == decimal(n as nat),
{
    serde_json::Value::from(n)
}

/// Calls `FromIterator` for `serde_json::Map` and makes an object of the map.
/// Where no key occurs twice, each key gives its own member back and no other
/// key gives any. Where all members are strings besides, and no key is one that
/// `serde_json` keeps for itself, the compact text of the object parses back to
/// it.
#[verifier::external_body]
pub(crate) fn object_of(members: Vec<(String, serde_json::Value)>) -> (value: serde_json::Value)
    ensures
        json_text(value) == json_object(member_texts(members@)),
        distinct_keys(member_texts(members@)) ==> forall|i: int|
            0 <= i < members@.len() ==> json_member(
                json_text(value),
                (#[trigger] members@[i]).0@,
            ) == Some(json_text(members@[i].1)),
        forall|key: Seq<char>|
            (forall|i: int| 0 <= i < members@.len() ==> (#[trigger] members@[i]).0@ != key)
                ==> #[trigger] json_member(json_text(value), key) is None,
        distinct_keys(member_texts(members@)) && only_strings(member_texts(members@)) && plain_keys(
            member_texts(members@),
        ) ==> parses_back(json_text(value)),
{
    serde_json::Value::Object(members.into_iter().collect())
}

/// The outcome of a parse is the text of the value or the message of the error.
pub proof fn law_text_of_a_parse(parsed: Result<serde_json::Value, serde_json::Error>)
    ensures
        parsed matches Ok(value) ==> outcome_text(parsed) == Ok::<Seq<char>, Seq<char>>(
            json_text(value),
        ),
        parsed matches Err(error) ==> outcome_text(parsed) == Err::<Seq<char>, Seq<char>>(
            json_error_text(error),
        ),
{
}

/// What was found has its own text, and what was not found has none.
pub proof fn law_text_of_what_was_found(found: Option<&serde_json::Value>, chars: Option<&str>)
    ensures
        found matches Some(value) ==> found_text(found) == Some(json_text(*value)),
        found is None ==> found_text(found) is None,
        chars matches Some(s) ==> chars_text(chars) == Some(s@),
        chars is None ==> chars_text(chars) is None,
{
}

/// The members of an object keep their keys, their values and their places.
pub proof fn law_members_in_place(members: Seq<(String, serde_json::Value)>, i: int)
    requires
        0 <= i < members.len(),
    ensures
        member_texts(members).len() == members.len(),
        member_texts(members)[i] == (members[i].0@, json_text(members[i].1)),
{
}

} // verus!
