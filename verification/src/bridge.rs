//! The inbound message bridge: from the text that the toolbar posts to a
//! typed [`Command`].
//!
//! A message is a JSON object with a string member `type`, which is either
//! `navigate` or `settings`; a `navigate` message also carries the address
//! as a string member `url`. Anything else is dropped without a trace: the
//! toolbar is a local document, but its messages are untyped.

use vstd::prelude::*;
use vstd::string::StringExecFns;
use crate::navigation::{Command, CommandView};
use crate::text::same_text;

verus! {

/// `serde_json::Value`, a parsed JSON document, carried as an opaque value:
/// all that is known of one is what [`json_member`] and [`json_text`] name.
#[verifier::external_type_specification]
#[verifier::external_body]
pub struct ExJsonValue(serde_json::Value);

/// `serde_json::Error`, carried as an opaque value and never looked into.
#[verifier::external_type_specification]
#[verifier::external_body]
pub struct ExJsonError(serde_json::Error);

/// The document that `serde_json::from_str` reads from a text, or `None`
/// where it reports an error.
pub uninterp spec fn json_document(text: Seq<char>) -> Option<serde_json::Value>;

/// The member that `serde_json::Value::get` finds under a key, or `None`
/// where it finds none.
pub uninterp spec fn json_member(value: serde_json::Value, key: Seq<char>) -> Option<
    serde_json::Value,
>;

/// The text that `serde_json::Value::as_str` finds in a value, or `None`
/// where the value is no JSON string.
pub uninterp spec fn json_text(value: serde_json::Value) -> Option<Seq<char>>;

/// Calls `serde_json::from_str` for a `serde_json::Value`. The parser
/// reads the whole text and nothing else, so what it returns is a function
/// of the text: `Ok` with the document named by [`json_document`], or an
/// error where that is `None`. Nothing is claimed of which texts parse.
#[verifier::external_body]
fn parse_document(text: &str) -> (parsed: Result<serde_json::Value, serde_json::Error>)
    ensures
        parsed is Ok <==> json_document(text@) is Some,
        parsed matches Ok(value) ==> json_document(text@) == Some(value),
{
    serde_json::from_str::<serde_json::Value>(text)
}

/// Calls `serde_json::Value::get` with a string key, which looks the key
/// up where the value is an object and finds nothing in any other value.
/// What it returns is the member named by [`json_member`].
#[verifier::external_body]
fn member<'a>(value: &'a serde_json::Value, key: &str) -> (found: Option<&'a serde_json::Value>)
    ensures
        found is Some <==> json_member(*value, key@) is Some,
        found matches Some(inner) ==> json_member(*value, key@) == Some(*inner),
{
    value.get(key)
}

/// `serde_json::Value::as_str` borrows the text of a value that is a JSON
/// string and returns `None` for every other value. What it returns is the
/// text named by [`json_text`].
pub assume_specification<'a>[ serde_json::Value::as_str ](value: &'a serde_json::Value) -> (text:
    Option<&'a str>)
    ensures
        text is Some <==> json_text(*value) is Some,
        text matches Some(s) ==> json_text(*value) == Some(s@),
;

/// The string member of a JSON value under a key, if it has one.
pub open spec fn string_member(value: serde_json::Value, key: Seq<char>) -> Option<Seq<char>> {
    match json_member(value, key) {
        Some(inner) => json_text(inner),
        None => None,
    }
}

/// The command that a message with the given `type` and `url` members
/// stands for, `None` standing for a member that is missing or no string.
pub open spec fn command_of_members(kind: Option<Seq<char>>, url: Option<Seq<char>>) -> Option<
    CommandView,
> {
    match kind {
        Some(tag) => if tag == "navigate"@ {
            match url {
                Some(address) => Some(CommandView::NavigateTo(address)),
                None => None,
            }
        } else if tag == "settings"@ {
            Some(CommandView::OpenSettings)
        } else {
            None
        },
        None => None,
    }
}

/// The command that a message text stands for.
pub open spec fn decoded(payload: Seq<char>) -> Option<CommandView> {
    match json_document(payload) {
        Some(document) => command_of_members(
            string_member(document, "type"@),
            string_member(document, "url"@),
        ),
        None => None,
    }
}

/// The view of an optional command.
pub open spec fn command_view(command: Option<Command>) -> Option<CommandView> {
    match command {
        Some(c) => Some(c@),
        None => None,
    }
}

/// The view of an optional text.
pub open spec fn text_view(text: Option<&str>) -> Option<Seq<char>> {
    match text {
        Some(s) => Some(s@),
        None => None,
    }
}

/// Reads the string member of `value` under `key`.
fn read_string_member<'a>(value: &'a serde_json::Value, key: &str) -> (text: Option<&'a str>)
    ensures
        text_view(text) == string_member(*value, key@),
{
    match member(value, key) {
        Some(inner) => inner.as_str(),
        None => None,
    }
}

/// Makes a command of the two members of a message that matter.
///
/// `kind` is the `type` member and `url` the `url` member, each `None`
/// where the message has no such member or the member is no string. A
/// `navigate` message needs its `url`; a `settings` message ignores it; any
/// other tag gives no command.
pub fn command_from_members(kind: Option<&str>, url: Option<&str>) -> (command: Option<Command>)
    ensures
        command_view(command) == command_of_members(text_view(kind), text_view(url)),
{
    match kind {
        Some(tag) => {
            if same_text(tag, "navigate") {
                match url {
                    Some(address) => Some(Command::NavigateTo(String::from_str(address))),
                    None => None,
                }
            } else if same_text(tag, "settings") {
                Some(Command::OpenSettings)
            } else {
                None
            }
        },
        None => None,
    }
}

/// Decodes one message from the toolbar.
///
/// Gives the command that the message stands for, and `None` for a text
/// that is no JSON, no object, has an unknown or missing `type`, or lacks
/// the `url` that a `navigate` message needs.
pub fn decode(payload: &str) -> (command: Option<Command>)
    ensures
        command_view(command) == decoded(payload@),
{
    match parse_document(payload) {
        Ok(document) => {
            let kind = read_string_member(&document, "type");
            let url = read_string_member(&document, "url");
            command_from_members(kind, url)
        },
        Err(_) => None,
    }
}

} // verus!
