//! Links that are opened in the browser rather than in a window.
//!
//! A page says which link it wants opened in the parameters of a message, which are JSON. The
//! JSON is read with `serde_json`; what is believed of it here is what a value holds, and that
//! its accessors give that back.

use crate::app::App;
use vstd::prelude::*;

verus! {

#[verifier::external_type_specification]
#[verifier::external_body]
pub struct ExValue(serde_json::Value);

#[verifier::external_type_specification]
#[verifier::external_body]
#[verifier::reject_recursive_types(K)]
#[verifier::reject_recursive_types(V)]
pub struct ExJsonMap<K, V>(serde_json::Map<K, V>);

/// What a JSON string holds: its text. `None` of a value that is not a string.
pub uninterp spec fn json_text(value: serde_json::Value) -> Option<Seq<char>>;

/// What a JSON object holds: its keys, and for each the text of its member, where that is a
/// string.
pub uninterp spec fn json_members(
    object: serde_json::Map<String, serde_json::Value>,
) -> Map<Seq<char>, Option<Seq<char>>>;

/// What a JSON value that is an object holds. `None` of any other value.
pub uninterp spec fn json_object(value: serde_json::Value) -> Option<
    Map<Seq<char>, Option<Seq<char>>>,
>;

/// `serde_json::Value::as_object`: the map of a value that is an object, and nothing of any other
/// value.
#[verifier::external_body]
fn as_object(value: &serde_json::Value) -> (object: Option<
    &serde_json::Map<String, serde_json::Value>,
>)
    ensures
        match object {
            Some(object) => json_object(*value) == Some(json_members(*object)),
            None => json_object(*value) is None,
        },
{
    value.as_object()
}

/// `serde_json::Map::contains_key`: whether an object has a member of this name.
#[verifier::external_body]
fn contains_key(object: &serde_json::Map<String, serde_json::Value>, key: &str) -> (found: bool)
    ensures
        found == json_members(*object).contains_key(key@),
{
    object.contains_key(key)
}

/// `serde_json::Map::get`: the member of this name, where the object has one.
#[verifier::external_body]
fn get<'a>(object: &'a serde_json::Map<String, serde_json::Value>, key: &str) -> (member: Option<
    &'a serde_json::Value,
>)
    ensures
        match member {
            Some(member) => json_members(*object).contains_key(key@) && json_members(*object)[key@]
                == json_text(*member),
            None => !json_members(*object).contains_key(key@),
        },
{
    object.get(key)
}

/// `serde_json::Value::as_str`: the text of a value that is a string, and nothing of any other
/// value.
#[verifier::external_body]
fn as_str(value: &serde_json::Value) -> (text: Option<&str>)
    ensures
        match text {
            Some(text) => json_text(*value) == Some(text@),
            None => json_text(*value) is None,
        },
{
    value.as_str()
}

/// The link that parameters ask for: the text under `href`, of parameters that are an object and
/// have one there.
pub open spec fn requested_link(params: serde_json::Value) -> Option<Seq<char>> {
    match json_object(params) {
        Some(members) => if members.contains_key("href"@) {
            members["href"@]
        } else {
            None
        },
        None => None,
    }
}

impl App {
    /// A page asked for a link to be opened in the browser. The result is the link to open, if
    /// the parameters of the page's message name one.
    pub fn handle_browser_open(&self, params: &serde_json::Value) -> (link: Option<String>)
        ensures
            match link {
                Some(link) => requested_link(*params) == Some(link@),
                None => requested_link(*params) is None,
            },
    {
        if let Some(object) = as_object(params) {
            if contains_key(object, "href") {
                if let Some(member) = get(object, "href") {
                    if let Some(href) = as_str(member) {
                        return Some(href.to_owned());
                    }
                }
            }
        }
        None
    }
}

/// A link is opened exactly where the parameters are an object that has a text under `href`, and it
/// is that text, whatever it says.
pub proof fn the_link_is_the_text_under_href(params: serde_json::Value, link: Seq<char>)
    ensures
        requested_link(params) == Some(link) <==> (json_object(params) matches Some(members)
            && members.contains_key("href"@) && members["href"@] == Some(link)),
{
}

/// Nothing but the member under `href` bears on the link.
pub proof fn only_href_bears_on_the_link(params: serde_json::Value, other: serde_json::Value)
    requires
        json_object(params) is Some,
        json_object(other) is Some,
        json_object(params)->0.contains_key("href"@) == json_object(other)->0.contains_key(
            "href"@,
        ),
        json_object(params)->0["href"@] == json_object(other)->0["href"@],
    ensures
        requested_link(params) == requested_link(other),
{
}

} // verus!
