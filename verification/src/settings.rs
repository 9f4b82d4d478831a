//! Rules of the stored settings.

use vstd::prelude::*;
use crate::keys::opt_str_view;
use crate::text::str_equal;

verus! {

/// The accepted values of the `close_action` setting: ask each time, minimise to the
/// tray, or exit.
pub open spec fn is_close_action(s: Seq<char>) -> bool {
    s == "ask"@ || s == "minimize"@ || s == "exit"@
}

/// Whether a text is an accepted `close_action`.
pub fn is_close_action_text(s: &str) -> (r: bool)
    ensures
        r == is_close_action(s@),
{
    str_equal(s, "ask") || str_equal(s, "minimize") || str_equal(s, "exit")
}

/// The close action in effect: the stored one when it is a text and accepted, else `ask`.
pub open spec fn close_action_spec(stored: Option<Seq<char>>) -> Seq<char> {
    match stored {
        Some(s) => if is_close_action(s) { s } else { "ask"@ },
        None => "ask"@,
    }
}

/// The close action in effect, given the stored `close_action` value when it is a
/// JSON string (`None` when the setting is missing or not a string).
pub fn get_close_action(stored: Option<&str>) -> (r: String)
    ensures
        r@ == close_action_spec(opt_str_view(stored)),
{
    match stored {
        Some(s) => if is_close_action_text(s) { s.to_owned() } else { "ask".to_owned() },
        None => "ask".to_owned(),
    }
}

/// What saving a requested `close_action` does: an accepted value is stored, any other
/// request leaves the settings unchanged.
pub open spec fn save_close_action_spec(current: Option<Seq<char>>, requested: Option<Seq<char>>) -> Option<Seq<char>> {
    match requested {
        Some(v) => if is_close_action(v) { Some(v) } else { current },
        None => current,
    }
}

/// The `close_action` to store for a settings request, if it is to be stored.
pub fn close_action_to_save(requested: Option<&str>) -> (r: Option<String>)
    ensures
        match r {
            Some(v) => requested matches Some(q) && is_close_action(q@) && v@ == q@,
            None => !(requested matches Some(q) && is_close_action(q@)),
        },
{
    match requested {
        Some(q) => if is_close_action_text(q) { Some(q.to_owned()) } else { None },
        None => None,
    }
}

/// The close action in effect is always one of the accepted values.
pub proof fn close_action_always_accepted(stored: Option<Seq<char>>)
    ensures
        is_close_action(close_action_spec(stored)),
{
}

/// A saved close action is the one read back; a refused one leaves what is read unchanged.
pub proof fn close_action_read_after_save(current: Option<Seq<char>>, requested: Option<Seq<char>>)
    ensures
        requested matches Some(v) ==> (is_close_action(v) ==> close_action_spec(
            save_close_action_spec(current, requested),
        ) == v),
        !(requested matches Some(v) && is_close_action(v)) ==> close_action_spec(
            save_close_action_spec(current, requested),
        ) == close_action_spec(current),
{
}

// ---------------------------------------------------------------- JSON texts

/// The string that a JSON text holds under `key` at its top level, as
/// `serde_json::from_str` followed by `Value::get` and `Value::as_str` reads it: `None`
/// when the text is not JSON, is not an object, has no such key, or holds no string there.
pub uninterp spec fn json_string_field(text: Seq<char>, key: Seq<char>) -> Option<Seq<char>>;

/// The boolean that a JSON text holds under `key` at its top level, as
/// `serde_json::from_str` followed by `Value::get` and `Value::as_bool` reads it.
pub uninterp spec fn json_bool_field(text: Seq<char>, key: Seq<char>) -> Option<bool>;

pub open spec fn opt_string_view(r: Option<String>) -> Option<Seq<char>> {
    match r {
        Some(s) => Some(s@),
        None => None,
    }
}

/// Parses a JSON text with `serde_json::from_str` and reads the string under `key`.
/// Claims only that the result is a function of the text and the key; the JSON
/// grammar is left unstated.
#[verifier::external_body]
fn json_str_field(text: &str, key: &str) -> (r: Option<String>)
    ensures
        opt_string_view(r) == json_string_field(text@, key@),
{
    match serde_json::from_str::<serde_json::Value>(text) {
        Ok(v) => v.get(key).and_then(|x| x.as_str()).map(|x| x.to_string()),
        Err(_) => None,
    }
}

/// Parses a JSON text with `serde_json::from_str` and reads the boolean under `key`.
/// Claims only that the result is a function of the text and the key; the JSON
/// grammar is left unstated.
#[verifier::external_body]
fn json_flag_field(text: &str, key: &str) -> (r: Option<bool>)
    ensures
        r == json_bool_field(text@, key@),
{
    match serde_json::from_str::<serde_json::Value>(text) {
        Ok(v) => v.get(key).and_then(|x| x.as_bool()),
        Err(_) => None,
    }
}

/// The text of the settings file as `close_action_of` reads it: the string stored
/// under `close_action`, if any (`None` when the file could not be read).
pub open spec fn stored_close_action(text: Option<Seq<char>>) -> Option<Seq<char>> {
    match text {
        Some(t) => json_string_field(t, "close_action"@),
        None => None,
    }
}

/// The close action in effect, given the text of the settings file (`None` when the
/// file could not be read).
pub fn close_action_of(text: Option<&str>) -> (r: String)
    ensures
        r@ == close_action_spec(stored_close_action(opt_str_view(text))),
{
    match text {
        Some(t) => {
            let stored = json_str_field(t, "close_action");
            match stored {
                Some(v) => get_close_action(Some(v.as_str())),
                None => get_close_action(None),
            }
        },
        None => get_close_action(None),
    }
}

/// The `close_action` to store for a settings request body, if it is to be stored.
pub fn close_action_request(body: &str) -> (r: Option<String>)
    ensures
        opt_string_view(r) == save_close_action_spec(None, json_string_field(body@, "close_action"@)),
{
    let requested = json_str_field(body, "close_action");
    match requested {
        Some(v) => close_action_to_save(Some(v.as_str())),
        None => close_action_to_save(None),
    }
}

/// A flag of a request body: `true` only when the body holds `true` under the key
/// (a missing key, another type, or a body that is not JSON reads as `false`).
pub fn flag_value(v: Option<bool>) -> (r: bool)
    ensures
        r == (v == Some(true)),
{
    match v {
        Some(b) => b,
        None => false,
    }
}

/// The flag under `key` of a request body (`paused` or `enabled`), `false` unless the
/// body holds `true` there.
pub fn body_flag(body: &str, key: &str) -> (r: bool)
    ensures
        r == (json_bool_field(body@, key@) == Some(true)),
{
    flag_value(json_flag_field(body, key))
}

} // verus!
