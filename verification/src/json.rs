//! The `new-window` payload: a JSON object read through serde_json.
//!
//! serde_json does the parsing; this module gives its object type a
//! mathematical content — a map from key text to the plain value the shell
//! can use — and builds a configuration record from the fields the shell
//! knows.  Parsing a text is a function of the text alone, so the parse
//! result is named rather than restated.

use vstd::prelude::*;
use vstd::string::*;
use crate::geometry::spec_parse_position;
use crate::options::{spec_titlebar_mode, OptionsView, TitlebarMode, WindowOptions};
use crate::text::str_eq;

verus! {

#[verifier::external_type_specification]
#[verifier::external_body]
pub struct ExValue(serde_json::Value);

#[verifier::external_type_specification]
#[verifier::external_body]
#[verifier::reject_recursive_types(K)]
#[verifier::reject_recursive_types(V)]
pub struct ExMap<K, V>(serde_json::Map<K, V>);

/// The content of one JSON value, as far as the shell reads it: anything it
/// has no use for — fractional or oversized numbers, arrays, nested objects
/// — is a plain `Other`.
pub enum JsonVal {
    Null,
    Bool(bool),
    /// A JSON number that is an integer representable in 64 signed bits.
    Int(i64),
    Text(Seq<char>),
    Other,
}

/// One field handed out of a JSON object, the executable counterpart of
/// `JsonVal`.
pub enum JsonField {
    Null,
    Bool(bool),
    Int(i64),
    Text(String),
    Other,
}

impl View for JsonField {
    type V = JsonVal;

    open spec fn view(&self) -> JsonVal {
        match self {
            JsonField::Null => JsonVal::Null,
            JsonField::Bool(b) => JsonVal::Bool(*b),
            JsonField::Int(i) => JsonVal::Int(*i),
            JsonField::Text(s) => JsonVal::Text(s@),
            JsonField::Other => JsonVal::Other,
        }
    }
}

/// What a `serde_json` object holds, keyed by its field names.
pub uninterp spec fn json_object_model(m: serde_json::Map<String, serde_json::Value>) -> Map<
    Seq<char>,
    JsonVal,
>;

/// What parsing a text as JSON yields: the content of the top-level object
/// when the text is a well-formed JSON object, `None` otherwise.  Parsing
/// depends on the text alone.
pub uninterp spec fn json_object_of(s: Seq<char>) -> Option<Map<Seq<char>, JsonVal>>;

/// Relies on serde_json::from_str: the text parses to a `Value` exactly when
/// it is well-formed JSON, and the `Object` variant carries the object's
/// fields.
#[verifier::external_body]
fn parse_json_object(s: &str) -> (r: Option<serde_json::Map<String, serde_json::Value>>)
    ensures
        (r is Some) == (json_object_of(s@) is Some),
        match r {
            Some(m) => json_object_of(s@) == Some(json_object_model(m)),
            None => true,
        },
{
    match serde_json::from_str::<serde_json::Value>(s) {
        Ok(serde_json::Value::Object(m)) => Some(m),
        _ => None,
    }
}

/// Relies on serde_json::Map::get to look a field up by name, and on
/// serde_json::Number::as_i64 to tell an integer in 64 signed bits from any
/// other number; each variant of the looked-up `Value` moves to its plain
/// counterpart.
#[verifier::external_body]
fn json_get(m: &serde_json::Map<String, serde_json::Value>, key: &str) -> (r: Option<JsonField>)
    ensures
        (r is Some) == json_object_model(*m).dom().contains(key@),
        match r {
            Some(f) => f@ == json_object_model(*m)[key@],
            None => true,
        },
{
    match m.get(key) {
        None => None,
        Some(serde_json::Value::Null) => Some(JsonField::Null),
        Some(serde_json::Value::Bool(b)) => Some(JsonField::Bool(*b)),
        Some(serde_json::Value::Number(n)) => match n.as_i64() {
            Some(i) => Some(JsonField::Int(i)),
            None => Some(JsonField::Other),
        },
        Some(serde_json::Value::String(s)) => Some(JsonField::Text(s.clone())),
        Some(_) => Some(JsonField::Other),
    }
}

/// The field stored under `key`, when one is.
pub open spec fn spec_field(obj: Map<Seq<char>, JsonVal>, key: Seq<char>) -> Option<JsonVal> {
    if obj.dom().contains(key) {
        Some(obj[key])
    } else {
        None
    }
}

/// The configuration record that a JSON object's fields leave behind.  A
/// field of the wrong shape counts as absent, except that a non-text
/// titlebar asks for custom chrome and a non-text title falls back to the
/// application name.
pub open spec fn spec_options_of_object(obj: Map<Seq<char>, JsonVal>) -> OptionsView {
    OptionsView {
        url: match spec_field(obj, "url"@) {
            Some(JsonVal::Text(t)) => Some(t),
            _ => None,
        },
        titlebar: match spec_field(obj, "titlebar"@) {
            Some(JsonVal::Text(t)) => Some(spec_titlebar_mode(t)),
            Some(_) => Some(TitlebarMode::Custom),
            None => None,
        },
        window_number: match spec_field(obj, "windowNumber"@) {
            Some(JsonVal::Int(n)) => Some(n),
            _ => None,
        },
        window_title: match spec_field(obj, "windowTitle"@) {
            Some(JsonVal::Text(t)) => Some(t),
            Some(_) => Some("DomTerm"@),
            None => None,
        },
        width: match spec_field(obj, "width"@) {
            Some(JsonVal::Int(n)) => if 0 <= n <= u32::MAX {
                Some(n as u32)
            } else {
                None
            },
            _ => None,
        },
        height: match spec_field(obj, "height"@) {
            Some(JsonVal::Int(n)) => if 0 <= n <= u32::MAX {
                Some(n as u32)
            } else {
                None
            },
            _ => None,
        },
        position: match spec_field(obj, "position"@) {
            Some(JsonVal::Text(t)) => spec_parse_position(t),
            _ => None,
        },
    }
}

/// What a `new-window` payload yields: a configuration record when the
/// payload is a JSON object, nothing otherwise.
pub open spec fn spec_options_from_json(s: Seq<char>) -> Option<OptionsView> {
    match json_object_of(s) {
        Some(obj) => Some(spec_options_of_object(obj)),
        None => None,
    }
}

/// Builds a window-creation request from a `new-window` payload.
pub fn options_from_json(s: &str) -> (r: Option<WindowOptions>)
    ensures
        match r {
            Some(o) => spec_options_from_json(s@) == Some(o@),
            None => spec_options_from_json(s@) is None,
        },
{
    let m: serde_json::Map<String, serde_json::Value> = match parse_json_object(s) {
        Some(m) => m,
        None => {
            return None;
        },
    };
    let mut opts: WindowOptions = WindowOptions::new();
    match json_get(&m, "url") {
        Some(JsonField::Text(t)) => {
            opts.url = Some(t);
        },
        _ => {},
    }
    match json_get(&m, "titlebar") {
        Some(JsonField::Text(t)) => {
            let mode: TitlebarMode = if str_eq(t.as_str(), "system") {
                TitlebarMode::System
            } else {
                TitlebarMode::Custom
            };
            opts.titlebar = Some(mode);
        },
        Some(_) => {
            opts.titlebar = Some(TitlebarMode::Custom);
        },
        None => {},
    }
    match json_get(&m, "windowNumber") {
        Some(JsonField::Int(n)) => {
            opts.window_number = Some(n);
        },
        _ => {},
    }
    match json_get(&m, "windowTitle") {
        Some(JsonField::Text(t)) => {
            opts.window_title = Some(t);
        },
        Some(_) => {
            opts.window_title = Some(String::from_str("DomTerm"));
        },
        None => {},
    }
    match json_get(&m, "width") {
        Some(JsonField::Int(n)) => {
            if 0 <= n && n <= 4294967295 {
                opts.width = Some(n as u32);
            }
        },
        _ => {},
    }
    match json_get(&m, "height") {
        Some(JsonField::Int(n)) => {
            if 0 <= n && n <= 4294967295 {
                opts.height = Some(n as u32);
            }
        },
        _ => {},
    }
    match json_get(&m, "position") {
        Some(JsonField::Text(t)) => {
            opts.position = crate::geometry::parse_position(t.as_str());
        },
        _ => {},
    }
    proof {
        assert(opts@ == spec_options_of_object(json_object_model(m)));
    }
    Some(opts)
}

} // verus!
