use crate::error::KvError;
use crate::json::{is_json_text, json_string_contents, json_value_of, parse_json, read_json_string};
use vstd::prelude::*;

verus! {

/// A value read from the store: opaque text, for the caller to interpret.
#[derive(Debug, Clone)]
pub struct KvValue(pub(crate) String);

impl View for KvValue {
    type V = Seq<char>;

    closed spec fn view(&self) -> Seq<char> {
        self.0@
    }
}

impl KvValue {
    /// A value holding the text `text`.
    pub(crate) fn from_text(text: String) -> (r: KvValue)
        ensures
            r@ == text@,
    {
        KvValue(text)
    }

    /// The value as text, exactly as the store holds it.
    pub fn as_string(self) -> (r: String)
        ensures
            r@ == self@,
    {
        self.0
    }

    /// The value read as a JSON document.
    pub fn as_json(self) -> (r: Result<serde_json::Value, KvError>)
        ensures
            r.is_ok() == is_json_text(self@),
            r matches Ok(v) ==> v == json_value_of(self@),
            r matches Err(e) ==> e is Serialization,
    {
        match parse_json(self.0.as_str()) {
            Ok(v) => Ok(v),
            Err(e) => Err(KvError::Serialization(e)),
        }
    }

    /// The UTF-8 bytes of the value.
    pub fn as_bytes(&self) -> (r: &[u8])
        ensures
            r@ == vstd::utf8::encode_utf8(self@),
    {
        self.0.as_str().as_bytes()
    }
}

/// The payload that a put sends for a value given as JSON text: the string
/// itself where the text is one JSON string, and the text otherwise.
pub open spec fn json_payload(json: Seq<char>) -> Seq<char> {
    match json_string_contents(json) {
        Some(s) => s,
        None => json,
    }
}

/// The payload that a put sends for a string: the string itself, unquoted.
pub fn str_payload(s: &str) -> (r: String)
    ensures
        r@ == s@,
{
    s.to_owned()
}

/// The payload that a put sends for a value serialized as `json`.
///
/// A JSON string is sent as its contents, so that a string value is stored
/// as it is and not as a quoted JSON literal.
pub fn json_payload_of(json: &str) -> (r: String)
    ensures
        r@ == json_payload(json@),
{
    match read_json_string(json) {
        Some(s) => s,
        None => json.to_owned(),
    }
}

/// A string is stored as itself: where a value reaches the put as a JSON
/// string, the payload is that string's contents, not the quoted literal, so
/// a get reads back exactly the string that was put.
pub proof fn lemma_string_payload_unquoted(s: Seq<char>, json: Seq<char>)
    requires
        json_string_contents(json) == Some(s),
    ensures
        json_payload(json) == s,
{
}

} // verus!
