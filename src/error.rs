use vstd::prelude::*;
use vstd::string::StringExecFns;
use wasm_bindgen::JsValue;

verus! {

/// An opaque value of the JavaScript host.
#[verifier::external_type_specification]
#[verifier::external_body]
pub struct ExJsValue(JsValue);

/// An error of serde_json, raised while encoding or decoding JSON.
#[verifier::external_type_specification]
#[verifier::external_body]
pub struct ExJsonError(serde_json::Error);

/// The kinds of failure of a store operation.
#[derive(Debug)]
pub enum KvError {
    /// The round trip failed, or the store answered with an error.
    JavaScript(JsValue),
    /// Structured data could not be encoded or decoded.
    Serialization(serde_json::Error),
    /// No store is bound under the given name.
    InvalidKvStore(String),
    /// Metadata was expected for a key that exists, but there was none.
    InvalidMetadata(String),
}

impl From<JsValue> for KvError {
    fn from(value: JsValue) -> (r: KvError) {
        KvError::JavaScript(value)
    }
}

impl vstd::std_specs::convert::FromSpecImpl<JsValue> for KvError {
    open spec fn obeys_from_spec() -> bool {
        true
    }

    open spec fn from_spec(v: JsValue) -> KvError {
        KvError::JavaScript(v)
    }
}

impl From<serde_json::Error> for KvError {
    fn from(value: serde_json::Error) -> (r: KvError) {
        KvError::Serialization(value)
    }
}

impl vstd::std_specs::convert::FromSpecImpl<serde_json::Error> for KvError {
    open spec fn obeys_from_spec() -> bool {
        true
    }

    open spec fn from_spec(v: serde_json::Error) -> KvError {
        KvError::Serialization(v)
    }
}

/// The message that serde_json gives for the error `e`.
pub uninterp spec fn json_error_message(e: serde_json::Error) -> Seq<char>;

/// Relies on the `Display` impl of `serde_json::Error`: the error's message,
/// which depends on the error alone.
#[verifier::external_body]
fn json_error_text(e: &serde_json::Error) -> (r: String)
    ensures
        r@ == json_error_message(*e),
{
    e.to_string()
}

/// Relies on `JsValue::from` on a `String`: a JavaScript string.
#[verifier::external_body]
fn js_string(s: String) -> JsValue {
    JsValue::from(s)
}

/// The text that names the kind of `e`, as its message begins.
pub open spec fn kind_tag(e: KvError) -> Seq<char> {
    match e {
        KvError::JavaScript(_) => "KvError::JavaScript: "@,
        KvError::Serialization(_) => "KvError::Serialization: "@,
        KvError::InvalidKvStore(_) => "KvError::InvalidKvStore: "@,
        KvError::InvalidMetadata(_) => "KvError::InvalidMetadata: "@,
    }
}

impl KvError {
    /// The error's message: its kind, then what went wrong. An error of the
    /// host has none: it is handed back to the host as it came.
    pub fn message(&self) -> (r: Option<String>)
        ensures
            match self {
                KvError::JavaScript(_) => r is None,
                KvError::Serialization(e) => r matches Some(t) && t@ == kind_tag(*self)
                    + json_error_message(*e),
                KvError::InvalidKvStore(n) => r matches Some(t) && t@ == kind_tag(*self) + n@,
                KvError::InvalidMetadata(m) => r matches Some(t) && t@ == kind_tag(*self) + m@,
            },
    {
        match self {
            KvError::JavaScript(_) => None,
            KvError::Serialization(e) => {
                let mut t = String::from_str("KvError::Serialization: ");
                let detail = json_error_text(e);
                t.append(detail.as_str());
                Some(t)
            },
            KvError::InvalidKvStore(n) => {
                let mut t = String::from_str("KvError::InvalidKvStore: ");
                t.append(n.as_str());
                Some(t)
            },
            KvError::InvalidMetadata(m) => {
                let mut t = String::from_str("KvError::InvalidMetadata: ");
                t.append(m.as_str());
                Some(t)
            },
        }
    }
}

impl From<KvError> for JsValue {
    /// An error of the host is handed back as it came; any other error
    /// becomes a string holding its message.
    fn from(val: KvError) -> (r: JsValue)
        ensures
            val matches KvError::JavaScript(v) ==> r == v,
    {
        match val.message() {
            Some(t) => js_string(t),
            None => match val {
                KvError::JavaScript(v) => v,
                _ => {
                    proof {
                        assert(false);
                    }
                    js_string(String::new())
                },
            },
        }
    }
}

impl vstd::std_specs::convert::FromSpecImpl<KvError> for JsValue {
    /// Nothing is claimed of the host value made from an error.
    open spec fn obeys_from_spec() -> bool {
        false
    }

    open spec fn from_spec(v: KvError) -> JsValue {
        match v {
            KvError::JavaScript(j) => j,
            _ => vstd::pervasive::arbitrary(),
        }
    }
}

} // verus!
