use crate::error::KvError;
use crate::json::{
    is_json_text, json_quoted, number_or_null, parse_json, push_number_or_null, quote_json,
    text_or_null,
};
use vstd::prelude::*;
use vstd::string::StringExecFns;

verus! {

/// The text of an optional string.
pub open spec fn opt_text(s: Option<String>) -> Option<Seq<char>> {
    match s {
        Some(t) => Some(t@),
        None => None,
    }
}

fn clone_opt(s: &Option<String>) -> (r: Option<String>)
    ensures
        opt_text(r) == opt_text(*s),
{
    match s {
        Some(t) => Some(t.clone()),
        None => None,
    }
}

/// What a put request holds.
pub struct PutOptionsView {
    pub name: Seq<char>,
    pub value: Seq<char>,
    pub expiration: Option<u64>,
    pub expiration_ttl: Option<u64>,
    pub metadata: Option<Seq<char>>,
}

/// A put request under construction: a key, its payload, and the options
/// sent with them.
///
/// `expiration` and `expiration_ttl` are independent; the store decides
/// between them where both are set, so a caller sets at most one.
#[derive(Debug, Clone)]
pub struct PutOptionsBuilder {
    pub(crate) name: String,
    pub(crate) value: String,
    pub(crate) expiration: Option<u64>,
    pub(crate) expiration_ttl: Option<u64>,
    /// The metadata as JSON text.
    pub(crate) metadata: Option<String>,
}

impl View for PutOptionsBuilder {
    type V = PutOptionsView;

    closed spec fn view(&self) -> PutOptionsView {
        PutOptionsView {
            name: self.name@,
            value: self.value@,
            expiration: self.expiration,
            expiration_ttl: self.expiration_ttl,
            metadata: opt_text(self.metadata),
        }
    }
}

/// The wire options of a put: an object with the fields `expiration`,
/// `expirationTtl` and `metadata`, each `null` where it is not set.
pub open spec fn put_options_text(
    expiration: Option<u64>,
    expiration_ttl: Option<u64>,
    metadata: Option<Seq<char>>,
) -> Seq<char> {
    "{\"expiration\":"@ + number_or_null(expiration) + ",\"expirationTtl\":"@ + number_or_null(
        expiration_ttl,
    ) + ",\"metadata\":"@ + text_or_null(metadata) + "}"@
}

impl PutOptionsBuilder {
    /// A put of `value` under `name`, with no options set.
    pub fn new(name: &str, value: String) -> (r: PutOptionsBuilder)
        ensures
            r@ == (PutOptionsView {
                name: name@,
                value: value@,
                expiration: None,
                expiration_ttl: None,
                metadata: None,
            }),
    {
        PutOptionsBuilder {
            name: name.to_owned(),
            value,
            expiration: None,
            expiration_ttl: None,
            metadata: None,
        }
    }

    /// When the pair expires, in seconds since the Unix epoch.
    pub fn expiration(self, expiration: u64) -> (r: PutOptionsBuilder)
        ensures
            r@ == (PutOptionsView { expiration: Some(expiration), ..self@ }),
    {
        PutOptionsBuilder { expiration: Some(expiration), ..self }
    }

    /// How many seconds from the write the pair expires.
    pub fn expiration_ttl(self, expiration_ttl: u64) -> (r: PutOptionsBuilder)
        ensures
            r@ == (PutOptionsView { expiration_ttl: Some(expiration_ttl), ..self@ }),
    {
        PutOptionsBuilder { expiration_ttl: Some(expiration_ttl), ..self }
    }

    /// Metadata stored with the pair, given as JSON text.
    ///
    /// Text that is not one JSON document is refused with a serialization
    /// error, and the request is consumed.
    pub fn metadata(self, metadata_json: String) -> (r: Result<PutOptionsBuilder, KvError>)
        ensures
            r.is_ok() == is_json_text(metadata_json@),
            r matches Ok(b) ==> b@ == (PutOptionsView {
                metadata: Some(metadata_json@),
                ..self@
            }),
            r matches Err(e) ==> e is Serialization,
    {
        match parse_json(metadata_json.as_str()) {
            Ok(_) => Ok(PutOptionsBuilder { metadata: Some(metadata_json), ..self }),
            Err(e) => Err(KvError::Serialization(e)),
        }
    }

    /// The key written.
    pub fn name(&self) -> (r: &str)
        ensures
            r@ == self@.name,
    {
        self.name.as_str()
    }

    /// The payload written.
    pub fn value(&self) -> (r: &str)
        ensures
            r@ == self@.value,
    {
        self.value.as_str()
    }

    /// The options object sent with the put, as JSON text.
    pub fn options_json(&self) -> (r: String)
        ensures
            r@ == put_options_text(self@.expiration, self@.expiration_ttl, self@.metadata),
    {
        let mut out = String::from_str("{\"expiration\":");
        push_number_or_null(&mut out, self.expiration);
        out.append(",\"expirationTtl\":");
        push_number_or_null(&mut out, self.expiration_ttl);
        out.append(",\"metadata\":");
        match &self.metadata {
            Some(m) => out.append(m.as_str()),
            None => out.append("null"),
        }
        out.append("}");
        out
    }
}

/// What a list request holds.
pub struct ListOptionsView {
    pub limit: Option<u64>,
    pub cursor: Option<Seq<char>>,
    pub prefix: Option<Seq<char>>,
}

/// A list request under construction.
#[derive(Debug, Clone)]
pub struct ListOptionsBuilder {
    pub(crate) limit: Option<u64>,
    pub(crate) cursor: Option<String>,
    pub(crate) prefix: Option<String>,
}

impl View for ListOptionsBuilder {
    type V = ListOptionsView;

    closed spec fn view(&self) -> ListOptionsView {
        ListOptionsView {
            limit: self.limit,
            cursor: opt_text(self.cursor),
            prefix: opt_text(self.prefix),
        }
    }
}

/// A JSON string for `s`, or `null` where there is none.
pub open spec fn quoted_or_null(s: Option<Seq<char>>) -> Seq<char> {
    match s {
        Some(t) => json_quoted(t),
        None => "null"@,
    }
}

/// The wire options of a list: an object with the fields `limit`, `cursor`
/// and `prefix`, each `null` where it is not set.
pub open spec fn list_options_text(o: ListOptionsView) -> Seq<char> {
    "{\"limit\":"@ + number_or_null(o.limit) + ",\"cursor\":"@ + quoted_or_null(o.cursor)
        + ",\"prefix\":"@ + quoted_or_null(o.prefix) + "}"@
}

fn push_quoted_or_null(out: &mut String, s: &Option<String>)
    ensures
        final(out)@ == old(out)@ + quoted_or_null(opt_text(*s)),
{
    match s {
        Some(t) => match quote_json(t.as_str()) {
            Ok(q) => out.append(q.as_str()),
            Err(_) => {
                proof {
                    assert(false);
                }
            },
        },
        None => out.append("null"),
    }
}

impl ListOptionsBuilder {
    /// A list request with no options set: the store's default limit, from
    /// the first key, over all keys.
    pub fn new() -> (r: ListOptionsBuilder)
        ensures
            r@ == (ListOptionsView { limit: None, cursor: None, prefix: None }),
    {
        ListOptionsBuilder { limit: None, cursor: None, prefix: None }
    }

    /// The most keys that one page returns. The store's default, 1000, is
    /// also its maximum.
    pub fn limit(self, limit: u64) -> (r: ListOptionsBuilder)
        ensures
            r@ == (ListOptionsView { limit: Some(limit), ..self@ }),
    {
        ListOptionsBuilder { limit: Some(limit), ..self }
    }

    /// The cursor of a previous page, to go on from where it ended.
    pub fn cursor(self, cursor: String) -> (r: ListOptionsBuilder)
        ensures
            r@ == (ListOptionsView { cursor: Some(cursor@), ..self@ }),
    {
        ListOptionsBuilder { cursor: Some(cursor), ..self }
    }

    /// A prefix that every listed key starts with.
    pub fn prefix(self, prefix: String) -> (r: ListOptionsBuilder)
        ensures
            r@ == (ListOptionsView { prefix: Some(prefix@), ..self@ }),
    {
        ListOptionsBuilder { prefix: Some(prefix), ..self }
    }

    /// The request for the page that follows a page ending at `cursor`:
    /// this request's limit and prefix, with that cursor.
    pub fn with_cursor_of(&self, cursor: &String) -> (r: ListOptionsBuilder)
        ensures
            r@ == (ListOptionsView { cursor: Some(cursor@), ..self@ }),
    {
        ListOptionsBuilder {
            limit: self.limit,
            cursor: Some(cursor.clone()),
            prefix: clone_opt(&self.prefix),
        }
    }

    /// The options object sent with the list, as JSON text.
    pub fn options_json(&self) -> (r: String)
        ensures
            r@ == list_options_text(self@),
    {
        let mut out = String::from_str("{\"limit\":");
        push_number_or_null(&mut out, self.limit);
        out.append(",\"cursor\":");
        push_quoted_or_null(&mut out, &self.cursor);
        out.append(",\"prefix\":");
        push_quoted_or_null(&mut out, &self.prefix);
        out.append("}");
        out
    }
}

} // verus!
