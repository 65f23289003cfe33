use crate::builder::{opt_text, put_options_text};
use crate::json::number_or_null;
use crate::error::KvError;
use crate::value::KvValue;
use vstd::prelude::*;
use wasm_bindgen::JsValue;

verus! {

/// What a read with metadata finds.
pub enum MetadataRead {
    /// The key does not exist.
    Absent,
    /// The key exists, with no metadata.
    MissingMetadata,
    /// The key exists with this value and this metadata.
    Found(Seq<char>, Seq<char>),
}

/// How a read with metadata is decided from the value and the metadata that
/// the store sent back: an absent value means an absent key, whatever the
/// metadata; a present value without metadata is the missing-metadata case.
pub open spec fn read_with_metadata(
    value: Option<Seq<char>>,
    metadata: Option<Seq<char>>,
) -> MetadataRead {
    match value {
        None => MetadataRead::Absent,
        Some(v) => match metadata {
            None => MetadataRead::MissingMetadata,
            Some(m) => MetadataRead::Found(v, m),
        },
    }
}

/// Decides the result of binding to the store named `binding`, given whether
/// the host found nothing under that name.
pub fn resolve_binding(binding: &str, is_undefined: bool) -> (r: Result<(), KvError>)
    ensures
        r is Ok <==> !is_undefined,
        r matches Err(e) ==> e matches KvError::InvalidKvStore(n) && n@ == binding@,
{
    if is_undefined {
        Err(KvError::InvalidKvStore(binding.to_owned()))
    } else {
        Ok(())
    }
}

/// Decodes the reply to a get: the text of the value, none where the key is
/// absent, or the failure of the round trip.
pub fn decode_get(reply: Result<Option<String>, JsValue>) -> (r: Result<Option<KvValue>, KvError>)
    ensures
        match reply {
            Err(e) => r == Err::<Option<KvValue>, KvError>(KvError::JavaScript(e)),
            Ok(None) => r == Ok::<Option<KvValue>, KvError>(None),
            Ok(Some(t)) => r matches Ok(Some(v)) && v@ == t@,
        },
{
    match reply {
        Err(e) => Err(KvError::JavaScript(e)),
        Ok(None) => Ok(None),
        Ok(Some(t)) => Ok(Some(KvValue::from_text(t))),
    }
}

/// Decodes the reply to a get with metadata, given as the value's text and
/// the metadata's JSON text, each none where the store sent null or nothing.
pub fn decode_get_with_metadata(reply: Result<(Option<String>, Option<String>), JsValue>) -> (r:
    Result<Option<(KvValue, String)>, KvError>)
    ensures
        match reply {
            Err(e) => r == Err::<Option<(KvValue, String)>, KvError>(KvError::JavaScript(e)),
            Ok((v, m)) => match read_with_metadata(opt_text(v), opt_text(m)) {
                MetadataRead::Absent => r == Ok::<Option<(KvValue, String)>, KvError>(None),
                MetadataRead::MissingMetadata => r matches Err(e) && e is InvalidMetadata,
                MetadataRead::Found(value, metadata) => r matches Ok(Some((x, y))) && x@ == value
                    && y@ == metadata,
            },
        },
{
    match reply {
        Err(e) => Err(KvError::JavaScript(e)),
        Ok((None, _)) => Ok(None),
        Ok((Some(_), None)) => Err(
            KvError::InvalidMetadata("metadata was undefined or null".to_owned()),
        ),
        Ok((Some(v), Some(m))) => Ok(Some((KvValue::from_text(v), m))),
    }
}

/// Decodes the acknowledgement of a put or a delete: success, or the failure
/// of the round trip. A delete of a key that does not exist is acknowledged
/// like any other.
pub fn decode_ack(reply: Result<(), JsValue>) -> (r: Result<(), KvError>)
    ensures
        match reply {
            Ok(()) => r is Ok,
            Err(e) => r == Err::<(), KvError>(KvError::JavaScript(e)),
        },
{
    match reply {
        Ok(()) => Ok(()),
        Err(e) => Err(KvError::JavaScript(e)),
    }
}

/// Metadata put with a value comes back with it: the put's options carry
/// the metadata text as it was given, and a read that finds the value and
/// that metadata yields both unchanged.
pub proof fn lemma_metadata_round_trip(
    value: Seq<char>,
    metadata: Seq<char>,
    expiration: Option<u64>,
    expiration_ttl: Option<u64>,
)
    ensures
        put_options_text(expiration, expiration_ttl, Some(metadata)) == "{\"expiration\":"@
            + number_or_null(expiration) + ",\"expirationTtl\":"@ + number_or_null(expiration_ttl)
            + ",\"metadata\":"@ + metadata + "}"@,
        read_with_metadata(Some(value), Some(metadata)) == MetadataRead::Found(value, metadata),
{
}

} // verus!
