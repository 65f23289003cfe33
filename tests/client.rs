use wasm_bindgen::JsValue;
use worker_kv::json::push_decimal;
use worker_kv::{
    decode_ack, decode_get, decode_get_with_metadata, json_payload_of, resolve_binding,
    str_payload, Key, KvError, ListOptionsBuilder, ListResponse, PutOptionsBuilder,
};

fn page(keys: Vec<Key>, list_complete: bool, cursor: Option<&str>) -> ListResponse {
    ListResponse {
        keys,
        list_complete,
        cursor: cursor.map(|c| c.to_string()),
    }
}

fn key(name: &str, metadata: Option<serde_json::Value>) -> Key {
    Key {
        name: name.to_string(),
        expiration: None,
        metadata,
    }
}

#[test]
fn get_reads_value_text() {
    let v = decode_get(Ok(Some("b".to_string()))).unwrap().unwrap();
    assert_eq!(v.as_bytes(), b"b");
    assert_eq!(v.as_string(), "b");
}

#[test]
fn get_of_unwritten_key_is_none() {
    assert!(matches!(decode_get(Ok(None)), Ok(None)));
}

#[test]
fn get_failure_is_transport_error() {
    assert!(matches!(
        decode_get(Err(JsValue::UNDEFINED)),
        Err(KvError::JavaScript(_))
    ));
}

#[test]
fn get_with_metadata_of_absent_key_is_none() {
    assert!(matches!(decode_get_with_metadata(Ok((None, None))), Ok(None)));
    assert!(matches!(
        decode_get_with_metadata(Ok((None, Some("1".to_string())))),
        Ok(None)
    ));
}

#[test]
fn get_with_metadata_without_metadata_fails() {
    let r = decode_get_with_metadata(Ok((Some("b".to_string()), None)));
    match r {
        Err(KvError::InvalidMetadata(m)) => assert_eq!(m, "metadata was undefined or null"),
        _ => panic!("expected missing metadata"),
    }
}

#[test]
fn get_with_metadata_transport_error() {
    assert!(matches!(
        decode_get_with_metadata(Err(JsValue::NULL)),
        Err(KvError::JavaScript(_))
    ));
}

#[test]
fn delete_acknowledged_succeeds() {
    assert!(decode_ack(Ok(())).is_ok());
    assert!(matches!(decode_ack(Err(JsValue::NULL)), Err(KvError::JavaScript(_))));
}

#[test]
fn unknown_binding_is_invalid_store() {
    assert!(resolve_binding("EXAMPLE", false).is_ok());
    match resolve_binding("EXAMPLE", true) {
        Err(e) => {
            assert_eq!(e.message().unwrap(), "KvError::InvalidKvStore: EXAMPLE");
            assert!(matches!(e, KvError::InvalidKvStore(ref n) if n == "EXAMPLE"));
        }
        Ok(()) => panic!("expected an error"),
    }
}

#[test]
fn error_messages_name_their_kind() {
    let e = KvError::InvalidMetadata("none".to_string());
    assert_eq!(e.message().unwrap(), "KvError::InvalidMetadata: none");
    assert!(KvError::JavaScript(JsValue::NULL).message().is_none());
    let bad = serde_json::from_str::<u8>("x").unwrap_err();
    let m = KvError::Serialization(bad).message().unwrap();
    assert!(m.starts_with("KvError::Serialization: "));
    assert!(m.len() > "KvError::Serialization: ".len());
}

#[test]
fn put_without_options() {
    let b = PutOptionsBuilder::new("a", "b".to_string());
    assert_eq!(b.name(), "a");
    assert_eq!(b.value(), "b");
    assert_eq!(
        b.options_json(),
        "{\"expiration\":null,\"expirationTtl\":null,\"metadata\":null}"
    );
}

#[test]
fn put_with_ttl_sends_ttl() {
    let b = PutOptionsBuilder::new("b", "c".to_string()).expiration_ttl(10 * 60);
    assert_eq!(
        b.options_json(),
        "{\"expiration\":null,\"expirationTtl\":600,\"metadata\":null}"
    );
}

#[test]
fn put_with_expiration_and_metadata() {
    let b = PutOptionsBuilder::new("d", "e".to_string())
        .metadata("20".to_string())
        .unwrap()
        .expiration(1700000000);
    assert_eq!(
        b.options_json(),
        "{\"expiration\":1700000000,\"expirationTtl\":null,\"metadata\":20}"
    );
}

#[test]
fn put_metadata_must_be_json() {
    let r = PutOptionsBuilder::new("c", "d".to_string()).metadata("{".to_string());
    assert!(matches!(r, Err(KvError::Serialization(_))));
    let ok = PutOptionsBuilder::new("c", "d".to_string())
        .metadata("[1, 2, 3, 4]".to_string())
        .unwrap();
    assert_eq!(
        ok.options_json(),
        "{\"expiration\":null,\"expirationTtl\":null,\"metadata\":[1, 2, 3, 4]}"
    );
}

#[test]
fn decimal_numerals() {
    let mut s = String::new();
    push_decimal(&mut s, 0);
    assert_eq!(s, "0");
    let mut s = "x".to_string();
    push_decimal(&mut s, u64::MAX);
    assert_eq!(s, "x18446744073709551615");
}

#[test]
fn list_without_options() {
    assert_eq!(
        ListOptionsBuilder::new().options_json(),
        "{\"limit\":null,\"cursor\":null,\"prefix\":null}"
    );
}

#[test]
fn list_options_quote_strings() {
    let o = ListOptionsBuilder::new()
        .limit(10)
        .cursor("c1".to_string())
        .prefix("a\"b\\".to_string());
    assert_eq!(
        o.options_json(),
        "{\"limit\":10,\"cursor\":\"c1\",\"prefix\":\"a\\\"b\\\\\"}"
    );
}

#[test]
fn list_options_escape_control_characters() {
    let o = ListOptionsBuilder::new().prefix("a\nb\u{1}\u{1f}\u{7f}é".to_string());
    assert_eq!(
        o.options_json(),
        "{\"limit\":null,\"cursor\":null,\"prefix\":\"a\\nb\\u0001\\u001f\u{7f}é\"}"
    );
}

#[test]
fn string_payload_is_unquoted() {
    assert_eq!(str_payload("b"), "b");
    assert_eq!(json_payload_of("\"b\""), "b");
    assert_eq!(json_payload_of("\"say \\\"hi\\\"\""), "say \"hi\"");
    assert_eq!(json_payload_of("[1,2]"), "[1,2]");
    assert_eq!(json_payload_of("10"), "10");
}

#[test]
fn value_as_json() {
    let v = decode_get(Ok(Some("{\"a\":1}".to_string()))).unwrap().unwrap();
    let j = v.as_json().unwrap();
    assert_eq!(j["a"], serde_json::Value::from(1));
    let v = decode_get(Ok(Some("not json".to_string()))).unwrap().unwrap();
    assert!(matches!(v.as_json(), Err(KvError::Serialization(_))));
}

#[test]
fn pagination_follows_cursor() {
    let request = ListOptionsBuilder::new().limit(2).prefix("k".to_string());
    let first = page(vec![key("k1", None), key("k2", None)], false, Some("c1"));
    assert!(!first.is_truncated());
    let next = first.next_request(&request).unwrap();
    assert_eq!(
        next.options_json(),
        "{\"limit\":2,\"cursor\":\"c1\",\"prefix\":\"k\"}"
    );
    let last = page(vec![key("k3", None)], true, None);
    assert!(last.next_request(&next).is_none());
    assert!(!last.is_truncated());
}

#[test]
fn pagination_enumerates_each_key_once() {
    let names = ["k1", "k2", "k3", "k4", "k5"];
    let limit = 2;
    let mut request = ListOptionsBuilder::new().limit(limit as u64);
    let mut seen: Vec<String> = Vec::new();
    let mut pages = 0;
    loop {
        // a store holding the five keys, answering with pages of `limit`
        let start = pages * limit;
        let end = (start + limit).min(names.len());
        let complete = end == names.len();
        let keys = names[start..end].iter().map(|n| key(n, None)).collect();
        let cursor = format!("after-{}", end);
        let p = page(keys, complete, if complete { None } else { Some(&cursor) });
        pages += 1;
        for k in &p.keys {
            seen.push(k.name.clone());
        }
        match p.next_request(&request) {
            Some(next) => {
                assert!(!p.list_complete);
                assert!(next.options_json().contains(&format!("\"{}\"", cursor)));
                request = next;
            }
            None => {
                assert!(p.list_complete);
                break;
            }
        }
    }
    assert_eq!(pages, 3);
    assert_eq!(seen, names.iter().map(|n| n.to_string()).collect::<Vec<_>>());
}

#[test]
fn incomplete_page_without_cursor_stops() {
    let request = ListOptionsBuilder::new();
    let p = page(vec![], false, None);
    assert!(p.is_truncated());
    assert!(p.next_request(&request).is_none());
    let p = page(vec![], false, Some(""));
    assert!(p.is_truncated());
    assert!(p.next_request(&request).is_none());
}

#[test]
fn scenario_put_get_list() {
    // put "a" -> "b" with no options, and "c" -> "d" with metadata 10
    let a = PutOptionsBuilder::new("a", str_payload("b"));
    assert_eq!(a.value(), "b");
    let c = PutOptionsBuilder::new("c", str_payload("d"))
        .metadata(serde_json::to_string(&10u8).unwrap())
        .unwrap();
    assert!(c.options_json().ends_with("\"metadata\":10}"));

    // get("a") reads "b"
    let got = decode_get(Ok(Some(a.value().to_string()))).unwrap().unwrap();
    assert_eq!(got.as_string(), "b");

    // get_with_metadata::<u8>("c") reads ("d", 10)
    let (v, m) = decode_get_with_metadata(Ok((Some("d".to_string()), Some("10".to_string()))))
        .unwrap()
        .unwrap();
    assert_eq!(v.as_string(), "d");
    assert_eq!(serde_json::from_str::<u8>(&m).unwrap(), 10);

    // a listing of a store holding "a" and "c" is one complete page
    let listing = page(
        vec![key("a", None), key("c", Some(serde_json::Value::from(10)))],
        true,
        None,
    );
    assert!(listing.next_request(&ListOptionsBuilder::new()).is_none());
    assert_eq!(listing.keys[0].name, "a");
    assert!(listing.keys[0].metadata.is_none());
    assert_eq!(listing.keys[1].name, "c");
    assert_eq!(listing.keys[1].metadata, Some(serde_json::Value::from(10)));
    assert!(listing.cursor.is_none());
}
