use std::io::Read;

use loki_ship::batch::Batch;
use loki_ship::task::{LokiEngine, Payload};
use loki_ship::wire::{dec_string_u128, json_string, serialize_wire_body};
use loki_ship::FailurePolicy;

fn pairs(raw: &[(&str, &str)]) -> Vec<(String, String)> {
    raw.iter().map(|(k, v)| (k.to_string(), v.to_string())).collect()
}

#[test]
fn wire_body_has_loki_push_shape() {
    let labels = pairs(&[("app", "test")]);
    let entries = vec![(1u128, "hello".to_string())];
    assert_eq!(
        serialize_wire_body(&labels, &entries),
        "{\"streams\":[{\"stream\":{\"app\":\"test\"},\"values\":[[\"1\",\"hello\"]]}]}"
    );
}

#[test]
fn wire_body_joins_labels_and_entries_with_commas() {
    let labels = pairs(&[("app", "test"), ("env", "dev")]);
    let entries = vec![(10u128, "first".to_string()), (20u128, "second".to_string())];
    assert_eq!(
        serialize_wire_body(&labels, &entries),
        "{\"streams\":[{\"stream\":{\"app\":\"test\",\"env\":\"dev\"},\
         \"values\":[[\"10\",\"first\"],[\"20\",\"second\"]]}]}"
    );
}

#[test]
fn wire_body_with_nothing_is_still_well_formed() {
    let labels: Vec<(String, String)> = Vec::new();
    let entries: Vec<(u128, String)> = Vec::new();
    assert_eq!(
        serialize_wire_body(&labels, &entries),
        "{\"streams\":[{\"stream\":{},\"values\":[]}]}"
    );
}

#[test]
fn json_strings_are_escaped() {
    assert_eq!(json_string("plain"), "\"plain\"");
    assert_eq!(json_string("a\"b"), "\"a\\\"b\"");
    assert_eq!(json_string("a\\b"), "\"a\\\\b\"");
    assert_eq!(json_string("a\nb\rc\td"), "\"a\\nb\\rc\\td\"");
    assert_eq!(json_string("\u{8}\u{c}"), "\"\\b\\f\"");
    assert_eq!(json_string("\u{1}\u{1f}"), "\"\\u0001\\u001f\"");
}

#[test]
fn timestamps_render_as_decimal_strings() {
    assert_eq!(dec_string_u128(0), "0");
    assert_eq!(dec_string_u128(12345), "12345");
    assert_eq!(
        dec_string_u128(u128::MAX),
        "340282366920938463463374607431768211455"
    );
}

#[test]
fn batch_serializes_its_labels_and_entries() {
    let mut batch = Batch::new(pairs(&[("job", "demo")]));
    batch.push_entry(42, "a line".to_string());
    assert_eq!(
        batch.serialize(),
        "{\"streams\":[{\"stream\":{\"job\":\"demo\"},\"values\":[[\"42\",\"a line\"]]}]}"
    );
}

#[test]
fn uncompressed_payload_is_the_wire_text() {
    let engine = LokiEngine::new(pairs(&[("app", "test")]), 2, 1_000, FailurePolicy::Drop, false);
    let mut batch = Batch::new(pairs(&[("app", "test")]));
    batch.push_entry(1, "x".to_string());
    match engine.prepare_payload(&batch).expect("text payloads always succeed") {
        Payload::Text(body) => assert_eq!(body, batch.serialize()),
        Payload::Gzip(_) => panic!("compression is off"),
    }
}

#[test]
fn compressed_payload_gunzips_back_to_the_wire_text() {
    let engine = LokiEngine::new(pairs(&[("app", "test")]), 2, 1_000, FailurePolicy::Drop, true);
    let mut batch = Batch::new(pairs(&[("app", "test")]));
    batch.push_entry(7, "compress me".to_string());
    let bytes = match engine.prepare_payload(&batch).expect("gzip into a buffer succeeds") {
        Payload::Gzip(bytes) => bytes,
        Payload::Text(_) => panic!("compression is on"),
    };
    assert_ne!(bytes, batch.serialize().into_bytes());
    let mut decoder = flate2::read::GzDecoder::new(&bytes[..]);
    let mut restored = String::new();
    decoder.read_to_string(&mut restored).expect("valid gzip stream");
    assert_eq!(restored, batch.serialize());
}
