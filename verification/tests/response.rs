use redis_macros_derive::response::{
    append_rejected_detail, append_unexpected_detail, decode_outcome, encode_outcome,
    DecodeErrorKind, StoreValue,
};

fn toy_serialize(value: &(u8, String)) -> Option<Vec<u8>> {
    let mut bytes = vec![value.0];
    bytes.extend_from_slice(value.1.as_bytes());
    Some(bytes)
}

fn toy_deserialize(bytes: &[u8]) -> Option<(u8, String)> {
    let (first, rest) = bytes.split_first()?;
    Some((*first, String::from_utf8(rest.to_vec()).ok()?))
}

#[test]
fn decoded_blob_is_the_answer() {
    let value = StoreValue::Data(vec![1, 2, 3]);
    let answer = decode_outcome("Test", "bincode", &value, "data([1, 2, 3])", Some(42u32));
    assert_eq!(answer.unwrap(), 42);
}

#[test]
fn rejected_blob_names_type_and_codec() {
    let value = StoreValue::Data(vec![255]);
    let answer = decode_outcome::<u32>("Test", "bincode", &value, "data([255])", None);
    let error = answer.unwrap_err();
    assert_eq!(error.kind, DecodeErrorKind::TypeMismatch);
    assert_eq!(error.message, "Response was of incompatible type");
    assert_eq!(
        error.detail,
        "Response type not deserializable to Test with bincode. (response was data([255]))"
    );
    assert!(error.detail.contains("Test"));
    assert!(error.detail.contains("bincode"));
}

#[test]
fn rejected_blob_names_the_configured_codec() {
    let value = StoreValue::Data(vec![]);
    let error = decode_outcome::<u32>("Test", "serde_yaml", &value, "data([])", None).unwrap_err();
    assert_eq!(
        error.detail,
        "Response type not deserializable to Test with serde_yaml. (response was data([]))"
    );
}

#[test]
fn other_responses_name_the_type_only() {
    let cases = vec![
        (StoreValue::Nil, "nil"),
        (StoreValue::Int(7), "int(7)"),
        (StoreValue::Bulk(vec![StoreValue::Data(vec![1]), StoreValue::Nil]), "bulk(data([1]), nil)"),
        (StoreValue::Status("PONG".to_string()), "status(\"PONG\")"),
        (StoreValue::Okay, "ok"),
        (StoreValue::Error("ERR unknown command".to_string()), "error(\"ERR unknown command\")"),
    ];
    for (value, rendering) in cases {
        for decoded in [None, Some(1u32)] {
            let error =
                decode_outcome("Test", "some_codec", &value, rendering, decoded).unwrap_err();
            assert_eq!(error.kind, DecodeErrorKind::TypeMismatch);
            assert_eq!(error.message, "Response was of incompatible type");
            assert_eq!(
                error.detail,
                format!(
                    "Response type was not deserializable to Test. (response was {})",
                    rendering
                )
            );
            assert!(error.detail.contains("Test"));
            assert!(!error.detail.contains("some_codec"));
        }
    }
}

#[test]
fn details_are_appended() {
    let mut out = String::from("> ");
    append_rejected_detail(&mut out, "A", "b", "c");
    assert_eq!(out, "> Response type not deserializable to A with b. (response was c)");
    let mut out = String::from("> ");
    append_unexpected_detail(&mut out, "A", "c");
    assert_eq!(out, "> Response type was not deserializable to A. (response was c)");
}

#[test]
fn encode_writes_one_argument() {
    let value = (7u8, "Hello".to_string());
    let bytes = toy_serialize(&value).unwrap();
    let mut sink: Vec<Vec<u8>> = Vec::new();
    encode_outcome(bytes.clone(), &mut sink);
    assert_eq!(sink, vec![bytes.clone()]);
    assert_eq!(sink[0], vec![7, b'H', b'e', b'l', b'l', b'o']);
    encode_outcome(vec![], &mut sink);
    assert_eq!(sink, vec![bytes, vec![]]);
}

#[test]
fn round_trip_gives_the_value_back() {
    let value = (42u8, "Hello".to_string());
    let mut sink: Vec<Vec<u8>> = Vec::new();
    encode_outcome(toy_serialize(&value).unwrap(), &mut sink);
    let stored = StoreValue::Data(sink.pop().unwrap());
    let decoded = match &stored {
        StoreValue::Data(bytes) => toy_deserialize(bytes),
        _ => None,
    };
    let answer = decode_outcome("Test", "toy", &stored, "data(..)", decoded);
    assert_eq!(answer.unwrap(), value);
}

#[test]
fn blob_that_the_codec_rejects_after_a_round_trip() {
    let stored = StoreValue::Data(vec![1, 0xff, 0xfe]);
    let decoded = match &stored {
        StoreValue::Data(bytes) => toy_deserialize(bytes),
        _ => None,
    };
    assert!(decoded.is_none());
    let error = decode_outcome("Test", "toy", &stored, "data(..)", decoded).unwrap_err();
    assert_eq!(
        error.detail,
        "Response type not deserializable to Test with toy. (response was data(..))"
    );
}
