use std::cell::Cell;

use fluvio_extractors::{
    dispatch2, extract2, BindError, CheckOpt, DecodeError, ErrorKind, FromBytes, FromRecord, Json, Key,
    KeyError, Payload, Record, Timestamp,
};

type JsonPayload = Payload<Json<serde_json::Value>>;

fn message_record() -> Record {
    let mut fields = serde_json::Map::new();
    fields.insert(
        "message".to_string(),
        serde_json::Value::String("Hello world".to_string()),
    );
    let value = serde_json::to_string(&serde_json::Value::Object(fields)).unwrap();
    Record::new(value.into_bytes())
}

fn message_of(value: &serde_json::Value) -> Option<&str> {
    value.get("message").and_then(|m| m.as_str())
}

#[test]
fn test_value_from_record() {
    let record = message_record();
    let arg: JsonPayload = match FromRecord::from_record(&record) {
        Ok(inner) => inner,
        Err(e) => panic!("failed: {:?}", e),
    };
    let Payload(Json(item)) = arg;
    println!("Got: {:?}", message_of(&item));
    assert_eq!(message_of(&item), Some("Hello world"));
}

#[test]
fn hello_world_text_decodes_to_its_message() {
    let record = Record::new(b"{\"message\":\"Hello world\"}".to_vec());
    let Payload(Json(item)) = JsonPayload::from_record(&record).unwrap();
    assert_eq!(message_of(&item), Some("Hello world"));
    assert_eq!(item.as_object().map(|o| o.len()), Some(1));
}

#[test]
fn malformed_payload_is_a_syntax_error() {
    let record = Record::new(b"{bad".to_vec());
    let err = JsonPayload::from_record(&record).unwrap_err();
    assert_eq!(err, DecodeError { kind: ErrorKind::Syntax, line: 1, column: 2 });
    assert!(err.is_payload_error());
}

#[test]
fn trailing_bytes_are_a_syntax_error() {
    let err = Json::<serde_json::Value>::from_bytes(b"{\"a\":1} x").unwrap_err();
    assert_eq!(err.kind, ErrorKind::Syntax);
}

#[test]
fn truncated_payload_is_an_eof_error() {
    let err = Json::<serde_json::Value>::from_bytes(b"[1, 2").unwrap_err();
    assert_eq!(err.kind, ErrorKind::Eof);
}

#[test]
fn empty_payload_fails_the_same_way_every_time() {
    let record = Record::new(Vec::new());
    let first = JsonPayload::from_record(&record).unwrap_err();
    let second = JsonPayload::from_record(&record).unwrap_err();
    let expected = DecodeError { kind: ErrorKind::Eof, line: 1, column: 0 };
    assert_eq!(first, expected);
    assert_eq!(second, expected);
}

#[test]
fn json_round_trip_gives_back_the_value() {
    let mut fields = serde_json::Map::new();
    fields.insert("n".to_string(), serde_json::Value::from(42u64));
    fields.insert("flag".to_string(), serde_json::Value::Bool(true));
    fields.insert(
        "list".to_string(),
        serde_json::Value::Array(vec![serde_json::Value::Null, serde_json::Value::from("x")]),
    );
    let values = vec![
        serde_json::Value::Null,
        serde_json::Value::from(-7i64),
        serde_json::Value::from("text with \"quotes\""),
        serde_json::Value::Object(fields),
    ];
    for v in values {
        let bytes = serde_json::to_vec(&v).unwrap();
        let Json(decoded) = Json::<serde_json::Value>::from_bytes(&bytes).unwrap();
        assert_eq!(decoded, v);
    }
}

#[test]
fn payload_wrapper_matches_direct_decoding() {
    let inputs: Vec<&[u8]> = vec![b"[1,2,3]", b"{bad", b"", b"\"s\""];
    for bytes in inputs {
        let direct = Json::<serde_json::Value>::from_bytes(bytes).map(|Json(v)| v);
        let wrapped = JsonPayload::from_record(&Record::new(bytes.to_vec())).map(|Payload(Json(v))| v);
        assert_eq!(direct, wrapped);
    }
}

#[test]
fn independent_records_decode_alike_in_any_order() {
    let a = Record::new(b"{\"k\":1}".to_vec());
    let b = Record::new(b"nope".to_vec());
    let a1 = JsonPayload::from_record(&a).map(|Payload(Json(v))| v);
    let b1 = JsonPayload::from_record(&b).map(|Payload(Json(v))| v);
    let b2 = JsonPayload::from_record(&b).map(|Payload(Json(v))| v);
    let a2 = JsonPayload::from_record(&a).map(|Payload(Json(v))| v);
    assert_eq!(a1, a2);
    assert_eq!(b1, b2);
    assert!(a1.is_ok());
    assert!(b1.is_err());
}

#[test]
fn raw_payload_bytes_are_kept() {
    let record = Record::new(vec![0u8, 255, 7]);
    let Payload(bytes) = Payload::<Vec<u8>>::from_record(&record).unwrap();
    assert_eq!(bytes, vec![0u8, 255, 7]);
}

#[test]
fn key_is_decoded_when_present() {
    let record = Record::new_key_value(b"\"user-1\"".to_vec(), b"{}".to_vec());
    let Key(Json(key)) = Key::<Json<serde_json::Value>>::from_record(&record).unwrap();
    assert_eq!(key.as_str(), Some("user-1"));
    assert_eq!(record.key(), Some(&b"\"user-1\""[..]));
}

#[test]
fn missing_key_is_reported() {
    let record = Record::new(b"{}".to_vec());
    let result = Key::<Vec<u8>>::from_record(&record);
    assert!(matches!(result, Err(KeyError::Missing)));
    assert_eq!(
        DecodeError::missing_field(),
        DecodeError { kind: ErrorKind::MissingField, line: 0, column: 0 }
    );
    assert!(!DecodeError::missing_field().is_payload_error());
}

#[test]
fn malformed_key_is_a_decode_error() {
    let record = Record::new_key_value(b"{".to_vec(), b"{}".to_vec());
    let result = Key::<Json<serde_json::Value>>::from_record(&record);
    match result {
        Err(KeyError::Decode(e)) => assert_eq!(e.kind, ErrorKind::Eof),
        other => panic!("unexpected: {:?}", other),
    }
}

#[test]
fn timestamp_is_read_from_metadata() {
    let record = Record::new(Vec::new()).with_timestamp(1_700_000_000_000);
    assert_eq!(Timestamp::from_record(&record).unwrap(), Timestamp(1_700_000_000_000));
    let plain = Record::new(Vec::new());
    assert_eq!(Timestamp::from_record(&plain).unwrap(), Timestamp(-1));
    assert_eq!(plain.timestamp(), -1);
}

#[test]
fn both_arguments_decode() {
    let record = Record::new_key_value(b"7".to_vec(), b"[true]".to_vec());
    let (Key(Json(k)), Payload(Json(v))) =
        extract2::<Key<Json<serde_json::Value>>, JsonPayload>(&record).unwrap();
    assert_eq!(k.as_u64(), Some(7));
    assert_eq!(v, serde_json::Value::Array(vec![serde_json::Value::Bool(true)]));
}

#[test]
fn second_argument_failure_skips_the_handler() {
    let record = Record::new(b"not json".to_vec());
    let called = Cell::new(false);
    let result = dispatch2::<Payload<Vec<u8>>, JsonPayload, (), _>(&record, |_raw, _json| {
        called.set(true);
    });
    assert!(!called.get());
    match result {
        Err(BindError::Second(e)) => assert_eq!(e.kind, ErrorKind::Syntax),
        other => panic!("unexpected: {:?}", other.map(|_| ())),
    }
}

#[test]
fn first_argument_failure_is_reported_first() {
    let record = Record::new(b"".to_vec());
    let result = extract2::<Key<Vec<u8>>, JsonPayload>(&record);
    assert!(matches!(result, Err(BindError::First(KeyError::Missing))));
}

#[test]
fn handler_runs_when_every_argument_decodes() {
    let record = Record::new(b"{\"message\":\"Hello world\"}".to_vec()).with_timestamp(5);
    let result = dispatch2::<Timestamp, JsonPayload, String, _>(&record, |t, Payload(Json(v))| {
        format!("{}:{}", t.0, message_of(&v).unwrap_or(""))
    });
    assert_eq!(result.unwrap(), "5:Hello world");
}

#[test]
fn key_errors_become_decode_errors() {
    let missing: KeyError<DecodeError> = KeyError::Missing;
    assert_eq!(missing.into_decode_error().kind, ErrorKind::MissingField);
    let inner = DecodeError { kind: ErrorKind::Syntax, line: 3, column: 4 };
    assert_eq!(KeyError::Decode(inner).into_decode_error(), inner);
}

#[test]
fn error_kinds_have_descriptions() {
    assert_eq!(ErrorKind::Syntax.description(), "input is not well-formed");
    assert_eq!(ErrorKind::Eof.description(), "input ended before a complete value");
    assert_eq!(ErrorKind::MissingField.description(), "record lacks the requested field");
    assert_ne!(ErrorKind::Data.description(), ErrorKind::Io.description());
}

#[test]
fn check_options_are_empty() {
    assert_eq!(CheckOpt::default(), CheckOpt {});
}
