use vstd::prelude::*;

use crate::error::{DecodeError, ErrorKind};
use crate::extract::Payload;
use crate::json::{empty_input_error, json_failure, Json};
use crate::record::RecordView;
use crate::traits::{FromBytes, FromRecord};

verus! {

/// Decoding a record through the payload wrapper gives exactly what the inner
/// byte decoder gives on the record's payload: the same value, or the same error.
pub proof fn lemma_payload_composes<T: FromBytes>(record: RecordView, t: T, e: T::Error)
    ensures
        Payload::<T>::from_record_spec(record, Ok(Payload(t))) == T::from_bytes_spec(
            record.value,
            Ok(t),
        ),
        Payload::<T>::from_record_spec(record, Err(e)) == T::from_bytes_spec(record.value, Err(e)),
{
}

/// A buffer that is not one JSON value never decodes: every outcome is the
/// error that locates the fault.
pub proof fn lemma_malformed_json_fails(bytes: Seq<u8>, r: Result<Json<serde_json::Value>, DecodeError>)
    requires
        json_failure(bytes) is Some,
        Json::<serde_json::Value>::from_bytes_spec(bytes, r),
    ensures
        r is Err,
        Some(r->Err_0) == json_failure(bytes),
{
}

/// An empty payload fails on every decoding, always with the same error: the
/// input ends before a value.
pub proof fn lemma_empty_payload_fails(
    record: RecordView,
    r1: Result<Payload<Json<serde_json::Value>>, DecodeError>,
    r2: Result<Payload<Json<serde_json::Value>>, DecodeError>,
)
    requires
        record.value.len() == 0,
        Payload::<Json<serde_json::Value>>::from_record_spec(record, r1),
        Payload::<Json<serde_json::Value>>::from_record_spec(record, r2),
    ensures
        r1 is Err,
        r2 is Err,
        r1->Err_0 == r2->Err_0,
        r1->Err_0 == empty_input_error(),
        r1->Err_0.kind == ErrorKind::Eof,
{
}

/// Decoding JSON payloads keeps no state between calls: two decodings of
/// records with the same payload, whenever and wherever they run, agree on
/// success and give the same error.
pub proof fn lemma_json_payload_decoding_agrees(
    record1: RecordView,
    record2: RecordView,
    r1: Result<Payload<Json<serde_json::Value>>, DecodeError>,
    r2: Result<Payload<Json<serde_json::Value>>, DecodeError>,
)
    requires
        record1.value == record2.value,
        Payload::<Json<serde_json::Value>>::from_record_spec(record1, r1),
        Payload::<Json<serde_json::Value>>::from_record_spec(record2, r2),
    ensures
        r1 is Ok <==> r2 is Ok,
        r1 is Err ==> r1->Err_0 == r2->Err_0,
{
}

} // verus!
