use vstd::prelude::*;

use crate::error::{DecodeError, ErrorKind};
use crate::traits::FromBytes;

verus! {

/// serde_json's JSON value, carried through as an opaque value.
#[verifier::external_type_specification]
#[verifier::external_body]
pub struct ExJsonValue(serde_json::Value);

/// How serde_json rejects `bytes` as one JSON value: `None` where it accepts them.
pub uninterp spec fn json_failure(bytes: Seq<u8>) -> Option<DecodeError>;

/// The error that serde_json reports for an empty buffer: the input ends
/// before any value, at line 1, column 0.
pub open spec fn empty_input_error() -> DecodeError {
    DecodeError { kind: ErrorKind::Eof, line: 1, column: 0 }
}

/// Relies on serde_json::from_slice into serde_json::Value: it accepts exactly
/// the buffers that hold one JSON value (with surrounding whitespace), and its
/// error, classified by serde_json::Error::classify and located by `line` and
/// `column`, depends on the bytes alone. An empty buffer ends while a value is
/// expected, at line 1, column 0.
#[verifier::external_body]
fn parse_json_value(bytes: &[u8]) -> (r: Result<serde_json::Value, DecodeError>)
    ensures
        match r {
            Ok(_) => json_failure(bytes@) is None,
            Err(e) => json_failure(bytes@) == Some(e),
        },
        bytes@.len() == 0 ==> r is Err,
        bytes@.len() == 0 ==> r->Err_0 == empty_input_error(),
{
    serde_json::from_slice(bytes).map_err(|e| DecodeError {
        kind: match e.classify() {
            serde_json::error::Category::Io => ErrorKind::Io,
            serde_json::error::Category::Syntax => ErrorKind::Syntax,
            serde_json::error::Category::Data => ErrorKind::Data,
            serde_json::error::Category::Eof => ErrorKind::Eof,
        },
        line: e.line(),
        column: e.column(),
    })
}

/// A value decoded from bytes that hold JSON text.
#[derive(Debug)]
pub struct Json<T>(pub T);

/// The outcomes of decoding `bytes` as JSON: success exactly where the bytes
/// hold one JSON value, and otherwise the error that locates the fault.
pub open spec fn json_outcome_spec<T>(bytes: Seq<u8>, r: Result<T, DecodeError>) -> bool {
    &&& r is Ok <==> json_failure(bytes) is None
    &&& r is Err ==> json_failure(bytes) == Some(r->Err_0)
    &&& bytes.len() == 0 ==> r == Err::<T, DecodeError>(empty_input_error())
}

impl FromBytes for Json<serde_json::Value> {
    type Error = DecodeError;

    open spec fn from_bytes_spec(bytes: Seq<u8>, r: Result<Self, DecodeError>) -> bool {
        json_outcome_spec(bytes, r)
    }

    fn from_bytes(bytes: &[u8]) -> (r: Result<Self, DecodeError>) {
        match parse_json_value(bytes) {
            Ok(v) => Ok(Json(v)),
            Err(e) => Err(e),
        }
    }
}

} // verus!
