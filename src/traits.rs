use vstd::prelude::*;

use crate::record::{Record, RecordView};

verus! {

/// A type that can be decoded from a byte buffer.
///
/// `from_bytes_spec(bytes, r)` says that `r` is an outcome that decoding `bytes`
/// may have. Decoding is total: every buffer gives a value or an error.
pub trait FromBytes: Sized {
    type Error;

    spec fn from_bytes_spec(bytes: Seq<u8>, r: Result<Self, Self::Error>) -> bool;

    fn from_bytes(bytes: &[u8]) -> (r: Result<Self, Self::Error>)
        ensures
            Self::from_bytes_spec(bytes@, r),
    ;
}

/// A type that can be decoded from a whole record, its payload or its metadata.
///
/// `from_record_spec(record, r)` says that `r` is an outcome that decoding
/// `record` may have.
pub trait FromRecord: Sized {
    type Error;

    spec fn from_record_spec(record: RecordView, r: Result<Self, Self::Error>) -> bool;

    fn from_record(record: &Record) -> (r: Result<Self, Self::Error>)
        ensures
            Self::from_record_spec(record@, r),
    ;
}

} // verus!
