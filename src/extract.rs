use vstd::prelude::*;

use crate::error::{DecodeError, ErrorKind};
use crate::record::{Record, RecordView};
use crate::traits::{FromBytes, FromRecord};

verus! {

/// Raw bytes decode to themselves, and never fail.
impl FromBytes for Vec<u8> {
    type Error = DecodeError;

    open spec fn from_bytes_spec(bytes: Seq<u8>, r: Result<Self, DecodeError>) -> bool {
        r matches Ok(v) && v@ == bytes
    }

    fn from_bytes(bytes: &[u8]) -> (r: Result<Self, DecodeError>) {
        Ok(vstd::slice::slice_to_vec(bytes))
    }
}

/// The payload of a record, decoded by `T`.
#[derive(Debug)]
pub struct Payload<T>(pub T);

/// The outcomes of a payload extractor: those of `T` on the payload bytes.
pub open spec fn payload_outcome_spec<T: FromBytes>(
    record: RecordView,
    r: Result<Payload<T>, T::Error>,
) -> bool {
    match r {
        Ok(v) => T::from_bytes_spec(record.value, Ok(v.0)),
        Err(e) => T::from_bytes_spec(record.value, Err(e)),
    }
}

impl<T: FromBytes> FromRecord for Payload<T> {
    type Error = T::Error;

    open spec fn from_record_spec(record: RecordView, r: Result<Self, T::Error>) -> bool {
        payload_outcome_spec(record, r)
    }

    fn from_record(record: &Record) -> (r: Result<Self, T::Error>) {
        match T::from_bytes(record.value()) {
            Ok(t) => Ok(Payload(t)),
            Err(e) => Err(e),
        }
    }
}

/// Why a key extractor failed.
#[derive(Debug)]
pub enum KeyError<E> {
    /// The record has no key.
    Missing,
    /// The key bytes did not decode.
    Decode(E),
}

impl KeyError<DecodeError> {
    /// The error as a `DecodeError`: a missing key is a missing field.
    pub fn into_decode_error(self) -> (r: DecodeError)
        ensures
            match self {
                KeyError::Missing => r.kind == ErrorKind::MissingField && r.line == 0 && r.column
                    == 0,
                KeyError::Decode(e) => r == e,
            },
    {
        match self {
            KeyError::Missing => DecodeError::missing_field(),
            KeyError::Decode(e) => e,
        }
    }
}

/// The key of a record, decoded by `T`.
#[derive(Debug)]
pub struct Key<T>(pub T);

/// The outcomes of a key extractor: a missing key where the record has none,
/// and otherwise those of `T` on the key bytes.
pub open spec fn key_outcome_spec<T: FromBytes>(
    record: RecordView,
    r: Result<Key<T>, KeyError<T::Error>>,
) -> bool {
    match record.key {
        None => r matches Err(KeyError::Missing),
        Some(k) => match r {
            Ok(v) => T::from_bytes_spec(k, Ok(v.0)),
            Err(KeyError::Decode(e)) => T::from_bytes_spec(k, Err(e)),
            Err(KeyError::Missing) => false,
        },
    }
}

impl<T: FromBytes> FromRecord for Key<T> {
    type Error = KeyError<T::Error>;

    open spec fn from_record_spec(record: RecordView, r: Result<Self, KeyError<T::Error>>) -> bool {
        key_outcome_spec(record, r)
    }

    fn from_record(record: &Record) -> (r: Result<Self, KeyError<T::Error>>) {
        match record.key() {
            None => Err(KeyError::Missing),
            Some(k) => match T::from_bytes(k) {
                Ok(t) => Ok(Key(t)),
                Err(e) => Err(KeyError::Decode(e)),
            },
        }
    }
}

/// The timestamp of a record.
#[derive(Clone, Copy, Debug, PartialEq, Eq, Structural)]
pub struct Timestamp(pub i64);

impl FromRecord for Timestamp {
    type Error = DecodeError;

    open spec fn from_record_spec(record: RecordView, r: Result<Self, DecodeError>) -> bool {
        r == Ok::<Timestamp, DecodeError>(Timestamp(record.timestamp))
    }

    fn from_record(record: &Record) -> (r: Result<Self, DecodeError>) {
        Ok(Timestamp(record.timestamp()))
    }
}

} // verus!
