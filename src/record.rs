use vstd::prelude::*;

verus! {

/// What a record holds, as mathematical values.
pub struct RecordView {
    pub key: Option<Seq<u8>>,
    pub value: Seq<u8>,
    pub timestamp: i64,
}

/// A unit of a stream: payload bytes, an optional key and a timestamp.
///
/// Decoders only read a record; none changes it.
#[derive(Debug)]
pub struct Record {
    key: Option<Vec<u8>>,
    value: Vec<u8>,
    timestamp: i64,
}

/// The timestamp of a record that was given none.
pub const NO_TIMESTAMP: i64 = -1;

impl View for Record {
    type V = RecordView;

    closed spec fn view(&self) -> RecordView {
        RecordView {
            key: match self.key {
                Some(k) => Some(k@),
                None => None,
            },
            value: self.value@,
            timestamp: self.timestamp,
        }
    }
}

impl Record {
    /// A record with the given payload, no key and no timestamp.
    pub fn new(value: Vec<u8>) -> (r: Record)
        ensures
            r@ == (RecordView { key: None, value: value@, timestamp: NO_TIMESTAMP }),
    {
        Record { key: None, value, timestamp: NO_TIMESTAMP }
    }

    /// A record with the given key and payload, and no timestamp.
    pub fn new_key_value(key: Vec<u8>, value: Vec<u8>) -> (r: Record)
        ensures
            r@ == (RecordView { key: Some(key@), value: value@, timestamp: NO_TIMESTAMP }),
    {
        Record { key: Some(key), value, timestamp: NO_TIMESTAMP }
    }

    /// The same record with the given timestamp.
    pub fn with_timestamp(self, timestamp: i64) -> (r: Record)
        ensures
            r@ == (RecordView { timestamp, ..self@ }),
    {
        Record { timestamp, ..self }
    }

    /// The payload bytes.
    pub fn value(&self) -> (r: &[u8])
        ensures
            r@ == self@.value,
    {
        self.value.as_slice()
    }

    /// The key bytes, if the record has a key.
    pub fn key(&self) -> (r: Option<&[u8]>)
        ensures
            match r {
                Some(k) => self@.key == Some(k@),
                None => self@.key is None,
            },
    {
        match &self.key {
            Some(k) => Some(k.as_slice()),
            None => None,
        }
    }

    /// The timestamp.
    pub fn timestamp(&self) -> (r: i64)
        ensures
            r == self@.timestamp,
    {
        self.timestamp
    }
}

} // verus!
