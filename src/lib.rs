//! Typed extraction of values from stream records.
//!
//! A [`Record`] carries payload bytes and metadata. Types that can be built from
//! raw bytes implement [`FromBytes`]; types that can be built from a whole record
//! implement [`FromRecord`]. Wrapper types choose the decoding path: [`Payload`]
//! decodes the payload, [`Key`] the key, [`Json`] reads its bytes as JSON.
//! Handlers take extractor arguments, and [`extract2`] / [`dispatch2`] decode
//! every argument before the handler runs.

pub mod bind;
pub mod check;
pub mod error;
pub mod extract;
pub mod json;
pub mod laws;
pub mod record;
pub mod traits;

pub use bind::{dispatch2, extract2, BindError};
pub use check::CheckOpt;
pub use error::{DecodeError, ErrorKind};
pub use extract::{Key, KeyError, Payload, Timestamp};
pub use json::Json;
pub use record::Record;
pub use traits::{FromBytes, FromRecord};
