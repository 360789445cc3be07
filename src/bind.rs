use vstd::prelude::*;

use crate::record::{Record, RecordView};
use crate::traits::FromRecord;

verus! {

/// Which argument of a handler failed to decode, and why.
#[derive(Debug)]
pub enum BindError<A, B> {
    /// The first argument failed.
    First(A),
    /// The first argument decoded and the second failed.
    Second(B),
}

/// The outcomes of decoding both arguments of a two-argument handler: both
/// values where both decode, and otherwise the error of the first argument
/// that fails.
pub open spec fn bind2_spec<A: FromRecord, B: FromRecord>(
    record: RecordView,
    r: Result<(A, B), BindError<A::Error, B::Error>>,
) -> bool {
    match r {
        Ok((a, b)) => A::from_record_spec(record, Ok(a)) && B::from_record_spec(record, Ok(b)),
        Err(BindError::First(e)) => A::from_record_spec(record, Err(e)),
        Err(BindError::Second(e)) => exists|a: A|
            #[trigger] A::from_record_spec(record, Ok(a)) && B::from_record_spec(record, Err(e)),
    }
}

/// Decodes the two arguments of a handler from one record, in order; the
/// second is decoded only where the first succeeds.
pub fn extract2<A: FromRecord, B: FromRecord>(record: &Record) -> (r: Result<
    (A, B),
    BindError<A::Error, B::Error>,
>)
    ensures
        bind2_spec::<A, B>(record@, r),
{
    let a = match A::from_record(record) {
        Ok(a) => a,
        Err(e) => return Err(BindError::First(e)),
    };
    match B::from_record(record) {
        Ok(b) => Ok((a, b)),
        Err(e) => Err(BindError::Second(e)),
    }
}

/// Calls `handler` with the arguments decoded from `record`, where both decode.
/// Where one fails the handler is not called, and the error names the first
/// argument that failed.
pub fn dispatch2<A: FromRecord, B: FromRecord, R, F: FnOnce(A, B) -> R>(
    record: &Record,
    handler: F,
) -> (r: Result<R, BindError<A::Error, B::Error>>)
    requires
        forall|a: A, b: B|
            A::from_record_spec(record@, Ok(a)) && B::from_record_spec(record@, Ok(b))
                ==> #[trigger] handler.requires((a, b)),
    ensures
        r is Ok ==> exists|args: (A, B)|
            A::from_record_spec(record@, Ok(args.0)) && B::from_record_spec(record@, Ok(args.1))
                && #[trigger] handler.ensures(args, r->Ok_0),
        r is Err ==> bind2_spec::<A, B>(record@, Err(r->Err_0)),
{
    match extract2::<A, B>(record) {
        Ok((a, b)) => {
            let ghost args = (a, b);
            let out = handler(a, b);
            let res: Result<R, BindError<A::Error, B::Error>> = Ok(out);
            assert(handler.ensures(args, res->Ok_0));
            res
        },
        Err(e) => Err(e),
    }
}

} // verus!
