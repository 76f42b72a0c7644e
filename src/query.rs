use vstd::prelude::*;
use crate::codec::{base64_encode, base64_of};
use crate::error::RunnerError;
use crate::raw::{adapt_encoded, adapted_encoded};

verus! {

/// A read-only query of the runtime: the query path and the base64 of the
/// encoded request. It carries no transaction, so it produces no block and
/// moves no account's sequence.
#[derive(Debug, Clone, PartialEq, Eq)]
pub struct QueryCall {
    pub path: String,
    pub request_base64: String,
}

/// Prepares the query of `path` with the encoded request `request`.
pub fn query_call(path: &str, request: &Vec<u8>) -> (r: QueryCall)
    ensures
        r.path@ == path@,
        r.request_base64@ == base64_of(request@),
{
    QueryCall { path: path.to_owned(), request_base64: base64_encode(request) }
}

/// Turns the runtime's answer to a query into the encoded response or the
/// error it reports.
pub fn finish_query(raw: &str) -> (r: Result<Vec<u8>, RunnerError>)
    ensures
        adapted_encoded(raw@, r),
{
    adapt_encoded(raw)
}

/// Two outcomes that say the same: the same payload, or the same error with
/// the same message.
pub open spec fn same_outcome(a: Result<Vec<u8>, RunnerError>, b: Result<Vec<u8>, RunnerError>) -> bool {
    match (a, b) {
        (Ok(x), Ok(y)) => x@ == y@,
        (Err(RunnerError::QueryError { msg: x }), Err(RunnerError::QueryError { msg: y })) => x@ == y@,
        (Err(RunnerError::ExecuteError { msg: x }), Err(RunnerError::ExecuteError { msg: y })) => x@ == y@,
        (Err(RunnerError::DecodeError(x)), Err(RunnerError::DecodeError(y))) => x == y,
        _ => false,
    }
}

/// A query answered twice with the same raw result decodes to the same
/// outcome both times.
pub proof fn identical_answers_decode_alike(
    raw: Seq<char>,
    first: Result<Vec<u8>, RunnerError>,
    second: Result<Vec<u8>, RunnerError>,
)
    requires
        adapted_encoded(raw, first),
        adapted_encoded(raw, second),
    ensures
        same_outcome(first, second),
{
}

} // verus!
