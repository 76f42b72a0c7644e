use vstd::prelude::*;
use vstd::utf8::{decode_utf8, valid_utf8};
use crate::codec::{base64_decode, base64_decoded, utf8_string};
use crate::error::{DecodeError, RunnerError};

verus! {

/// Tag byte of a result that carries the response payload.
pub const RESULT_OK: u8 = 0;
/// Tag byte of a result that carries the message of a rejected query.
pub const RESULT_QUERY_ERROR: u8 = 1;
/// Tag byte of a result that carries the message of a rejected transaction.
pub const RESULT_EXECUTE_ERROR: u8 = 2;

/// The outcome that a raw result of the runtime stands for: a tag byte,
/// then either the payload or a UTF-8 message.
pub open spec fn adapted(raw: Seq<u8>, r: Result<Vec<u8>, RunnerError>) -> bool {
    if raw.len() == 0 {
        r matches Err(RunnerError::DecodeError(DecodeError::EmptyResult))
    } else if raw[0] == RESULT_OK {
        r matches Ok(v) && v@ == raw.skip(1)
    } else if raw[0] == RESULT_QUERY_ERROR || raw[0] == RESULT_EXECUTE_ERROR {
        if valid_utf8(raw.skip(1)) {
            if raw[0] == RESULT_QUERY_ERROR {
                r matches Err(RunnerError::QueryError { msg }) && msg@ == decode_utf8(raw.skip(1))
            } else {
                r matches Err(RunnerError::ExecuteError { msg }) && msg@ == decode_utf8(raw.skip(1))
            }
        } else {
            r matches Err(RunnerError::DecodeError(DecodeError::Utf8Error))
        }
    } else {
        r matches Err(RunnerError::DecodeError(DecodeError::UnknownResultCode { code }))
            && code == raw[0]
    }
}

/// The outcome that a base64-wrapped raw result stands for.
pub open spec fn adapted_encoded(text: Seq<char>, r: Result<Vec<u8>, RunnerError>) -> bool {
    match base64_decoded(text) {
        Some(raw) => adapted(raw, r),
        None => r matches Err(RunnerError::DecodeError(DecodeError::Base64DecodeError)),
    }
}

/// The bytes of `raw` from index `from` on.
fn tail_from(raw: &Vec<u8>, from: usize) -> (r: Vec<u8>)
    requires
        from <= raw@.len(),
    ensures
        r@ == raw@.skip(from as int),
{
    let mut out: Vec<u8> = Vec::new();
    let mut i: usize = from;
    while i < raw.len()
        invariant
            from <= i <= raw@.len(),
            out@ == raw@.subrange(from as int, i as int),
        decreases raw@.len() - i,
    {
        out.push(raw[i]);
        i = i + 1;
    }
    assert(out@ =~= raw@.skip(from as int));
    out
}

/// Turns one raw result of the runtime into the payload it carries or the
/// error it reports. The raw bytes are taken by value: once adapted they are
/// gone, on success and on failure alike.
pub fn adapt(raw: Vec<u8>) -> (r: Result<Vec<u8>, RunnerError>)
    ensures
        adapted(raw@, r),
{
    if raw.len() == 0 {
        return Err(RunnerError::DecodeError(DecodeError::EmptyResult));
    }
    let code = raw[0];
    let rest = tail_from(&raw, 1);
    if code == RESULT_OK {
        Ok(rest)
    } else if code == RESULT_QUERY_ERROR || code == RESULT_EXECUTE_ERROR {
        match utf8_string(rest) {
            Some(msg) => {
                if code == RESULT_QUERY_ERROR {
                    Err(RunnerError::QueryError { msg })
                } else {
                    Err(RunnerError::ExecuteError { msg })
                }
            },
            None => Err(RunnerError::DecodeError(DecodeError::Utf8Error)),
        }
    } else {
        Err(RunnerError::DecodeError(DecodeError::UnknownResultCode { code }))
    }
}

/// The payload of a base64-wrapped raw result that reports success.
pub open spec fn ok_payload(text: Seq<char>) -> Option<Seq<u8>> {
    match base64_decoded(text) {
        Some(raw) => if raw.len() > 0 && raw[0] == RESULT_OK {
            Some(raw.skip(1))
        } else {
            None
        },
        None => None,
    }
}

/// Turns a raw result that the runtime handed over as base64 text into the
/// payload it carries or the error it reports.
pub fn adapt_encoded(text: &str) -> (r: Result<Vec<u8>, RunnerError>)
    ensures
        adapted_encoded(text@, r),
        match r {
            Ok(v) => ok_payload(text@) == Some(v@),
            Err(_) => ok_payload(text@) is None,
        },
{
    match base64_decode(text) {
        Some(raw) => adapt(raw),
        None => Err(RunnerError::DecodeError(DecodeError::Base64DecodeError)),
    }
}

} // verus!
