use vstd::prelude::*;
use base64::Engine;
use vstd::utf8::{decode_utf8, valid_utf8};

verus! {

/// What `base64::engine::general_purpose::STANDARD.encode` returns for these bytes.
pub uninterp spec fn base64_of(b: Seq<u8>) -> Seq<char>;

/// What `base64::engine::general_purpose::STANDARD.decode` returns for this
/// text: the decoded bytes, or `None` where it reports an error.
pub uninterp spec fn base64_decoded(s: Seq<char>) -> Option<Seq<u8>>;

/// Relies on base64's `Engine::encode` with the standard padded alphabet,
/// which returns the encoding of its input and cannot fail.
#[verifier::external_body]
pub(crate) fn base64_encode(b: &Vec<u8>) -> (r: String)
    ensures
        r@ == base64_of(b@),
        b@.len() == 0 ==> r@.len() == 0,
{
    base64::engine::general_purpose::STANDARD.encode(b)
}

/// Relies on base64's `Engine::decode` with the standard padded alphabet:
/// the decoded bytes, or an error for text that is not valid base64.
#[verifier::external_body]
pub(crate) fn base64_decode(s: &str) -> (r: Option<Vec<u8>>)
    ensures
        match r {
            Some(v) => base64_decoded(s@) == Some(v@),
            None => base64_decoded(s@) is None,
        },
{
    base64::engine::general_purpose::STANDARD.decode(s).ok()
}

/// Relies on `String::from_utf8`: `Some` exactly when the bytes are valid
/// UTF-8, holding the text that they encode.
#[verifier::external_body]
pub(crate) fn utf8_string(b: Vec<u8>) -> (r: Option<String>)
    ensures
        match r {
            Some(s) => valid_utf8(b@) && s@ == decode_utf8(b@),
            None => !valid_utf8(b@),
        },
{
    String::from_utf8(b).ok()
}

/// The `gas_used` field of the gas-usage message that these bytes encode,
/// or `None` where prost reports them malformed.
pub uninterp spec fn gas_used_of(b: Seq<u8>) -> Option<u64>;

/// Relies on prost's `Message::decode` for the cosmos SDK `GasInfo` message
/// (as re-exported by cosmrs), of which only `gas_used` is read; an error
/// comes back as prost's message for it.
#[verifier::external_body]
pub(crate) fn decode_gas_used(b: &Vec<u8>) -> (r: Result<u64, String>)
    ensures
        match r {
            Ok(g) => gas_used_of(b@) == Some(g),
            Err(_) => gas_used_of(b@) is None,
        },
{
    <cosmrs::proto::cosmos::base::abci::v1beta1::GasInfo as prost::Message>::decode(b.as_slice())
        .map(|g| g.gas_used)
        .map_err(|e| e.to_string())
}

/// The code, log and data of the first transaction result of the block
/// response that these bytes encode: `Some(None)` where it holds none,
/// `None` where prost reports the bytes malformed.
pub uninterp spec fn block_tx_result_of(b: Seq<u8>) -> Option<Option<(u32, Seq<char>, Seq<u8>)>>;

/// Relies on prost's `Message::decode` for tendermint's `ResponseFinalizeBlock`
/// (as re-exported by cosmrs), of which the first entry of `tx_results` is
/// read; an error comes back as prost's message for it.
#[verifier::external_body]
pub(crate) fn decode_block_tx_result(b: &Vec<u8>) -> (r: Result<Option<(u32, String, Vec<u8>)>, String>)
    ensures
        match r {
            Ok(None) => block_tx_result_of(b@) == Some(None::<(u32, Seq<char>, Seq<u8>)>),
            Ok(Some(t)) => block_tx_result_of(b@) == Some(Some((t.0, t.1@, t.2@))),
            Err(_) => block_tx_result_of(b@) is None,
        },
{
    <cosmrs::proto::tendermint::v0_38::abci::ResponseFinalizeBlock as prost::Message>::decode(b.as_slice())
        .map(|resp| resp.tx_results.into_iter().next().map(|t| (t.code, t.log, t.data.to_vec())))
        .map_err(|e| e.to_string())
}

} // verus!
