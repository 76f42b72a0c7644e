use vstd::prelude::*;

verus! {

/// Failure to serialise a value before any call into the runtime is made.
#[derive(Debug, Clone, PartialEq, Eq)]
pub enum EncodeError {
    ProtoEncodeError { msg: String },
    JsonEncodeError { msg: String },
    /// The chain ID is not one the chain accepts.
    InvalidChainId { id: String },
    /// A fee denomination is not one the chain accepts.
    InvalidDenom { denom: String },
}

/// Failure to interpret what the runtime handed back.
#[derive(Debug, Clone, PartialEq, Eq)]
pub enum DecodeError {
    Utf8Error,
    Base64DecodeError,
    ProtoDecodeError { msg: String },
    JsonDecodeError { msg: String },
    SigningKeyDecodeError { msg: String },
    /// A finalized block carried no transaction result.
    MissingTxResult,
    /// The runtime returned a result with no tag byte.
    EmptyResult,
    /// The runtime returned a result whose tag byte is not a known kind.
    UnknownResultCode { code: u8 },
}

/// Every failure that a pipeline operation returns to its caller.
#[derive(Debug, Clone, PartialEq, Eq)]
pub enum RunnerError {
    /// The runtime rejected a query; the message is its own, verbatim.
    QueryError { msg: String },
    /// The runtime rejected a transaction or a simulation; the message is its own, verbatim.
    ExecuteError { msg: String },
    EncodeError(EncodeError),
    DecodeError(DecodeError),
}

} // verus!
