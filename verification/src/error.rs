//! What can go wrong with a call.

use vstd::prelude::*;
use crate::hexcode::HexError;
use crate::json::Json;

verus! {

/// The error object of a JSON-RPC reply.
#[derive(Debug, PartialEq)]
pub struct RpcError {
    pub code: i32,
    pub message: String,
    pub data: Option<Json>,
}

/// The exchange with the daemon did not give a result.
#[derive(Debug, PartialEq)]
pub enum TransportError {
    /// The daemon answered with an error object.
    Rpc(RpcError),
    /// What came back is no JSON-RPC reply; the parser's account of it.
    Json(String),
    /// The connection failed; its own account of it.
    Http(String),
    /// The reply holds neither a result nor an error object.
    NoErrorOrResult,
    /// The reply answers another request than the one sent.
    NonceMismatch,
    /// The reply names a version of the protocol other than 2.0.
    VersionMismatch,
}

/// A reply was not of the JSON shape that the call returns.
#[derive(Debug, PartialEq)]
pub enum DecodeError {
    /// The reply holds no result where the call always returns one.
    Missing,
    /// The result, or an item of it, is of another JSON type than the call
    /// returns.
    WrongType,
    /// The result is an integer that is negative or too large.
    OutOfRange,
    /// The result is a text that does not spell a hash.
    NotAHash,
    /// The members of a record are not those that the call returns.
    Mismatch(String),
}

/// Any failure of a call.  None is retried or mended here: each comes to
/// the caller as it arose.
#[derive(Debug)]
pub enum ClientError {
    /// The transport could not complete the exchange.
    Transport(TransportError),
    /// A parameter could not be put into JSON.
    Serialization(String),
    /// The reply did not have the shape of the result.
    Decode(DecodeError),
    /// The reply was to be hexadecimal text and is not.
    Hex(HexError),
    /// The bytes of the reply are not the consensus encoding of the result.
    Consensus(bitcoin::network::serialize::Error),
}

} // verus!
