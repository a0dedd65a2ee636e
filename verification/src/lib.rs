//! Client-side logic for the JSON-RPC interface of a Bitcoin Core daemon:
//! building the positional argument list of each call and decoding its reply.

pub mod arg;
pub mod consensus;
pub mod error;
pub mod hexcode;
pub mod json;
pub mod notation;
pub mod options;
pub mod request;
pub mod response;
pub mod sighash;
