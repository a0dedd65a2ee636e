//! The replies: what the transport hands back, and the result that each call
//! reads from it.
//!
//! A result comes in one of two forms.  In structured form it is the JSON
//! value itself; a record comes as a JSON object.  In raw form it is a text of hexadecimal digits that spell
//! the consensus encoding of a block, a header or a transaction.  Either form
//! may be optional: then a reply without a result, or with `null` for one,
//! means that there is nothing to return, and is no error.

use vstd::prelude::*;
use vstd::utf8::encode_utf8;
use bitcoin::blockdata::block::{Block, BlockHeader};
use bitcoin::blockdata::transaction::Transaction;
use bitcoin::util::hash::Sha256dHash;
use crate::consensus::{block_of, decode_block, decode_header, decode_transaction, header_of, transaction_of};
use crate::error::{ClientError, DecodeError, RpcError, TransportError};
use crate::hexcode::{hex_decode, hex_decoding};
use crate::json::Json;
use crate::notation::{hash_bytes, hash_from_text, is_hash_text, text_hash_bytes};

verus! {

/// The reply to a call, as far as it says how the call went.
#[derive(Debug, PartialEq)]
pub struct Response {
    /// The result, if the reply holds one.
    pub result: Option<Json>,
    /// The error object, if the daemon reported an error.
    pub error: Option<RpcError>,
}

/// What the transport hands back: the reply, or why there is none.
pub type Reply = Result<Response, ClientError>;

/// The result that a reply holds.  A failure of the transport comes through
/// as it is; an error object makes the reply an error whatever else it holds.
pub open spec fn reply_result(reply: Reply) -> Result<Option<Json>, ClientError> {
    match reply {
        Err(e) => Err(e),
        Ok(response) => match response.error {
            Some(e) => Err(ClientError::Transport(TransportError::Rpc(e))),
            None => Ok(response.result),
        },
    }
}

/// The result of a call that always returns one, in structured form.
pub open spec fn structured(reply: Reply) -> Result<Json, ClientError> {
    match reply_result(reply) {
        Err(e) => Err(e),
        Ok(None) => Err(ClientError::Decode(DecodeError::Missing)),
        Ok(Some(value)) => Ok(value),
    }
}

/// The result of a call that may have nothing to return, in structured form.
pub open spec fn structured_option(reply: Reply) -> Result<Option<Json>, ClientError> {
    match reply_result(reply) {
        Err(e) => Err(e),
        Ok(None) => Ok(None),
        Ok(Some(Json::Null)) => Ok(None),
        Ok(Some(value)) => Ok(Some(value)),
    }
}

/// The bytes that a result in raw form spells.
pub open spec fn payload(value: Json) -> Result<Seq<u8>, ClientError> {
    match value {
        Json::Text(text) => match hex_decoding(encode_utf8(text@)) {
            Ok(bytes) => Ok(bytes),
            Err(e) => Err(ClientError::Hex(e)),
        },
        _ => Err(ClientError::Decode(DecodeError::WrongType)),
    }
}

/// The bytes of the result of a call that always returns one, in raw form.
pub open spec fn raw(reply: Reply) -> Result<Seq<u8>, ClientError> {
    match structured(reply) {
        Err(e) => Err(e),
        Ok(value) => payload(value),
    }
}

/// The bytes of the result of a call that may have nothing to return, in raw
/// form.  Where there is nothing, no digit is read.
pub open spec fn raw_option(reply: Reply) -> Result<Option<Seq<u8>>, ClientError> {
    match structured_option(reply) {
        Err(e) => Err(e),
        Ok(None) => Ok(None),
        Ok(Some(value)) => match payload(value) {
            Err(e) => Err(e),
            Ok(bytes) => Ok(Some(bytes)),
        },
    }
}

/// The count that a result in structured form states.
pub open spec fn count(value: Json) -> Result<usize, ClientError> {
    match value {
        Json::Integer(n) => if 0 <= n <= usize::MAX {
            Ok(n as usize)
        } else {
            Err(ClientError::Decode(DecodeError::OutOfRange))
        },
        _ => Err(ClientError::Decode(DecodeError::WrongType)),
    }
}

/// A result that is a record: a JSON object, whatever its members.
pub open spec fn record(value: Json) -> Result<Json, ClientError> {
    match value {
        Json::Object(_) => Ok(value),
        _ => Err(ClientError::Decode(DecodeError::WrongType)),
    }
}

/// The record of a call that always returns one.
pub open spec fn structured_record(reply: Reply) -> Result<Json, ClientError> {
    match structured(reply) {
        Err(e) => Err(e),
        Ok(value) => record(value),
    }
}

/// The record of a call that may have nothing to return.
pub open spec fn structured_record_option(reply: Reply) -> Result<Option<Json>, ClientError> {
    match structured_option(reply) {
        Err(e) => Err(e),
        Ok(None) => Ok(None),
        Ok(Some(value)) => match record(value) {
            Err(e) => Err(e),
            Ok(object) => Ok(Some(object)),
        },
    }
}

/// Whether each of `items` is a record.
pub open spec fn all_records(items: Seq<Json>) -> bool {
    forall|i: int| 0 <= i < items.len() ==> (#[trigger] items[i]) is Object
}

/// The items of a result that is a list of records.
pub open spec fn list(value: Json) -> Result<Vec<Json>, ClientError> {
    match value {
        Json::Array(items) => if all_records(items@) {
            Ok(items)
        } else {
            Err(ClientError::Decode(DecodeError::WrongType))
        },
        _ => Err(ClientError::Decode(DecodeError::WrongType)),
    }
}

/// A reply without an error object and without a result, or with `null` for
/// one, is nothing to return in either form, and no error: nothing of it is
/// read as digits or handed to the codec.
pub proof fn law_nothing_is_no_error(response: Response)
    requires
        response.error is None,
        response.result is None || response.result == Some(Json::Null),
    ensures
        structured_option(Ok(response)) == Ok::<Option<Json>, ClientError>(None),
        structured_record_option(Ok(response)) == Ok::<Option<Json>, ClientError>(None),
        raw_option(Ok(response)) == Ok::<Option<Seq<u8>>, ClientError>(None),
{
}

/// Takes the result out of a reply.
pub fn into_result(reply: Reply) -> (r: Result<Option<Json>, ClientError>)
    ensures
        r == reply_result(reply),
{
    match reply {
        Err(e) => Err(e),
        Ok(response) => match response.error {
            Some(e) => Err(ClientError::Transport(TransportError::Rpc(e))),
            None => Ok(response.result),
        },
    }
}

/// The result of a call that always returns one, as the JSON value it is.
pub fn result_json(reply: Reply) -> (r: Result<Json, ClientError>)
    ensures
        r == structured(reply),
{
    match into_result(reply) {
        Err(e) => Err(e),
        Ok(None) => Err(ClientError::Decode(DecodeError::Missing)),
        Ok(Some(value)) => Ok(value),
    }
}

/// The result of a call that may have nothing to return, as the JSON value it
/// is, or `None` where the reply holds none or `null`.
pub fn result_json_option(reply: Reply) -> (r: Result<Option<Json>, ClientError>)
    ensures
        r == structured_option(reply),
{
    match into_result(reply) {
        Err(e) => Err(e),
        Ok(None) => Ok(None),
        Ok(Some(Json::Null)) => Ok(None),
        Ok(Some(value)) => Ok(Some(value)),
    }
}

/// Reads the bytes that a result in raw form spells.
pub fn result_payload(value: Json) -> (r: Result<Vec<u8>, ClientError>)
    ensures
        match r {
            Ok(bytes) => payload(value) == Ok::<Seq<u8>, ClientError>(bytes@),
            Err(e) => payload(value) == Err::<Seq<u8>, ClientError>(e),
        },
{
    match value {
        Json::Text(text) => match hex_decode(text.as_str().as_bytes()) {
            Ok(bytes) => Ok(bytes),
            Err(e) => Err(ClientError::Hex(e)),
        },
        _ => Err(ClientError::Decode(DecodeError::WrongType)),
    }
}

/// The bytes of the result of a call that always returns one in raw form.
pub fn result_raw(reply: Reply) -> (r: Result<Vec<u8>, ClientError>)
    ensures
        match r {
            Ok(bytes) => raw(reply) == Ok::<Seq<u8>, ClientError>(bytes@),
            Err(e) => raw(reply) == Err::<Seq<u8>, ClientError>(e),
        },
{
    match result_json(reply) {
        Err(e) => Err(e),
        Ok(value) => result_payload(value),
    }
}

/// The bytes of the result of a call that may have nothing to return in raw
/// form: `None` where the reply holds no result or `null`, whatever else
/// may be wrong with what is not there.
pub fn result_raw_option(reply: Reply) -> (r: Result<Option<Vec<u8>>, ClientError>)
    ensures
        match r {
            Ok(Some(bytes)) => raw_option(reply) == Ok::<Option<Seq<u8>>, ClientError>(Some(bytes@)),
            Ok(None) => raw_option(reply) == Ok::<Option<Seq<u8>>, ClientError>(None),
            Err(e) => raw_option(reply) == Err::<Option<Seq<u8>>, ClientError>(e),
        },
        reply matches Ok(response) && response.error is None && (response.result is None
            || response.result == Some(Json::Null)) ==> r == Ok::<Option<Vec<u8>>, ClientError>(None),
{
    match result_json_option(reply) {
        Err(e) => Err(e),
        Ok(None) => Ok(None),
        Ok(Some(value)) => match result_payload(value) {
            Err(e) => Err(e),
            Ok(bytes) => Ok(Some(bytes)),
        },
    }
}

/// The result of `getblock` with verbosity 0: a block in raw form.  Bytes that the codec does not
/// read a block from are an error of the codec: no block is returned for
/// them.
pub fn getblock_raw(reply: Reply) -> (r: Result<Block, ClientError>)
    ensures
        match raw(reply) {
            Err(e) => r == Err::<Block, ClientError>(e),
            Ok(bytes) => match block_of(bytes) {
                Some(block) => r == Ok::<Block, ClientError>(block),
                None => r matches Err(ClientError::Consensus(_)),
            },
        },
{
    match result_raw(reply) {
        Err(e) => Err(e),
        Ok(bytes) => match decode_block(bytes.as_slice()) {
            Ok(block) => Ok(block),
            Err(e) => Err(ClientError::Consensus(e)),
        },
    }
}

/// The result of `getblockheader` for the header itself: a header in raw
/// form, which is read from the first 80 bytes.  Bytes that the codec
/// does not read a header from are an error of the codec: no header is
/// returned for them.
pub fn getblockheader(reply: Reply) -> (r: Result<BlockHeader, ClientError>)
    ensures
        match raw(reply) {
            Err(e) => r == Err::<BlockHeader, ClientError>(e),
            Ok(bytes) => match header_of(bytes) {
                Some(header) => r == Ok::<BlockHeader, ClientError>(header) && bytes.len() >= 80,
                None => r matches Err(ClientError::Consensus(_)) && bytes.len() < 80,
            },
        },
{
    match result_raw(reply) {
        Err(e) => Err(e),
        Ok(bytes) => match decode_header(bytes.as_slice()) {
            Ok(header) => Ok(header),
            Err(e) => Err(ClientError::Consensus(e)),
        },
    }
}

/// The result of `getrawtransaction` for the transaction itself: a
/// transaction in raw form, or `None` where the reply holds no result or
/// `null`, as it does for a transaction that the daemon does not know.  Bytes that the codec does not read a transaction
/// from are an error of the codec: no transaction is returned for them.
pub fn getrawtransaction(reply: Reply) -> (r: Result<Option<Transaction>, ClientError>)
    ensures
        match raw_option(reply) {
            Err(e) => r == Err::<Option<Transaction>, ClientError>(e),
            Ok(None) => r == Ok::<Option<Transaction>, ClientError>(None),
            Ok(Some(bytes)) => match transaction_of(bytes) {
                Some(tx) => r == Ok::<Option<Transaction>, ClientError>(Some(tx)),
                None => r matches Err(ClientError::Consensus(_)),
            },
        },
{
    match result_raw_option(reply) {
        Err(e) => Err(e),
        Ok(None) => Ok(None),
        Ok(Some(bytes)) => match decode_transaction(bytes.as_slice()) {
            Ok(tx) => Ok(Some(tx)),
            Err(e) => Err(ClientError::Consensus(e)),
        },
    }
}

/// The result of `getblockcount`: an integer that is not negative and fits
/// the machine's word.
pub fn getblockcount(reply: Reply) -> (r: Result<usize, ClientError>)
    ensures
        r == match structured(reply) {
            Err(e) => Err(e),
            Ok(value) => count(value),
        },
{
    match result_json(reply) {
        Err(e) => Err(e),
        Ok(Json::Integer(n)) => {
            if 0 <= n && n <= usize::MAX as i128 {
                Ok(n as usize)
            } else {
                Err(ClientError::Decode(DecodeError::OutOfRange))
            }
        },
        Ok(_) => Err(ClientError::Decode(DecodeError::WrongType)),
    }
}

/// The result of `getblockhash`: the hash that a text of 64 hexadecimal
/// digits stands for.
pub fn getblockhash(reply: Reply) -> (r: Result<Sha256dHash, ClientError>)
    ensures
        match structured(reply) {
            Err(e) => r == Err::<Sha256dHash, ClientError>(e),
            Ok(Json::Text(text)) => if is_hash_text(text@) {
                r matches Ok(hash) && hash_bytes(hash) == text_hash_bytes(text@)
            } else {
                r == Err::<Sha256dHash, ClientError>(ClientError::Decode(DecodeError::NotAHash))
            },
            Ok(_) => r == Err::<Sha256dHash, ClientError>(
                ClientError::Decode(DecodeError::WrongType),
            ),
        },
{
    match result_json(reply) {
        Err(e) => Err(e),
        Ok(Json::Text(text)) => match hash_from_text(text.as_str()) {
            Some(hash) => Ok(hash),
            None => Err(ClientError::Decode(DecodeError::NotAHash)),
        },
        Ok(_) => Err(ClientError::Decode(DecodeError::WrongType)),
    }
}

/// The record of a call that always returns one: the JSON object it comes
/// as.  What is no object, `null` too, is no record.
pub fn result_record(reply: Reply) -> (r: Result<Json, ClientError>)
    ensures
        r == structured_record(reply),
{
    match result_json(reply) {
        Err(e) => Err(e),
        Ok(Json::Object(members)) => Ok(Json::Object(members)),
        Ok(_) => Err(ClientError::Decode(DecodeError::WrongType)),
    }
}

/// The record of a call that may have nothing to return: the JSON object it
/// comes as, or `None` where the reply holds no result or `null`.
pub fn result_record_option(reply: Reply) -> (r: Result<Option<Json>, ClientError>)
    ensures
        r == structured_record_option(reply),
{
    match result_json_option(reply) {
        Err(e) => Err(e),
        Ok(None) => Ok(None),
        Ok(Some(Json::Object(members))) => Ok(Some(Json::Object(members))),
        Ok(Some(_)) => Err(ClientError::Decode(DecodeError::WrongType)),
    }
}

/// The result of `getblock` with verbosity 1: the record of a block.
pub fn getblock_info(reply: Reply) -> (r: Result<Json, ClientError>)
    ensures
        r == structured_record(reply),
{
    result_record(reply)
}

/// The result of `getblockheader` for the record of a header.
pub fn getblockheader_verbose(reply: Reply) -> (r: Result<Json, ClientError>)
    ensures
        r == structured_record(reply),
{
    result_record(reply)
}

/// The result of `getrawtransaction` for the record of a transaction, or
/// `None` where the reply holds no result or `null`.
pub fn getrawtransaction_verbose(reply: Reply) -> (r: Result<Option<Json>, ClientError>)
    ensures
        r == structured_record_option(reply),
{
    result_record_option(reply)
}

/// The result of `gettxout`: the record of an output, or `None` where the
/// reply holds no result or `null`, as it does for an output that is spent or
/// unknown.
pub fn gettxout(reply: Reply) -> (r: Result<Option<Json>, ClientError>)
    ensures
        r == structured_record_option(reply),
{
    result_record_option(reply)
}

/// The result of `listunspent`: a list, with the record of one output in
/// each item.
#[verifier::loop_isolation(false)]
pub fn listunspent(reply: Reply) -> (r: Result<Vec<Json>, ClientError>)
    ensures
        r == match structured(reply) {
            Err(e) => Err(e),
            Ok(value) => list(value),
        },
{
    match result_json(reply) {
        Err(e) => Err(e),
        Ok(Json::Array(items)) => {
            let mut i: usize = 0;
            while i < items.len()
                invariant
                    i <= items.len(),
                    forall|k: int| 0 <= k < i ==> (#[trigger] items@[k]) is Object,
                decreases items.len() - i,
            {
                match &items[i] {
                    Json::Object(_) => {},
                    _ => {
                        assert(!(items@[i as int] is Object));
                        return Err(ClientError::Decode(DecodeError::WrongType));
                    },
                }
                i = i + 1;
            }
            Ok(items)
        },
        Ok(_) => Err(ClientError::Decode(DecodeError::WrongType)),
    }
}

/// The result of `signrawtransaction`: the record of what signing made of
/// the transaction.
pub fn signrawtransaction(reply: Reply) -> (r: Result<Json, ClientError>)
    ensures
        r == structured_record(reply),
{
    result_record(reply)
}

} // verus!
