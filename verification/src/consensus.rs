//! Blocks, headers and transactions in consensus encoding.
//!
//! The encoding is the codec's business: a value of these types is made only
//! by the codec, from bytes, and is handed to the caller as it came.

use vstd::prelude::*;
use bitcoin::blockdata::block::{Block, BlockHeader};
use bitcoin::blockdata::transaction::Transaction;
use bitcoin::network::encodable::ConsensusDecodable;
use bitcoin::network::serialize::RawDecoder;

verus! {

#[verifier::external_type_specification]
#[verifier::external_body]
pub struct ExBlock(bitcoin::blockdata::block::Block);

#[verifier::external_type_specification]
#[verifier::external_body]
pub struct ExBlockHeader(bitcoin::blockdata::block::BlockHeader);

#[verifier::external_type_specification]
#[verifier::external_body]
pub struct ExTransaction(bitcoin::blockdata::transaction::Transaction);

#[verifier::external_type_specification]
#[verifier::external_body]
pub struct ExConsensusError(bitcoin::network::serialize::Error);

/// The block that the codec reads from the front of `bytes`, if it reads one.
pub uninterp spec fn block_of(bytes: Seq<u8>) -> Option<Block>;

/// The block header that the codec reads from the front of `bytes`, if it
/// reads one.
pub uninterp spec fn header_of(bytes: Seq<u8>) -> Option<BlockHeader>;

/// The transaction that the codec reads from the front of `bytes`, if it
/// reads one.
pub uninterp spec fn transaction_of(bytes: Seq<u8>) -> Option<Transaction>;

/// Calls `Block::consensus_decode` on a `RawDecoder` over `bytes`.  What it
/// returns depends on the bytes alone: the block, or the codec's error.
#[verifier::external_body]
pub(crate) fn decode_block(bytes: &[u8]) -> (r: Result<Block, bitcoin::network::serialize::Error>)
    ensures
        match r {
            Ok(block) => block_of(bytes@) == Some(block),
            Err(_) => block_of(bytes@) is None,
        },
{
    Block::consensus_decode(&mut RawDecoder::new(bytes))
}

/// Calls `BlockHeader::consensus_decode` on a `RawDecoder` over `bytes`.  What
/// it returns depends on the bytes alone: the header, or the codec's error.
/// A header is six fields of fixed width, 80 bytes in all, and any values of
/// them make a header: the codec fails where the bytes run out, and nowhere
/// else.
#[verifier::external_body]
pub(crate) fn decode_header(bytes: &[u8]) -> (r: Result<
    BlockHeader,
    bitcoin::network::serialize::Error,
>)
    ensures
        match r {
            Ok(header) => header_of(bytes@) == Some(header),
            Err(_) => header_of(bytes@) is None,
        },
        r is Ok <==> bytes@.len() >= 80,
{
    BlockHeader::consensus_decode(&mut RawDecoder::new(bytes))
}

/// Calls `Transaction::consensus_decode` on a `RawDecoder` over `bytes`.  What
/// it returns depends on the bytes alone: the transaction, or the codec's
/// error.
#[verifier::external_body]
pub(crate) fn decode_transaction(bytes: &[u8]) -> (r: Result<
    Transaction,
    bitcoin::network::serialize::Error,
>)
    ensures
        match r {
            Ok(tx) => transaction_of(bytes@) == Some(tx),
            Err(_) => transaction_of(bytes@) is None,
        },
{
    Transaction::consensus_decode(&mut RawDecoder::new(bytes))
}

} // verus!
