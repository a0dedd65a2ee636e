//! The calls: for each remote procedure, its name and the arguments that are
//! sent for the parameters given.

use vstd::prelude::*;
use bitcoin::util::hash::Sha256dHash;
use crate::arg::{
    build_args, lemma_kept_all, lemma_outbound_views, lemma_trailing_defaults_bounded, optional_arg,
    outbound, trailing_defaults, views,
    Arg,
};
use crate::hexcode::{hex_encode, hex_encoding};
use crate::error::ClientError;
use crate::json::{
    lemma_array_value, representable, values, Json, JsonValue,
};
use crate::options::{options_object, QueryOptions};
use crate::notation::{hash_string, hash_text};
use crate::sighash::{sighash_string, sighash_token, SigHashType};

verus! {

/// A call as it is handed to the transport.
#[derive(Debug, PartialEq)]
pub struct Request {
    /// The name of the remote procedure.
    pub method: String,
    /// Its positional arguments.
    pub params: Vec<Json>,
}

/// The mathematical content of a [`Request`].
pub struct RequestView {
    pub method: Seq<char>,
    pub params: Seq<JsonValue>,
}

impl View for Request {
    type V = RequestView;

    open spec fn view(&self) -> RequestView {
        RequestView { method: self.method@, params: values(self.params@) }
    }
}

/// The JSON text that stands for `hash`.
pub open spec fn hash_value(hash: Sha256dHash) -> JsonValue {
    JsonValue::Text(hash_text(hash))
}

/// The JSON value of an optional hash.
pub open spec fn optional_hash(hash: Option<Sha256dHash>) -> Option<JsonValue> {
    match hash {
        Some(h) => Some(hash_value(h)),
        None => None,
    }
}

/// The JSON value of an optional count.
pub open spec fn optional_count(count: Option<usize>) -> Option<JsonValue> {
    match count {
        Some(n) => Some(JsonValue::Integer(n as int)),
        None => None,
    }
}

/// The JSON value of an optional flag.
pub open spec fn optional_flag(flag: Option<bool>) -> Option<JsonValue> {
    match flag {
        Some(b) => Some(JsonValue::Bool(b)),
        None => None,
    }
}

/// The JSON array of `addresses`, each as it is written, in their order.
pub open spec fn address_array(addresses: Seq<String>) -> JsonValue {
    JsonValue::Array(Seq::new(addresses.len(), |i: int| JsonValue::Text(addresses[i]@)))
}

/// The JSON value of an optional list of addresses.
pub open spec fn optional_addresses(addresses: Option<Vec<String>>) -> Option<JsonValue> {
    match addresses {
        Some(list) => Some(address_array(list@)),
        None => None,
    }
}

/// The JSON value of optional query options.
pub open spec fn optional_options(options: Option<QueryOptions>) -> Option<JsonValue> {
    match options {
        Some(list) => Some(options_object(list@)),
        None => None,
    }
}

/// The JSON value of an optional list of records that are JSON already.
pub open spec fn optional_records(records: Option<Vec<Json>>) -> Option<JsonValue> {
    match records {
        Some(list) => Some(JsonValue::Array(values(list@))),
        None => None,
    }
}

/// The JSON value of an optional signature-hash type: its token.
pub open spec fn optional_sighash(sighash: Option<SigHashType>) -> Option<JsonValue> {
    match sighash {
        Some(s) => Some(JsonValue::Text(sighash_token(s))),
        None => None,
    }
}

/// The empty JSON array.
pub open spec fn empty_array() -> JsonValue {
    JsonValue::Array(Seq::empty())
}

/// The empty JSON text, which stands in where no value is ever sent.
pub open spec fn empty_text() -> JsonValue {
    JsonValue::Text(Seq::empty())
}

/// Whether each of `params` can go over the wire.
pub open spec fn sendable(params: Seq<Json>) -> bool {
    forall|i: int| 0 <= i < params.len() ==> representable(#[trigger] params[i])
}

/// Whether the value of each of `args` can go over the wire, the values of
/// open slots too.
pub open spec fn all_representable(args: Seq<Arg<Json>>) -> bool {
    forall|i: int| 0 <= i < args.len() ==> representable((#[trigger] args[i]).value())
}

/// Executable form of [`all_representable`].
fn check_args(args: &Vec<Arg<Json>>) -> (ok: bool)
    ensures
        ok == all_representable(args@),
{
    let mut i: usize = 0;
    while i < args.len()
        invariant
            i <= args.len(),
            forall|k: int| 0 <= k < i ==> representable((#[trigger] args@[k]).value()),
        decreases args.len() - i,
    {
        if !args[i].value_ref().is_representable() {
            assert(!representable(args@[i as int].value()));
            return false;
        }
        i = i + 1;
    }
    true
}

/// Puts a call together from slots that have been looked at: the arguments
/// are what the call builder makes of `args`.
fn assemble(method: &str, args: Vec<Arg<Json>>) -> (req: Request)
    requires
        all_representable(args@),
    ensures
        req.method@ == method@,
        req.params@ == outbound(args@),
        req@ == (RequestView { method: method@, params: outbound(views(args@)) }),
        sendable(req.params@),
{
    proof {
        lemma_outbound_views(args@);
        lemma_trailing_defaults_bounded(args@);
    }
    let params = build_args(args);
    assert(values(params@) == outbound(views(args@)));
    assert forall|i: int| 0 <= i < params@.len() implies representable(#[trigger] params@[i]) by {
        assert(params@[i] == args@[i].value());
    }
    Request { method: method.to_owned(), params }
}

/// Puts a call together.  Every slot is looked at first, the open ones too:
/// a value that cannot go over the wire fails the call before anything is
/// sent.  Otherwise the arguments are what the call builder makes of `args`.
pub fn make_call(method: &str, args: Vec<Arg<Json>>) -> (r: Result<Request, ClientError>)
    ensures
        match r {
            Ok(req) => {
                &&& all_representable(args@)
                &&& req.method@ == method@
                &&& req.params@ == outbound(args@)
                &&& req@ == (RequestView { method: method@, params: outbound(views(args@)) })
                &&& sendable(req.params@)
            },
            Err(e) => !all_representable(args@) && e matches ClientError::Serialization(_),
        },
{
    if check_args(&args) {
        Ok(assemble(method, args))
    } else {
        Err(ClientError::Serialization("a number in an argument does not fit the wire".to_owned()))
    }
}

/// The JSON array of `addresses`.
fn address_list(addresses: &Vec<String>) -> (list: Json)
    ensures
        list@ == address_array(addresses@),
        representable(list),
{
    let mut items: Vec<Json> = Vec::with_capacity(addresses.len());
    let mut i: usize = 0;
    while i < addresses.len()
        invariant
            i <= addresses.len(),
            items@.len() == i,
            forall|k: int| 0 <= k < i ==> (#[trigger] items@[k])@ == JsonValue::Text(addresses@[k]@),
            forall|k: int| 0 <= k < i ==> representable(#[trigger] items@[k]),
        decreases addresses.len() - i,
    {
        items.push(Json::Text(addresses[i].clone()));
        i = i + 1;
    }
    proof {
        lemma_array_value(items);
        assert(values(items@) =~= address_array(addresses@)->Array_0);
    }
    Json::Array(items)
}

/// The slot of a mandatory hash.
fn hash_arg(hash: &Sha256dHash) -> (arg: Arg<Json>)
    ensures
        arg@ == Arg::Required(hash_value(*hash)),
        representable(arg.value()),
{
    Arg::Required(Json::Text(hash_string(hash)))
}

/// The slot of an optional hash, which has no default to stand in for it:
/// where it is left open, nothing is sent in its place.
fn optional_hash_arg(hash: &Option<Sha256dHash>) -> (arg: Arg<Json>)
    ensures
        arg@ == optional_arg(optional_hash(*hash), JsonValue::Null),
        representable(arg.value()),
{
    match hash {
        Some(h) => Arg::OptionalSet(Json::Text(hash_string(h))),
        None => Arg::OptionalDefault(Json::Null),
    }
}

/// The slots of a call with a hash and one more mandatory argument.
fn hash_and(hash: &Sha256dHash, second: Json) -> (args: Vec<Arg<Json>>)
    requires
        representable(second),
    ensures
        views(args@) == seq![Arg::Required(hash_value(*hash)), Arg::Required(second@)],
        all_representable(args@),
{
    let mut args: Vec<Arg<Json>> = Vec::with_capacity(2);
    args.push(hash_arg(hash));
    args.push(Arg::Required(second));
    assert(views(args@) =~= seq![Arg::Required(hash_value(*hash)), Arg::Required(second@)]);
    args
}

/// Two mandatory slots are both sent.
proof fn lemma_two_required(a: JsonValue, b: JsonValue)
    ensures
        outbound(seq![Arg::Required(a), Arg::Required(b)]) == seq![a, b],
{
    let args = seq![Arg::Required(a), Arg::Required(b)];
    lemma_kept_all(args);
    assert(outbound(args) =~= seq![a, b]);
}

/// `getblock` for the block in consensus encoding: the hash, and verbosity 0.
pub fn getblock_raw(hash: &Sha256dHash) -> (req: Request)
    ensures
        req@ == (RequestView {
            method: "getblock"@,
            params: seq![hash_value(*hash), JsonValue::Integer(0)],
        }),
        sendable(req.params@),
{
    proof {
        lemma_two_required(hash_value(*hash), JsonValue::Integer(0));
    }
    assemble("getblock", hash_and(hash, Json::Integer(0)))
}

/// `getblock` for the facts about a block: the hash, and verbosity 1.
pub fn getblock_info(hash: &Sha256dHash) -> (req: Request)
    ensures
        req@ == (RequestView {
            method: "getblock"@,
            params: seq![hash_value(*hash), JsonValue::Integer(1)],
        }),
        sendable(req.params@),
{
    proof {
        lemma_two_required(hash_value(*hash), JsonValue::Integer(1));
    }
    assemble("getblock", hash_and(hash, Json::Integer(1)))
}

/// `getblockcount`, which takes no argument.
pub fn getblockcount() -> (req: Request)
    ensures
        req@ == (RequestView { method: "getblockcount"@, params: Seq::empty() }),
        sendable(req.params@),
{
    let args: Vec<Arg<Json>> = Vec::new();
    assert(outbound(views(args@)) =~= Seq::<JsonValue>::empty());
    assemble("getblockcount", args)
}

/// `getblockhash` for the block at `height`.
pub fn getblockhash(height: u32) -> (req: Request)
    ensures
        req@ == (RequestView {
            method: "getblockhash"@,
            params: seq![JsonValue::Integer(height as int)],
        }),
        sendable(req.params@),
{
    let mut args: Vec<Arg<Json>> = Vec::with_capacity(1);
    args.push(Arg::Required(Json::Integer(height as i128)));
    proof {
        let slots = seq![Arg::Required(JsonValue::Integer(height as int))];
        assert(views(args@) =~= slots);
        lemma_kept_all(slots);
        assert(outbound(slots) =~= seq![JsonValue::Integer(height as int)]);
    }
    assemble("getblockhash", args)
}

/// `getblockheader` for the header in consensus encoding: the hash, and the
/// flag `true`.
pub fn getblockheader(hash: &Sha256dHash) -> (req: Request)
    ensures
        req@ == (RequestView {
            method: "getblockheader"@,
            params: seq![hash_value(*hash), JsonValue::Bool(true)],
        }),
        sendable(req.params@),
{
    proof {
        lemma_two_required(hash_value(*hash), JsonValue::Bool(true));
    }
    assemble("getblockheader", hash_and(hash, Json::Bool(true)))
}

/// `getblockheader` for the facts about a header: the hash, and the flag
/// `true`.
pub fn getblockheader_verbose(hash: &Sha256dHash) -> (req: Request)
    ensures
        req@ == (RequestView {
            method: "getblockheader"@,
            params: seq![hash_value(*hash), JsonValue::Bool(true)],
        }),
        sendable(req.params@),
{
    proof {
        lemma_two_required(hash_value(*hash), JsonValue::Bool(true));
    }
    assemble("getblockheader", hash_and(hash, Json::Bool(true)))
}

/// The slots of `getrawtransaction`: the transaction id, the verbosity flag,
/// and the hash of the block to look in, which may be left open.
pub open spec fn getrawtransaction_slots(
    txid: Sha256dHash,
    verbose: bool,
    block_hash: Option<Sha256dHash>,
) -> Seq<Arg<JsonValue>> {
    seq![
        Arg::Required(hash_value(txid)),
        Arg::Required(JsonValue::Bool(verbose)),
        optional_arg(optional_hash(block_hash), JsonValue::Null),
    ]
}

/// `getrawtransaction` with the verbosity flag given.
fn getrawtransaction_call(txid: &Sha256dHash, verbose: bool, block_hash: &Option<Sha256dHash>) -> (req:
    Request)
    ensures
        req@ == (RequestView {
            method: "getrawtransaction"@,
            params: outbound(getrawtransaction_slots(*txid, verbose, *block_hash)),
        }),
        sendable(req.params@),
{
    let mut args: Vec<Arg<Json>> = Vec::with_capacity(3);
    args.push(hash_arg(txid));
    args.push(Arg::Required(Json::Bool(verbose)));
    args.push(optional_hash_arg(block_hash));
    assert(views(args@) =~= getrawtransaction_slots(*txid, verbose, *block_hash));
    assemble("getrawtransaction", args)
}

/// `getrawtransaction` for the transaction in consensus encoding: the flag
/// is `false`.
pub fn getrawtransaction(txid: &Sha256dHash, block_hash: &Option<Sha256dHash>) -> (req: Request)
    ensures
        req@ == (RequestView {
            method: "getrawtransaction"@,
            params: outbound(getrawtransaction_slots(*txid, false, *block_hash)),
        }),
        sendable(req.params@),
{
    getrawtransaction_call(txid, false, block_hash)
}

/// `getrawtransaction` for the facts about a transaction: the flag is `true`.
pub fn getrawtransaction_verbose(txid: &Sha256dHash, block_hash: &Option<Sha256dHash>) -> (req:
    Request)
    ensures
        req@ == (RequestView {
            method: "getrawtransaction"@,
            params: outbound(getrawtransaction_slots(*txid, true, *block_hash)),
        }),
        sendable(req.params@),
{
    getrawtransaction_call(txid, true, block_hash)
}

/// The slots of `gettxout`: the transaction id, the index of the output, and
/// whether to look in the memory pool too, which the daemon does unless told
/// otherwise.
pub open spec fn gettxout_slots(txid: Sha256dHash, vout: u32, include_mempool: Option<bool>) -> Seq<
    Arg<JsonValue>,
> {
    seq![
        Arg::Required(hash_value(txid)),
        Arg::Required(JsonValue::Integer(vout as int)),
        optional_arg(optional_flag(include_mempool), JsonValue::Bool(true)),
    ]
}

/// `gettxout` for one output of a transaction.
pub fn gettxout(txid: &Sha256dHash, vout: u32, include_mempool: Option<bool>) -> (req: Request)
    ensures
        req@ == (RequestView {
            method: "gettxout"@,
            params: outbound(gettxout_slots(*txid, vout, include_mempool)),
        }),
        sendable(req.params@),
{
    let mempool = match include_mempool {
        Some(b) => Some(Json::Bool(b)),
        None => None,
    };
    let mut args: Vec<Arg<Json>> = Vec::with_capacity(3);
    args.push(hash_arg(txid));
    args.push(Arg::Required(Json::Integer(vout as i128)));
    args.push(Arg::optional(mempool, Json::Bool(true)));
    assert(views(args@) =~= gettxout_slots(*txid, vout, include_mempool));
    assemble("gettxout", args)
}

/// The slots of `listunspent`, each with the value that the daemon assumes
/// where it is left open: at least 0 and at most 9,999,999 confirmations, no
/// restriction to addresses, unsafe outputs included.  Each address is the
/// text that stands for it.  The query options have
/// no default: they are the last slot, and an empty text holds their place.
pub open spec fn listunspent_slots(
    minconf: Option<usize>,
    maxconf: Option<usize>,
    addresses: Option<Vec<String>>,
    include_unsafe: Option<bool>,
    query_options: Option<QueryOptions>,
) -> Seq<Arg<JsonValue>> {
    seq![
        optional_arg(optional_count(minconf), JsonValue::Integer(0)),
        optional_arg(optional_count(maxconf), JsonValue::Integer(9999999)),
        optional_arg(optional_addresses(addresses), empty_array()),
        optional_arg(optional_flag(include_unsafe), JsonValue::Bool(true)),
        optional_arg(optional_options(query_options), empty_text()),
    ]
}

/// The slot of an optional count.
fn count_arg(count: Option<usize>, default: u32) -> (arg: Arg<Json>)
    ensures
        arg@ == optional_arg(optional_count(count), JsonValue::Integer(default as int)),
        representable(arg.value()),
{
    match count {
        Some(n) => Arg::OptionalSet(Json::Integer(n as i128)),
        None => Arg::OptionalDefault(Json::Integer(default as i128)),
    }
}

/// An array without items.
fn no_items() -> (array: Json)
    ensures
        array@ == empty_array(),
        representable(array),
{
    let items: Vec<Json> = Vec::new();
    proof {
        lemma_array_value(items);
        assert(values(items@) =~= Seq::<JsonValue>::empty());
    }
    Json::Array(items)
}

/// A text without characters.
fn no_text() -> (text: Json)
    ensures
        text@ == empty_text(),
        representable(text),
{
    let text = String::new();
    assert(text@ =~= Seq::<char>::empty());
    Json::Text(text)
}

/// `listunspent` for the unspent outputs of the wallet that meet the bounds
/// given.
pub fn listunspent(
    minconf: Option<usize>,
    maxconf: Option<usize>,
    addresses: &Option<Vec<String>>,
    include_unsafe: Option<bool>,
    query_options: &Option<QueryOptions>,
) -> (req: Request)
    ensures
        req@ == (RequestView {
            method: "listunspent"@,
            params: outbound(
                listunspent_slots(minconf, maxconf, *addresses, include_unsafe, *query_options),
            ),
        }),
        sendable(req.params@),
{
    let address_arg = match addresses {
        Some(list) => Arg::OptionalSet(address_list(list)),
        None => Arg::OptionalDefault(no_items()),
    };
    let unsafe_arg = match include_unsafe {
        Some(b) => Arg::OptionalSet(Json::Bool(b)),
        None => Arg::OptionalDefault(Json::Bool(true)),
    };
    let options_arg = match query_options {
        Some(list) => Arg::OptionalSet(list.to_json()),
        None => Arg::OptionalDefault(no_text()),
    };
    let mut args: Vec<Arg<Json>> = Vec::with_capacity(5);
    args.push(count_arg(minconf, 0));
    args.push(count_arg(maxconf, 9999999));
    args.push(address_arg);
    args.push(unsafe_arg);
    args.push(options_arg);
    assert(views(args@) =~= listunspent_slots(
        minconf,
        maxconf,
        *addresses,
        include_unsafe,
        *query_options,
    ));
    assemble("listunspent", args)
}

/// The slots of `signrawtransaction`: the transaction in hexadecimal, the
/// outputs it spends as far as the caller knows them, the private keys, and
/// the signature-hash type.  No private key is ever sent: an empty array
/// always holds their place, so the slot before it is always sent too.
pub open spec fn signrawtransaction_slots(
    tx: Seq<u8>,
    utxos: Option<Vec<Json>>,
    sighash_type: Option<SigHashType>,
) -> Seq<Arg<JsonValue>> {
    seq![
        Arg::Required(JsonValue::Text(hex_encoding(tx))),
        optional_arg(optional_records(utxos), empty_array()),
        Arg::OptionalSet(empty_array()),
        optional_arg(optional_sighash(sighash_type), empty_text()),
    ]
}

/// Whether each of the records given can go over the wire.
pub open spec fn records_representable(records: Option<Vec<Json>>) -> bool {
    match records {
        Some(list) => sendable(list@),
        None => true,
    }
}

/// `signrawtransaction` for the transaction whose consensus encoding is
/// `tx`.  Each of `utxos` is the JSON record of one output; a number in one
/// of them that cannot go over the wire fails the call.  `private_keys` is
/// not sent.
pub fn signrawtransaction(
    tx: &[u8],
    utxos: Option<Vec<Json>>,
    private_keys: Option<Vec<Vec<u8>>>,
    sighash_type: Option<SigHashType>,
) -> (r: Result<Request, ClientError>)
    ensures
        match r {
            Ok(req) => {
                &&& records_representable(utxos)
                &&& req@ == (RequestView {
                    method: "signrawtransaction"@,
                    params: outbound(signrawtransaction_slots(tx@, utxos, sighash_type)),
                })
                &&& sendable(req.params@)
            },
            Err(e) => !records_representable(utxos) && e matches ClientError::Serialization(_),
        },
{
    let utxo_arg = match utxos {
        Some(list) => {
            proof {
                lemma_array_value(list);
            }
            Arg::OptionalSet(Json::Array(list))
        },
        None => Arg::OptionalDefault(no_items()),
    };
    let sighash_arg = match sighash_string(sighash_type) {
        Some(token) => Arg::OptionalSet(Json::Text(token)),
        None => Arg::OptionalDefault(no_text()),
    };
    let mut args: Vec<Arg<Json>> = Vec::with_capacity(4);
    args.push(Arg::Required(Json::Text(hex_encode(tx))));
    args.push(utxo_arg);
    args.push(Arg::OptionalSet(no_items()));
    args.push(sighash_arg);
    assert(views(args@) =~= signrawtransaction_slots(tx@, utxos, sighash_type));
    proof {
        if records_representable(utxos) {
            assert forall|i: int| 0 <= i < args@.len() implies representable(
                (#[trigger] args@[i]).value(),
            ) by {}
        } else {
            assert(!representable(args@[1].value()));
        }
    }
    make_call("signrawtransaction", args)
}

/// With the least number of confirmations given and every later parameter
/// left open, `listunspent` sends that number and nothing else.
pub proof fn law_listunspent_minconf_alone(minconf: usize)
    ensures
        outbound(listunspent_slots(Some(minconf), None, None, None, None)) == seq![
            JsonValue::Integer(minconf as int),
        ],
{
    reveal_with_fuel(trailing_defaults, 6);
    let slots = listunspent_slots(Some(minconf), None, None, None, None);
    assert(outbound(slots) =~= seq![JsonValue::Integer(minconf as int)]);
}

/// With query options given, `listunspent` sends all five arguments: each
/// parameter that was left open goes as the value that the daemon assumes
/// for it.
pub proof fn law_listunspent_options_alone(query_options: QueryOptions)
    ensures
        outbound(listunspent_slots(None, None, None, None, Some(query_options))) == seq![
            JsonValue::Integer(0),
            JsonValue::Integer(9999999),
            empty_array(),
            JsonValue::Bool(true),
            options_object(query_options@),
        ],
{
    let slots = listunspent_slots(None, None, None, None, Some(query_options));
    lemma_kept_all(slots);
    assert(outbound(slots) =~= seq![
        JsonValue::Integer(0),
        JsonValue::Integer(9999999),
        empty_array(),
        JsonValue::Bool(true),
        options_object(query_options@),
    ]);
}

/// With no known output and no signature-hash type given,
/// `signrawtransaction` sends three arguments: the slot of the signature-hash
/// type is dropped, and the slot of the known outputs goes as an empty array,
/// because the array that holds the place of the private keys follows it.
pub proof fn law_signrawtransaction_bare(tx: Seq<u8>)
    ensures
        outbound(signrawtransaction_slots(tx, None, None)) == seq![
            JsonValue::Text(hex_encoding(tx)),
            empty_array(),
            empty_array(),
        ],
{
    reveal_with_fuel(trailing_defaults, 3);
    let slots = signrawtransaction_slots(tx, None, None);
    assert(outbound(slots) =~= seq![
        JsonValue::Text(hex_encoding(tx)),
        empty_array(),
        empty_array(),
    ]);
}

/// Without the hash of a block, `getrawtransaction` sends the transaction id
/// and the flag, and nothing in the place of the hash.
pub proof fn law_getrawtransaction_anywhere(txid: Sha256dHash, verbose: bool)
    ensures
        outbound(getrawtransaction_slots(txid, verbose, None)) == seq![
            hash_value(txid),
            JsonValue::Bool(verbose),
        ],
{
    reveal_with_fuel(trailing_defaults, 3);
    let slots = getrawtransaction_slots(txid, verbose, None);
    assert(outbound(slots) =~= seq![hash_value(txid), JsonValue::Bool(verbose)]);
}

} // verus!
