//! Signature-hash types and the tokens that name them to the daemon.

use vstd::prelude::*;

verus! {

/// Which parts of a transaction a signature commits to.
#[derive(Debug, Clone, Copy, PartialEq, Eq)]
pub enum SigHashType {
    /// All outputs.
    All,
    /// No output.
    NoOutputs,
    /// The output with the index of the input.
    Single,
    /// All outputs, and this input only.
    AllPlusAnyoneCanPay,
    /// No output, and this input only.
    NonePlusAnyoneCanPay,
    /// The output with the index of the input, and this input only.
    SinglePlusAnyoneCanPay,
}

/// The token of `sighash`.
pub open spec fn sighash_token(sighash: SigHashType) -> Seq<char> {
    match sighash {
        SigHashType::All => "ALL"@,
        SigHashType::NoOutputs => "NONE"@,
        SigHashType::Single => "SINGLE"@,
        SigHashType::AllPlusAnyoneCanPay => "ALL|ANYONECANPAY"@,
        SigHashType::NonePlusAnyoneCanPay => "NONE|ANYONECANPAY"@,
        SigHashType::SinglePlusAnyoneCanPay => "SINGLE|ANYONECANPAY"@,
    }
}

/// The type that `token` names, if it names one.
pub open spec fn token_sighash(token: Seq<char>) -> Option<SigHashType> {
    if token == "ALL"@ {
        Some(SigHashType::All)
    } else if token == "NONE"@ {
        Some(SigHashType::NoOutputs)
    } else if token == "SINGLE"@ {
        Some(SigHashType::Single)
    } else if token == "ALL|ANYONECANPAY"@ {
        Some(SigHashType::AllPlusAnyoneCanPay)
    } else if token == "NONE|ANYONECANPAY"@ {
        Some(SigHashType::NonePlusAnyoneCanPay)
    } else if token == "SINGLE|ANYONECANPAY"@ {
        Some(SigHashType::SinglePlusAnyoneCanPay)
    } else {
        None
    }
}

/// The token of a signature-hash type as the daemon reads it, or nothing
/// where none was chosen.
pub fn sighash_string(sighash: Option<SigHashType>) -> (token: Option<String>)
    ensures
        sighash is None <==> token is None,
        sighash matches Some(s) ==> token.unwrap()@ == sighash_token(s),
{
    match sighash {
        None => None,
        Some(sh) => Some(
            match sh {
                SigHashType::All => "ALL",
                SigHashType::NoOutputs => "NONE",
                SigHashType::Single => "SINGLE",
                SigHashType::AllPlusAnyoneCanPay => "ALL|ANYONECANPAY",
                SigHashType::NonePlusAnyoneCanPay => "NONE|ANYONECANPAY",
                SigHashType::SinglePlusAnyoneCanPay => "SINGLE|ANYONECANPAY",
            }.to_owned(),
        ),
    }
}

/// Whether two texts are the same, character for character.
fn same_text(a: &str, b: &str) -> (same: bool)
    ensures
        same == (a@ == b@),
{
    a.to_owned() == b.to_owned()
}

/// Reads a token back: the type it names, or nothing for any other text.
pub fn sighash_from_string(token: &str) -> (sighash: Option<SigHashType>)
    ensures
        sighash == token_sighash(token@),
{
    if same_text(token, "ALL") {
        Some(SigHashType::All)
    } else if same_text(token, "NONE") {
        Some(SigHashType::NoOutputs)
    } else if same_text(token, "SINGLE") {
        Some(SigHashType::Single)
    } else if same_text(token, "ALL|ANYONECANPAY") {
        Some(SigHashType::AllPlusAnyoneCanPay)
    } else if same_text(token, "NONE|ANYONECANPAY") {
        Some(SigHashType::NonePlusAnyoneCanPay)
    } else if same_text(token, "SINGLE|ANYONECANPAY") {
        Some(SigHashType::SinglePlusAnyoneCanPay)
    } else {
        None
    }
}

/// Writing a type as its token and reading the token back gives the type
/// again, whichever of the six it is; so no two types share a token.
pub proof fn law_token_round_trip(sighash: SigHashType)
    ensures
        token_sighash(sighash_token(sighash)) == Some(sighash),
{
    reveal_strlit("ALL");
    reveal_strlit("NONE");
    reveal_strlit("SINGLE");
    reveal_strlit("ALL|ANYONECANPAY");
    reveal_strlit("NONE|ANYONECANPAY");
    reveal_strlit("SINGLE|ANYONECANPAY");
    assert("ALL"@.len() == 3);
    assert("NONE"@.len() == 4);
    assert("SINGLE"@.len() == 6);
    assert("ALL|ANYONECANPAY"@.len() == 16);
    assert("NONE|ANYONECANPAY"@.len() == 17);
    assert("SINGLE|ANYONECANPAY"@.len() == 19);
}

} // verus!
