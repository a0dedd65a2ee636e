use bitcoincore_rpc::sighash::{sighash_from_string, sighash_string, SigHashType};

#[test]
fn tokens_are_the_upper_case_names() {
    assert_eq!(sighash_string(Some(SigHashType::All)), Some("ALL".to_string()));
    assert_eq!(sighash_string(Some(SigHashType::NoOutputs)), Some("NONE".to_string()));
    assert_eq!(sighash_string(Some(SigHashType::Single)), Some("SINGLE".to_string()));
    assert_eq!(
        sighash_string(Some(SigHashType::AllPlusAnyoneCanPay)),
        Some("ALL|ANYONECANPAY".to_string())
    );
    assert_eq!(
        sighash_string(Some(SigHashType::NonePlusAnyoneCanPay)),
        Some("NONE|ANYONECANPAY".to_string())
    );
    assert_eq!(
        sighash_string(Some(SigHashType::SinglePlusAnyoneCanPay)),
        Some("SINGLE|ANYONECANPAY".to_string())
    );
}

#[test]
fn no_type_gives_no_token() {
    assert_eq!(sighash_string(None), None);
}

#[test]
fn token_round_trip_for_all_six() {
    let all = [
        SigHashType::All,
        SigHashType::NoOutputs,
        SigHashType::Single,
        SigHashType::AllPlusAnyoneCanPay,
        SigHashType::NonePlusAnyoneCanPay,
        SigHashType::SinglePlusAnyoneCanPay,
    ];
    for s in all.iter() {
        let token = sighash_string(Some(*s)).unwrap();
        assert_eq!(sighash_from_string(&token), Some(*s));
    }
}

#[test]
fn other_texts_name_no_type() {
    assert_eq!(sighash_from_string(""), None);
    assert_eq!(sighash_from_string("all"), None);
    assert_eq!(sighash_from_string("ALL|"), None);
    assert_eq!(sighash_from_string("ANYONECANPAY"), None);
    assert_eq!(sighash_from_string("ALL|ANYONECANPAY "), None);
}
