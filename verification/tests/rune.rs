use std::str::FromStr;

use runes::error::RuneError;
use runes::rune::{
    from_tokens, issuance_marker_tokens, transfer_marker_tokens, Rune, RuneOp, ScriptToken,
};

#[test]
fn test_1aa98283f61cea9125aea58441067baca2533e2bbf8218b5e4f9ef7b8c0d8c30() {
    let rawtx = "01000000000101c305297cf18619a64dc0778d709a056184aa8760a4e95885585fd0ce3eff469e0800000000ffffffff0200000000000000001a6a01520b0001ff00752b7d000000000aff9878060100000000122d271d00000000002251208b9feef297e14e85f192e8f900efaf8852bf78542898c2a7af9550d4e137026101406e124084850794e370013ee6cfb5db762a16108df9ac8f7951140a56c3f143dc367bb9df0b424eba627e4887043140a80aab9571349a869a024a4095cb95928000000000";
    let tx: bitcoin::Transaction =
        bitcoin::consensus::encode::deserialize(&hex::decode(rawtx).unwrap()).unwrap();

    let rune = Rune::from_tx(tx).unwrap();

    assert_eq!(rune.op, RuneOp::Issuance);
    assert_eq!(rune.amount, 2_100_000_000);
    assert_eq!(rune.output_index, 1);
    assert_eq!(rune.id, 0);
    assert_eq!(rune.symbol, Some(17201304));
    assert_eq!(rune.decimals, Some(18));
    assert_eq!(rune.name().unwrap(), "RUNE".to_string());
}

#[test]
fn test_804c299bad4457daeab28c5227d36c3920d92b98dc73e4f37fe1497956d91469() {
    let rawtx = "01000000000101a616ebcf5b79993bd58fdf5830663bbb792d99c292350492857ba3d293887ba70300000000ffffffff040000000000000000126a0152030001450affe083e50000000000122202000000000000225120faae2eb2f5a9baa41050f8e2799115722cd3c9b683ea6f33e0a11caf764faa21f824010000000000225120f667578b85bed256c7fcb9f2cda488d5281e52ca42e7dd4bc21e95149562f09f9083030000000000225120045f0270cab3fd9be9c1e7b78686244ccc5b001db145ae3d9678ee254a576a0a0140ca3ed829cf459dd4fec05945eb2b215caab468105cd081b46c0f7061a005f727c5b50407d8c10494bda121b95c9097534bc3b201d93cec3c75515eef24d6623300000000";
    let tx: bitcoin::Transaction =
        bitcoin::consensus::encode::deserialize(&hex::decode(rawtx).unwrap()).unwrap();

    let rune = Rune::from_tx(tx).unwrap();

    assert_eq!(rune.op, RuneOp::Issuance);
    assert_eq!(rune.amount, 69);
    assert_eq!(rune.output_index, 1);
    assert_eq!(rune.id, 0);
    assert_eq!(rune.symbol, Some(15041504));
    assert_eq!(rune.decimals, Some(18));
    assert_eq!(rune.name().unwrap(), "PEPE".to_string());
}

#[test]
fn test_2aefe2887654b3e4e7addd8f7c6496c26110833342830c19babda8d3875072ea() {
    let rawtx = "01000000000101112d49b15384c61a2411036a7f73e8229e5a99da33147fd00ffc3b91526732430100000000ffffffff02e803000000000000146a0152090100010104406f40010603b50c0501002682980000000000225120b96b3913b8a1fdc6c223f884a779dd66c92ed6e4465e290ae3395306f98e91b20140ae0aba07e6543256a6c0659165e3a4b91574949d9987255bb0feca619b1ffdf02e8a932b6bad668b23f36ac7bc3f15a845e76b2d62319dc7d0f9b9c6c76eaedd00000000";
    let tx: bitcoin::Transaction =
        bitcoin::consensus::encode::deserialize(&hex::decode(rawtx).unwrap()).unwrap();

    let rune = Rune::from_tx(tx).unwrap();

    assert_eq!(rune.op, RuneOp::Issuance);
    assert_eq!(rune.amount, 1);
    assert_eq!(rune.output_index, 0);
    assert_eq!(rune.id, 1);
    assert_eq!(rune.symbol, Some(3));
    assert_eq!(rune.decimals, Some(181));
    assert_eq!(rune.name().unwrap(), "D".to_string());
}

#[test]
fn transfer_record_round_trip() {
    let tokens = transfer_marker_tokens(7, 2, 123456789);
    let rune = from_tokens(&tokens).unwrap();
    assert_eq!(rune.op, RuneOp::Transfer);
    assert_eq!(rune.id, 7);
    assert_eq!(rune.output_index, 2);
    assert_eq!(rune.amount, 123456789);
    assert_eq!(rune.symbol, None);
    assert_eq!(rune.decimals, None);
}

#[test]
fn transfer_only_scenario() {
    let tokens = transfer_marker_tokens(0, 1, 69);
    let rune = from_tokens(&tokens).unwrap();
    assert_eq!(rune.op, RuneOp::Transfer);
    assert_eq!(rune.amount, 69);
    assert_eq!(rune.output_index, 1);
    assert_eq!(rune.id, 0);
    assert_eq!(rune.symbol, None);
    assert_eq!(rune.decimals, None);
}

#[test]
fn issuance_record_round_trip() {
    let tokens = issuance_marker_tokens(0, 1, 21000000, 15041504, 18);
    let rune = from_tokens(&tokens).unwrap();
    assert_eq!(rune.op, RuneOp::Issuance);
    assert_eq!(rune.id, 0);
    assert_eq!(rune.output_index, 1);
    assert_eq!(rune.amount, 21000000);
    assert_eq!(rune.symbol, Some(15041504));
    assert_eq!(rune.decimals, Some(18));
}

#[test]
fn malformed_token_count_rejected() {
    let two = vec![
        ScriptToken::Opcode(0x6a),
        ScriptToken::PushData(vec![0x52]),
    ];
    assert_eq!(from_tokens(&two), Err(RuneError::InvalidRune));

    let five = vec![
        ScriptToken::Opcode(0x6a),
        ScriptToken::PushData(vec![0x52]),
        ScriptToken::PushData(vec![0, 1, 69]),
        ScriptToken::PushData(vec![3, 18]),
        ScriptToken::PushData(vec![1]),
    ];
    assert_eq!(from_tokens(&five), Err(RuneError::InvalidRune));
}

#[test]
fn malformed_marker_rejected() {
    // wrong protocol tag byte
    let wrong_tag = vec![
        ScriptToken::Opcode(0x6a),
        ScriptToken::PushData(vec![0x53]),
        ScriptToken::PushData(vec![0, 1, 69]),
    ];
    assert_eq!(from_tokens(&wrong_tag), Err(RuneError::InvalidRune));

    // wrong opening opcode
    let wrong_op = vec![
        ScriptToken::Opcode(0x51),
        ScriptToken::PushData(vec![0x52]),
        ScriptToken::PushData(vec![0, 1, 69]),
    ];
    assert_eq!(from_tokens(&wrong_op), Err(RuneError::InvalidRune));

    // the payload slot is not a push
    let no_push = vec![
        ScriptToken::Opcode(0x6a),
        ScriptToken::PushData(vec![0x52]),
        ScriptToken::Opcode(0x00),
    ];
    assert_eq!(from_tokens(&no_push), Err(RuneError::InvalidRune));
}

#[test]
fn truncated_payload_rejected() {
    // the third VarInt announces two more bytes than the payload holds
    let tokens = vec![
        ScriptToken::Opcode(0x6a),
        ScriptToken::PushData(vec![0x52]),
        ScriptToken::PushData(vec![0, 1, 0xfd, 0x26]),
    ];
    assert_eq!(from_tokens(&tokens), Err(RuneError::TruncatedInput));
}

#[test]
fn name_short_symbol() {
    let rune = Rune {
        op: RuneOp::Issuance,
        amount: 1,
        output_index: 1,
        id: 0,
        decimals: Some(0),
        symbol: Some(3),
    };
    assert_eq!(rune.name().unwrap(), "D".to_string());
}

#[test]
fn name_odd_digit_count() {
    // five digits: chunks "10", "25", "2" give "KZC"
    let rune = Rune {
        op: RuneOp::Issuance,
        amount: 1,
        output_index: 1,
        id: 0,
        decimals: Some(0),
        symbol: Some(10252),
    };
    assert_eq!(rune.name().unwrap(), "KZC".to_string());
}

#[test]
fn name_missing_field() {
    let rune = Rune {
        op: RuneOp::Transfer,
        amount: 1,
        output_index: 1,
        id: 0,
        decimals: None,
        symbol: None,
    };
    assert_eq!(rune.name(), Err(RuneError::MissingField));
}

#[test]
fn name_chunk_out_of_range() {
    // the single chunk "99" names no letter
    let rune = Rune {
        op: RuneOp::Issuance,
        amount: 1,
        output_index: 1,
        id: 0,
        decimals: Some(0),
        symbol: Some(99),
    };
    assert_eq!(rune.name(), Err(RuneError::InvalidRune));
}

#[test]
fn transfer_outputs_decode_back() {
    let to = bitcoin::Address::from_str("1A1zP1eP5QGefi2DMPTfTL5SLmv7DivfNa").unwrap();
    let outputs = Rune::transfer_outputs(69, to).unwrap();
    assert_eq!(outputs.len(), 2);
    assert_eq!(outputs[0].value, 0);
    assert_eq!(outputs[1].value, 546);

    let tx = bitcoin::Transaction {
        version: 1,
        lock_time: bitcoin::PackedLockTime(0),
        input: vec![],
        output: outputs,
    };
    let rune = Rune::from_tx(tx).unwrap();
    assert_eq!(rune.op, RuneOp::Transfer);
    assert_eq!(rune.amount, 69);
    assert_eq!(rune.output_index, 1);
    assert_eq!(rune.id, 0);
    assert_eq!(rune.symbol, None);
    assert_eq!(rune.decimals, None);
}

#[test]
fn issuance_outputs_decode_back() {
    let to = bitcoin::Address::from_str("1A1zP1eP5QGefi2DMPTfTL5SLmv7DivfNa").unwrap();
    let outputs = Rune::issuance_outputs(17201304, 18, 2_100_000_000, to).unwrap();
    assert_eq!(outputs.len(), 2);
    assert_eq!(outputs[0].value, 0);
    assert_eq!(outputs[1].value, 546);

    let tx = bitcoin::Transaction {
        version: 1,
        lock_time: bitcoin::PackedLockTime(0),
        input: vec![],
        output: outputs,
    };
    let rune = Rune::from_tx(tx).unwrap();
    assert_eq!(rune.op, RuneOp::Issuance);
    assert_eq!(rune.amount, 2_100_000_000);
    assert_eq!(rune.output_index, 1);
    assert_eq!(rune.id, 0);
    assert_eq!(rune.symbol, Some(17201304));
    assert_eq!(rune.decimals, Some(18));
    assert_eq!(rune.name().unwrap(), "RUNE".to_string());
}
