use vstd::prelude::*;

use bitcoin::{Address, Transaction, TxOut};

use crate::error::RuneError;
use crate::varint::{
    lemma_varint_enc_len, lemma_varint_round_trip, spec_varint_dec, spec_varint_enc, VarInt,
};

verus! {

/// Opcode that marks an output as an unspendable data carrier.
pub const OP_RETURN_BYTE: u8 = 0x6a;

/// The single byte that identifies this protocol inside a marker script.
pub const PROTOCOL_TAG: u8 = 0x52;

/// Value of the spend output that accompanies a marker output.
pub const DUST_VALUE: u64 = 546;

/// The two record operations the protocol knows.
#[derive(Clone, Copy, Debug, PartialEq, Eq, Structural)]
pub enum RuneOp {
    Issuance,
    Transfer,
}

/// A decoded or to-be-encoded record.
#[derive(Clone, Copy, Debug, PartialEq, Eq)]
pub struct Rune {
    pub op: RuneOp,
    pub amount: u64,
    pub output_index: u64,
    pub id: u64,
    pub decimals: Option<u64>,
    pub symbol: Option<u64>,
}

/// A script token: a plain opcode or a push-data chunk.
#[derive(Debug)]
pub enum ScriptToken {
    Opcode(u8),
    PushData(Vec<u8>),
}

/// The mathematical view of a script token.
pub enum TokenModel {
    Opcode(u8),
    PushData(Seq<u8>),
}

impl View for ScriptToken {
    type V = TokenModel;

    open spec fn view(&self) -> TokenModel {
        match self {
            ScriptToken::Opcode(c) => TokenModel::Opcode(*c),
            ScriptToken::PushData(d) => TokenModel::PushData(d@),
        }
    }
}

/// The token views of a token sequence.
pub open spec fn token_views(ts: Seq<ScriptToken>) -> Seq<TokenModel> {
    ts.map_values(|t: ScriptToken| t@)
}

/// The token is the data-carrier opcode.
pub open spec fn spec_is_op_return(t: TokenModel) -> bool {
    t matches TokenModel::Opcode(c) && c == OP_RETURN_BYTE
}

/// The token is a push of exactly the protocol tag byte.
pub open spec fn spec_is_protocol_tag(t: TokenModel) -> bool {
    t matches TokenModel::PushData(d) && d == seq![PROTOCOL_TAG]
}

/// Parse a transfer payload: `id`, `output_index` and `amount`, as three
/// VarInts decoded in sequence. Bytes after the third VarInt are ignored.
pub open spec fn spec_parse_transfer(s: Seq<u8>) -> Option<(u64, u64, u64)> {
    match spec_varint_dec(s) {
        None => None,
        Some((id, n1)) => match spec_varint_dec(s.skip(n1 as int)) {
            None => None,
            Some((oi, n2)) => match spec_varint_dec(s.skip((n1 + n2) as int)) {
                None => None,
                Some((amt, n3)) => Some((id, oi, amt)),
            },
        },
    }
}

/// Parse an issuance payload: `symbol` then `decimals`, as two VarInts
/// decoded in sequence. Bytes after the second VarInt are ignored.
pub open spec fn spec_parse_issuance(s: Seq<u8>) -> Option<(u64, u64)> {
    match spec_varint_dec(s) {
        None => None,
        Some((sym, n1)) => match spec_varint_dec(s.skip(n1 as int)) {
            None => None,
            Some((dec, n2)) => Some((sym, dec)),
        },
    }
}

/// Decode a record from the token sequence of a marker script: 3 tokens
/// are a transfer, 4 an issuance; the first two tokens must be the
/// data-carrier opcode and the protocol tag.
pub open spec fn spec_from_tokens(toks: Seq<TokenModel>) -> Result<Rune, RuneError> {
    if toks.len() != 3 && toks.len() != 4 {
        Err(RuneError::InvalidRune)
    } else if !spec_is_op_return(toks[0]) {
        Err(RuneError::InvalidRune)
    } else if !spec_is_protocol_tag(toks[1]) {
        Err(RuneError::InvalidRune)
    } else if !(toks[2] is PushData) {
        Err(RuneError::InvalidRune)
    } else {
        match spec_parse_transfer(toks[2]->PushData_0) {
            None => Err(RuneError::TruncatedInput),
            Some((id, oi, amt)) => {
                if toks.len() == 3 {
                    Ok(
                        Rune {
                            op: RuneOp::Transfer,
                            amount: amt,
                            output_index: oi,
                            id,
                            decimals: None,
                            symbol: None,
                        },
                    )
                } else if !(toks[3] is PushData) {
                    Err(RuneError::InvalidRune)
                } else {
                    match spec_parse_issuance(toks[3]->PushData_0) {
                        None => Err(RuneError::TruncatedInput),
                        Some((sym, dec)) => Ok(
                            Rune {
                                op: RuneOp::Issuance,
                                amount: amt,
                                output_index: oi,
                                id,
                                decimals: Some(dec),
                                symbol: Some(sym),
                            },
                        ),
                    }
                }
            },
        }
    }
}

/// A record is well-formed when the issuance-only fields are present
/// exactly for an issuance.
pub open spec fn rune_wf(r: Rune) -> bool {
    &&& (r.op is Issuance <==> r.symbol is Some)
    &&& (r.op is Issuance <==> r.decimals is Some)
}

/// Every decoded record is well-formed, and every decode failure is
/// `InvalidRune` or `TruncatedInput`.
pub proof fn lemma_from_tokens_cases(toks: Seq<TokenModel>)
    ensures
        spec_from_tokens(toks) matches Ok(r) ==> rune_wf(r),
        spec_from_tokens(toks) matches Err(e) ==> e == RuneError::InvalidRune || e
            == RuneError::TruncatedInput,
{
}

/// A token sequence of the wrong length, whose opening opcode or
/// protocol tag does not match, or whose payload slots are no push-data
/// chunks, decodes to `InvalidRune`. The issuance slot is judged only
/// after the transfer payload has been read in full: with a truncated
/// transfer payload the decode is `TruncatedInput` instead.
pub proof fn lemma_malformed_rejected(toks: Seq<TokenModel>)
    requires
        toks.len() != 3 && toks.len() != 4 || !spec_is_op_return(toks[0]) || !spec_is_protocol_tag(
            toks[1],
        ) || !(toks[2] is PushData) || (toks.len() == 4 && spec_parse_transfer(
            toks[2]->PushData_0,
        ) is Some && !(toks[3] is PushData)),
    ensures
        spec_from_tokens(toks) == Err::<Rune, RuneError>(RuneError::InvalidRune),
{
}

/// The marker token sequence of a transfer record.
pub open spec fn spec_transfer_marker(id: u64, output_index: u64, amount: u64) -> Seq<TokenModel> {
    seq![
        TokenModel::Opcode(OP_RETURN_BYTE),
        TokenModel::PushData(seq![PROTOCOL_TAG]),
        TokenModel::PushData(
            spec_varint_enc(id) + spec_varint_enc(output_index) + spec_varint_enc(amount),
        ),
    ]
}

/// The marker token sequence of an issuance record.
pub open spec fn spec_issuance_marker(
    id: u64,
    output_index: u64,
    amount: u64,
    symbol: u64,
    decimals: u64,
) -> Seq<TokenModel> {
    seq![
        TokenModel::Opcode(OP_RETURN_BYTE),
        TokenModel::PushData(seq![PROTOCOL_TAG]),
        TokenModel::PushData(
            spec_varint_enc(id) + spec_varint_enc(output_index) + spec_varint_enc(amount),
        ),
        TokenModel::PushData(spec_varint_enc(symbol) + spec_varint_enc(decimals)),
    ]
}

/// Round trip of a transfer record: decoding the marker built from three
/// fields gives back exactly those fields, with the issuance-only fields
/// absent.
pub proof fn lemma_transfer_round_trip(id: u64, output_index: u64, amount: u64)
    ensures
        spec_from_tokens(spec_transfer_marker(id, output_index, amount)) == Ok::<
            Rune,
            RuneError,
        >(
            Rune {
                op: RuneOp::Transfer,
                amount,
                output_index,
                id,
                decimals: None,
                symbol: None,
            },
        ),
{
    let toks = spec_transfer_marker(id, output_index, amount);
    let tp = spec_varint_enc(id) + spec_varint_enc(output_index) + spec_varint_enc(amount);
    lemma_parse_transfer_of_payload(id, output_index, amount);
    assert(toks[2]->PushData_0 == tp);
    assert(spec_is_protocol_tag(toks[1]));
}

/// Round trip of an issuance record: decoding the marker built from five
/// fields gives back exactly those fields.
pub proof fn lemma_issuance_round_trip(
    id: u64,
    output_index: u64,
    amount: u64,
    symbol: u64,
    decimals: u64,
)
    ensures
        spec_from_tokens(spec_issuance_marker(id, output_index, amount, symbol, decimals)) == Ok::<
            Rune,
            RuneError,
        >(
            Rune {
                op: RuneOp::Issuance,
                amount,
                output_index,
                id,
                decimals: Some(decimals),
                symbol: Some(symbol),
            },
        ),
{
    let toks = spec_issuance_marker(id, output_index, amount, symbol, decimals);
    let tp = spec_varint_enc(id) + spec_varint_enc(output_index) + spec_varint_enc(amount);
    let ip = spec_varint_enc(symbol) + spec_varint_enc(decimals);
    lemma_parse_transfer_of_payload(id, output_index, amount);
    assert(toks[2]->PushData_0 == tp);
    assert(toks[3]->PushData_0 == ip);
    assert(spec_is_protocol_tag(toks[1]));
    // the issuance payload parses back to its two fields
    lemma_varint_round_trip(symbol, spec_varint_enc(decimals));
    assert(ip.skip(spec_varint_enc(symbol).len() as int) =~= spec_varint_enc(decimals)
        + Seq::<u8>::empty());
    lemma_varint_round_trip(decimals, Seq::<u8>::empty());
    assert(spec_varint_enc(decimals) + Seq::<u8>::empty() =~= spec_varint_enc(decimals));
    assert(spec_parse_issuance(ip) == Some((symbol, decimals)));
}

/// A transfer payload parses back to the three fields it was built from.
pub proof fn lemma_parse_transfer_of_payload(id: u64, output_index: u64, amount: u64)
    ensures
        spec_parse_transfer(
            spec_varint_enc(id) + spec_varint_enc(output_index) + spec_varint_enc(amount),
        ) == Some((id, output_index, amount)),
{
    let tp = spec_varint_enc(id) + spec_varint_enc(output_index) + spec_varint_enc(amount);
    assert(tp =~= spec_varint_enc(id) + (spec_varint_enc(output_index) + spec_varint_enc(amount)));
    lemma_varint_round_trip(id, spec_varint_enc(output_index) + spec_varint_enc(amount));
    let n1 = spec_varint_enc(id).len() as int;
    assert(tp.skip(n1) =~= spec_varint_enc(output_index) + spec_varint_enc(amount));
    lemma_varint_round_trip(output_index, spec_varint_enc(amount));
    let n2 = spec_varint_enc(output_index).len() as int;
    assert(tp.skip(n1 + n2) =~= spec_varint_enc(amount) + Seq::<u8>::empty());
    lemma_varint_round_trip(amount, Seq::<u8>::empty());
    assert(spec_varint_enc(amount) + Seq::<u8>::empty() =~= spec_varint_enc(amount));
}

#[verifier::external_type_specification]
#[verifier::external_body]
pub struct ExTransaction(Transaction);

#[verifier::external_type_specification]
#[verifier::external_body]
pub struct ExTxOut(TxOut);

#[verifier::external_type_specification]
#[verifier::external_body]
pub struct ExAddress(Address);

/// The token sequence of a transaction's first output, or nothing when
/// the transaction has no outputs or the script's encoding is malformed.
/// The parse is a function of the transaction alone.
pub uninterp spec fn first_tokens_of(tx: Transaction) -> Option<Seq<TokenModel>>;

/// Relies on bitcoin's `Script::instructions`: parses the first output's
/// script into its opcodes and push-data chunks, in script order. Hands
/// back nothing when the transaction has no outputs or the script's
/// encoding is malformed.
#[verifier::external_body]
fn first_output_tokens(tx: &Transaction) -> (r: Option<Vec<ScriptToken>>)
    ensures
        (match r {
            Some(v) => first_tokens_of(*tx) == Some(token_views(v@)),
            None => first_tokens_of(*tx) is None,
        }),
{
    let out = tx.output.first()?;
    let mut tokens: Vec<ScriptToken> = Vec::new();
    for ins in out.script_pubkey.instructions() {
        match ins.ok()? {
            bitcoin::blockdata::script::Instruction::Op(op) => {
                tokens.push(ScriptToken::Opcode(op.to_u8()))
            }
            bitcoin::blockdata::script::Instruction::PushBytes(b) => {
                tokens.push(ScriptToken::PushData(b.to_vec()))
            }
        }
    }
    Some(tokens)
}

/// The output that the script builder makes from a value and a token
/// sequence. The result depends on the arguments alone.
pub uninterp spec fn txout_of(value: u64, toks: Seq<TokenModel>) -> TxOut;

/// The output paying a value to an address's standard spending script.
/// The result depends on the arguments alone.
pub uninterp spec fn addr_txout_of(value: u64, to: Address) -> TxOut;

/// Whether the address's spending script can be built: any witness
/// program the address holds stays below the script builder's push
/// limit of 4 GiB. True of every address bitcoin's own constructors
/// make; false only of a hand-assembled payload.
pub uninterp spec fn spec_addr_pushable(to: Address) -> bool;

/// Relies on bitcoin's `Address` payload representation (public
/// fields): tests whether the address holds a witness program of 4 GiB
/// or more, the one payload on which building its spending script
/// would abort.
#[verifier::external_body]
fn address_pushable(to: &Address) -> (r: bool)
    ensures
        r == spec_addr_pushable(*to),
{
    match &to.payload {
        bitcoin::util::address::Payload::WitnessProgram { program, .. } => {
            (program.len() as u64) < 0x1_0000_0000
        }
        _ => true,
    }
}

/// Relies on bitcoin's script `Builder` (`push_opcode`, `push_slice`,
/// `into_script`): an output of the given value whose script holds the
/// given tokens, each opcode pushed as an opcode and each chunk as push
/// data. `push_slice` refuses chunks of 4 GiB or more.
#[verifier::external_body]
fn tokens_txout(value: u64, tokens: &Vec<ScriptToken>) -> (r: TxOut)
    requires
        forall|i: int|
            #![trigger tokens@[i]]
            0 <= i < tokens@.len() ==> (tokens@[i]@ matches TokenModel::PushData(d) ==> d.len()
                < 0x1_0000_0000),
    ensures
        r == txout_of(value, token_views(tokens@)),
{
    let mut b = bitcoin::blockdata::script::Builder::new();
    for t in tokens.iter() {
        b = match t {
            ScriptToken::Opcode(c) => b.push_opcode(bitcoin::blockdata::opcodes::All::from(*c)),
            ScriptToken::PushData(d) => b.push_slice(d),
        };
    }
    TxOut { value, script_pubkey: b.into_script() }
}

/// Relies on bitcoin's `Address::script_pubkey`: an output of the given
/// value paying to the address's standard spending script. Building the
/// script pushes any witness program through the builder, which refuses
/// chunks of 4 GiB or more, so the address must be pushable.
#[verifier::external_body]
fn address_txout(value: u64, to: &Address) -> (r: TxOut)
    requires
        spec_addr_pushable(*to),
    ensures
        r == addr_txout_of(value, *to),
{
    TxOut { value, script_pubkey: to.script_pubkey() }
}

/// Decode a record from a marker script's token sequence.
pub fn from_tokens(tokens: &Vec<ScriptToken>) -> (r: Result<Rune, RuneError>)
    ensures
        r == spec_from_tokens(token_views(tokens@)),
{
    let ghost toksm = token_views(tokens@);
    let len = tokens.len();
    if len != 3 && len != 4 {
        return Err(RuneError::InvalidRune);
    }
    let ok0 = match &tokens[0] {
        ScriptToken::Opcode(c) => *c == OP_RETURN_BYTE,
        _ => false,
    };
    if !ok0 {
        assert(!spec_is_op_return(toksm[0]));
        return Err(RuneError::InvalidRune);
    }
    let ok1 = match &tokens[1] {
        ScriptToken::PushData(d) => d.len() == 1 && d[0] == PROTOCOL_TAG,
        _ => false,
    };
    proof {
        match tokens@[1]@ {
            TokenModel::PushData(d) => {
                if d.len() == 1 && d[0] == PROTOCOL_TAG {
                    assert(d =~= seq![PROTOCOL_TAG]);
                }
            },
            _ => {},
        }
    }
    if !ok1 {
        assert(!spec_is_protocol_tag(toksm[1]));
        return Err(RuneError::InvalidRune);
    }
    let transfer_bytes: &Vec<u8> = match &tokens[2] {
        ScriptToken::PushData(d) => d,
        _ => { return Err(RuneError::InvalidRune) },
    };
    let ghost tp = toksm[2]->PushData_0;
    proof {
        assert(transfer_bytes@.skip(0) =~= transfer_bytes@);
    }
    let s = transfer_bytes.as_slice();
    let (id, n1) = match VarInt::read_bytes_at(s, 0) {
        Ok(x) => x,
        Err(_) => { return Err(RuneError::TruncatedInput) },
    };
    let off1 = n1 as usize;
    let (output_index, n2) = match VarInt::read_bytes_at(s, off1) {
        Ok(x) => x,
        Err(_) => { return Err(RuneError::TruncatedInput) },
    };
    let off2 = off1 + n2 as usize;
    let (amount, _n3) = match VarInt::read_bytes_at(s, off2) {
        Ok(x) => x,
        Err(_) => { return Err(RuneError::TruncatedInput) },
    };
    assert(spec_parse_transfer(tp) == Some((id, output_index, amount)));
    if len == 3 {
        return Ok(
            Rune {
                op: RuneOp::Transfer,
                amount,
                output_index,
                id,
                decimals: None,
                symbol: None,
            },
        );
    }
    let issuance_bytes: &Vec<u8> = match &tokens[3] {
        ScriptToken::PushData(d) => d,
        _ => { return Err(RuneError::InvalidRune) },
    };
    let ghost ip = toksm[3]->PushData_0;
    proof {
        assert(issuance_bytes@.skip(0) =~= issuance_bytes@);
    }
    let s2 = issuance_bytes.as_slice();
    let (symbol, m1) = match VarInt::read_bytes_at(s2, 0) {
        Ok(x) => x,
        Err(_) => { return Err(RuneError::TruncatedInput) },
    };
    let (decimals, _m2) = match VarInt::read_bytes_at(s2, m1 as usize) {
        Ok(x) => x,
        Err(_) => { return Err(RuneError::TruncatedInput) },
    };
    assert(spec_parse_issuance(ip) == Some((symbol, decimals)));
    Ok(
        Rune {
            op: RuneOp::Issuance,
            amount,
            output_index,
            id,
            decimals: Some(decimals),
            symbol: Some(symbol),
        },
    )
}

/// Build the marker token sequence of a transfer record.
pub fn transfer_marker_tokens(id: u64, output_index: u64, amount: u64) -> (r: Vec<ScriptToken>)
    ensures
        token_views(r@) == spec_transfer_marker(id, output_index, amount),
{
    let mut r: Vec<ScriptToken> = Vec::new();
    r.push(ScriptToken::Opcode(OP_RETURN_BYTE));
    let mut tag: Vec<u8> = Vec::new();
    tag.push(PROTOCOL_TAG);
    let ghost tagv = tag@;
    r.push(ScriptToken::PushData(tag));
    r.push(ScriptToken::PushData(Rune::transfer_script(id, output_index, amount)));
    proof {
        assert(tagv =~= seq![PROTOCOL_TAG]);
        assert(token_views(r@) =~= spec_transfer_marker(id, output_index, amount));
    }
    r
}

/// Build the marker token sequence of an issuance record.
pub fn issuance_marker_tokens(
    id: u64,
    output_index: u64,
    amount: u64,
    symbol: u64,
    decimals: u64,
) -> (r: Vec<ScriptToken>)
    ensures
        token_views(r@) == spec_issuance_marker(id, output_index, amount, symbol, decimals),
{
    let mut r: Vec<ScriptToken> = Vec::new();
    r.push(ScriptToken::Opcode(OP_RETURN_BYTE));
    let mut tag: Vec<u8> = Vec::new();
    tag.push(PROTOCOL_TAG);
    let ghost tagv = tag@;
    r.push(ScriptToken::PushData(tag));
    r.push(ScriptToken::PushData(Rune::transfer_script(id, output_index, amount)));
    r.push(ScriptToken::PushData(Rune::issuance_script(symbol, decimals)));
    proof {
        assert(tagv =~= seq![PROTOCOL_TAG]);
        assert(token_views(r@) =~= spec_issuance_marker(id, output_index, amount, symbol, decimals));
    }
    r
}

impl Rune {
    /// Decode a record from a transaction: its first output must carry a
    /// marker script. A transaction with no outputs or an unparseable
    /// first-output script gives `InvalidRune`; otherwise the result is
    /// exactly the decoding of the script's token sequence. On success
    /// the record is well-formed; every failure is `InvalidRune` or
    /// `TruncatedInput`.
    pub fn from_tx(tx: Transaction) -> (r: Result<Rune, RuneError>)
        ensures
            (match first_tokens_of(tx) {
                Some(toks) => r == spec_from_tokens(toks),
                None => r == Err::<Rune, RuneError>(RuneError::InvalidRune),
            }),
            (match r {
                Ok(rune) => rune_wf(rune),
                Err(e) => e == RuneError::InvalidRune || e == RuneError::TruncatedInput,
            }),
    {
        match first_output_tokens(&tx) {
            None => Err(RuneError::InvalidRune),
            Some(tokens) => {
                let res = from_tokens(&tokens);
                proof {
                    lemma_from_tokens_cases(token_views(tokens@));
                }
                res
            },
        }
    }

    /// Transfer payload: the VarInt encodings of `id`, `output_index`
    /// and `amount`, in that order.
    pub fn transfer_script(id: u64, output_index: u64, amount: u64) -> (r: Vec<u8>)
        ensures
            r@ == spec_varint_enc(id) + spec_varint_enc(output_index) + spec_varint_enc(amount),
    {
        let mut data = VarInt::get_bytes(id);
        let mut b = VarInt::get_bytes(output_index);
        data.append(&mut b);
        let mut c = VarInt::get_bytes(amount);
        data.append(&mut c);
        data
    }

    /// Issuance payload: the VarInt encodings of `symbol` and `decimals`,
    /// in that order.
    pub fn issuance_script(symbol: u64, decimals: u64) -> (r: Vec<u8>)
        ensures
            r@ == spec_varint_enc(symbol) + spec_varint_enc(decimals),
    {
        let mut data = VarInt::get_bytes(symbol);
        let mut b = VarInt::get_bytes(decimals);
        data.append(&mut b);
        data
    }

    /// The two outputs of an issuance: a zero-value output carrying the
    /// issuance marker (`id = 0`, `output_index = 1`, the given amount,
    /// symbol and decimals), and a dust output paying the destination.
    /// Fails only on an address whose spending script cannot be built.
    pub fn issuance_outputs(symbol: u64, decimals: u64, amount: u64, to: Address) -> (r: Result<
        Vec<TxOut>,
        RuneError,
    >)
        ensures
            spec_addr_pushable(to) ==> (r matches Ok(outs) && outs@.len() == 2 && outs@[0]
                == txout_of(0, spec_issuance_marker(0, 1, amount, symbol, decimals)) && outs@[1]
                == addr_txout_of(DUST_VALUE, to)),
            !spec_addr_pushable(to) ==> r == Err::<Vec<TxOut>, RuneError>(RuneError::InvalidRune),
    {
        if !address_pushable(&to) {
            return Err(RuneError::InvalidRune);
        }
        let tokens = issuance_marker_tokens(0, 1, amount, symbol, decimals);
        proof {
            lemma_marker_pushes_small(token_views(tokens@));
            assert forall|i: int|
                #![trigger tokens@[i]]
                0 <= i < tokens@.len() implies (tokens@[i]@ matches TokenModel::PushData(d)
                ==> d.len() < 0x1_0000_0000) by {
                assert(token_views(tokens@)[i] == tokens@[i]@);
            }
        }
        let mut outs: Vec<TxOut> = Vec::new();
        outs.push(tokens_txout(0, &tokens));
        outs.push(address_txout(DUST_VALUE, &to));
        Ok(outs)
    }

    /// The two outputs of a transfer: a zero-value output carrying the
    /// transfer marker (`id = 0`, `output_index = 1`, the given amount),
    /// and a dust output paying the destination. Fails only on an
    /// address whose spending script cannot be built.
    pub fn transfer_outputs(amount: u64, to: Address) -> (r: Result<Vec<TxOut>, RuneError>)
        ensures
            spec_addr_pushable(to) ==> (r matches Ok(outs) && outs@.len() == 2 && outs@[0]
                == txout_of(0, spec_transfer_marker(0, 1, amount)) && outs@[1] == addr_txout_of(
                DUST_VALUE,
                to,
            )),
            !spec_addr_pushable(to) ==> r == Err::<Vec<TxOut>, RuneError>(RuneError::InvalidRune),
    {
        if !address_pushable(&to) {
            return Err(RuneError::InvalidRune);
        }
        let tokens = transfer_marker_tokens(0, 1, amount);
        proof {
            lemma_marker_pushes_small(token_views(tokens@));
            assert forall|i: int|
                #![trigger tokens@[i]]
                0 <= i < tokens@.len() implies (tokens@[i]@ matches TokenModel::PushData(d)
                ==> d.len() < 0x1_0000_0000) by {
                assert(token_views(tokens@)[i] == tokens@[i]@);
            }
        }
        let mut outs: Vec<TxOut> = Vec::new();
        outs.push(tokens_txout(0, &tokens));
        outs.push(address_txout(DUST_VALUE, &to));
        Ok(outs)
    }
}

/// The decimal digits of `v`, most significant first.
pub open spec fn spec_digits(v: nat) -> Seq<u8>
    decreases v,
{
    if v < 10 {
        seq![v as u8]
    } else {
        spec_digits(v / 10).push((v % 10) as u8)
    }
}

/// How many letters a digit string yields: its two-digit chunks, counted
/// from the left, a trailing single digit making a short final chunk.
pub open spec fn spec_chunk_count(len: nat) -> nat {
    (len + 1) / 2
}

/// The numeric value of chunk `j` of the digit string `d`.
pub open spec fn spec_chunk_val(d: Seq<u8>, j: int) -> nat
    recommends
        0 <= j < spec_chunk_count(d.len()),
{
    if 2 * j + 1 < d.len() {
        (10 * d[2 * j] + d[2 * j + 1]) as nat
    } else {
        d[2 * j] as nat
    }
}

/// Every chunk of the digit string names a letter, that is, lies in
/// `[0, 25]`.
pub open spec fn spec_symbol_chunks_ok(d: Seq<u8>) -> bool {
    forall|j: int| 0 <= j < spec_chunk_count(d.len()) ==> #[trigger] spec_chunk_val(d, j) <= 25
}

/// The `n`-th letter of the uppercase alphabet, starting from `'A'`.
pub open spec fn spec_letter(n: nat) -> char
    recommends
        n <= 25,
{
    ((65 + n) as u8) as char
}

/// The letters named by the chunks of the digit string `d`.
pub open spec fn spec_name_chars(d: Seq<u8>) -> Seq<char> {
    Seq::new(spec_chunk_count(d.len()), |j: int| spec_letter(spec_chunk_val(d, j)))
}

/// The symbol name derived from the numeric code `v`.
pub open spec fn spec_name_of(v: nat) -> Seq<char> {
    spec_name_chars(spec_digits(v))
}

/// Relies on `String::push`: appends exactly one character.
#[verifier::external_body]
fn push_char(s: &mut String, c: char)
    ensures
        final(s)@ == old(s)@.push(c),
{
    s.push(c);
}

/// The decimal digits of `v`, most significant first.
fn digits_of(v: u64) -> (r: Vec<u8>)
    ensures
        r@ == spec_digits(v as nat),
        forall|i: int| 0 <= i < r@.len() ==> r@[i] < 10,
        r@.len() >= 1,
{
    let mut digits: Vec<u8> = Vec::new();
    let mut x = v;
    proof {
        assert(spec_digits(v as nat) =~= spec_digits(x as nat) + digits@);
    }
    while x >= 10
        invariant
            spec_digits(v as nat) == spec_digits(x as nat) + digits@,
            forall|i: int| 0 <= i < digits@.len() ==> digits@[i] < 10,
        decreases x,
    {
        let ghost x0 = x as nat;
        let ghost ds0 = digits@;
        let dd = (x % 10) as u8;
        digits.insert(0, dd);
        x = x / 10;
        proof {
            assert(digits@ =~= seq![dd] + ds0);
            assert(spec_digits(x0) == spec_digits(x0 / 10).push((x0 % 10) as u8));
            assert(spec_digits(x as nat).push(dd) + ds0 =~= spec_digits(x as nat) + digits@);
        }
    }
    let ghost ds1 = digits@;
    digits.insert(0, x as u8);
    proof {
        assert(spec_digits(x as nat) =~= seq![x as u8]);
        assert(digits@ =~= seq![x as u8] + ds1);
        assert(digits@ =~= spec_digits(v as nat));
    }
    digits
}

impl Rune {
    /// Derive the record's human-readable symbol name: the symbol code's
    /// decimal digits are cut into two-digit chunks from the left, and
    /// each chunk names one uppercase letter, `0` being `'A'`. A record
    /// without a symbol yields `MissingField`; a chunk past `25` names no
    /// letter and yields `InvalidRune`.
    pub fn name(self) -> (r: Result<String, RuneError>)
        ensures
            (match r {
                Ok(s) => self.symbol matches Some(v) && spec_symbol_chunks_ok(
                    spec_digits(v as nat),
                ) && s@ == spec_name_of(v as nat),
                Err(e) => (e == RuneError::MissingField && self.symbol is None) || (e
                    == RuneError::InvalidRune && (self.symbol matches Some(v)
                    && !spec_symbol_chunks_ok(spec_digits(v as nat)))),
            }),
    {
        let v = match self.symbol {
            Some(v) => v,
            None => { return Err(RuneError::MissingField) },
        };
        let digits = digits_of(v);
        let ghost d = digits@;
        let len = digits.len();
        let nchunks = len / 2 + len % 2;
        proof {
            assert(nchunks == spec_chunk_count(d.len()));
        }
        let mut out = String::new();
        let mut j: usize = 0;
        while j < nchunks
            invariant
                self.symbol == Some(v),
                d == spec_digits(v as nat),
                d == digits@,
                d.len() == len,
                1 <= len,
                nchunks == spec_chunk_count(d.len()),
                j <= nchunks,
                forall|i: int| 0 <= i < d.len() ==> d[i] < 10,
                forall|k: int| 0 <= k < j ==> #[trigger] spec_chunk_val(d, k) <= 25,
                out@ == spec_name_chars(d).take(j as int),
            decreases nchunks - j,
        {
            assert(2 * j < len);
            let i = 2 * j;
            let c0 = digits[i];
            let val = if i + 1 < len {
                10 * c0 + digits[i + 1]
            } else {
                c0
            };
            assert(val == spec_chunk_val(d, j as int));
            if val > 25 {
                assert(!spec_symbol_chunks_ok(d));
                return Err(RuneError::InvalidRune);
            }
            let letter = (65 + val) as char;
            push_char(&mut out, letter);
            proof {
                assert(letter == spec_letter(spec_chunk_val(d, j as int)));
                assert(spec_name_chars(d)[j as int] == spec_letter(spec_chunk_val(d, j as int)));
                assert(out@ =~= spec_name_chars(d).take(j as int + 1));
            }
            j = j + 1;
        }
        proof {
            assert(out@ =~= spec_name_chars(d));
        }
        Ok(out)
    }
}

/// Every push-data chunk of a marker token sequence is far below the
/// size that the script builder refuses.
proof fn lemma_marker_pushes_small(toks: Seq<TokenModel>)
    requires
        (exists|id: u64, oi: u64, amt: u64| toks == #[trigger] spec_transfer_marker(id, oi, amt))
            || (exists|id: u64, oi: u64, amt: u64, sym: u64, dec: u64|
                toks == #[trigger] spec_issuance_marker(id, oi, amt, sym, dec)),
    ensures
        forall|i: int|
            0 <= i < toks.len() ==> (#[trigger] toks[i] matches TokenModel::PushData(d) ==> d.len()
                < 0x1_0000_0000),
{
    assert forall|i: int|
        0 <= i < toks.len() implies (#[trigger] toks[i] matches TokenModel::PushData(d)
        ==> d.len() < 0x1_0000_0000) by {
        if toks[i] is PushData {
            assert forall|v: u64| #[trigger] spec_varint_enc(v).len() <= 9 by {
                lemma_varint_enc_len(v);
            }
        }
    }
}

} // verus!
