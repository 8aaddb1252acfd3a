use vstd::prelude::*;
use crate::types::{AccessList, Address, Signature, TxError, Field};
use crate::rlp::{
    EIP_1559_TYPE, rlp_bytes, rlp_list, rlp_uint, list_header, min_be_bytes, append_bytes,
    append_list, append_uint,
};
use crate::parse::{
    numeric_ok, numeric_value, hex_pairs_ok, hex_bytes, has_hex_prefix, address_chars_ok,
    parse_u64, parse_u128, decode_hex, parse_eth_address,
};
use crate::json::{json_wf, parse_json_doc, json_str_field, doc_str_fields, parsed_str_fields};

verus! {

/// A dynamic-fee transaction, immutable once built; `to == None` is the sole
/// representation of a contract-creation intent.
#[derive(Debug)]
pub struct EVMTransaction {
    pub chain_id: u64,
    pub nonce: u64,
    pub to: Option<Address>,
    pub value: u128,
    pub input: Vec<u8>,
    pub gas_limit: u128,
    pub max_fee_per_gas: u128,
    pub max_priority_fee_per_gas: u128,
    pub access_list: AccessList,
}

/// The storage keys of an access-list entry as mathematical sequences.
pub open spec fn keys_view(keys: Seq<[u8; 32]>) -> Seq<Seq<u8>> {
    Seq::new(keys.len(), |i: int| keys[i]@)
}

/// An access list as mathematical sequences, order preserved.
pub open spec fn access_list_view(al: Seq<(Address, Vec<[u8; 32]>)>) -> Seq<(Seq<u8>, Seq<Seq<u8>>)> {
    Seq::new(al.len(), |i: int| (al[i].0@, keys_view(al[i].1@)))
}

/// The concatenated encodings of the storage keys of one entry.
pub open spec fn keys_payload(keys: Seq<Seq<u8>>) -> Seq<u8>
    decreases keys.len(),
{
    if keys.len() == 0 {
        Seq::empty()
    } else {
        keys_payload(keys.drop_last()) + rlp_bytes(keys.last())
    }
}

/// One access-list entry: a 2-element list of the address byte string and
/// the list of its storage keys.
pub open spec fn entry_encoding(e: (Seq<u8>, Seq<Seq<u8>>)) -> Seq<u8> {
    rlp_list(rlp_bytes(e.0) + rlp_list(keys_payload(e.1)))
}

/// The concatenated encodings of the access-list entries, in stored order.
pub open spec fn access_list_payload(al: Seq<(Seq<u8>, Seq<Seq<u8>>)>) -> Seq<u8>
    decreases al.len(),
{
    if al.len() == 0 {
        Seq::empty()
    } else {
        access_list_payload(al.drop_last()) + entry_encoding(al.last())
    }
}

/// The recipient as a byte string: the 20 raw bytes if present, else empty.
pub open spec fn recipient_bytes(to: Option<Address>) -> Seq<u8> {
    match to {
        Some(a) => a@,
        None => Seq::empty(),
    }
}

/// The nine transaction fields, encoded and concatenated in canonical order.
pub open spec fn fields_payload(tx: EVMTransaction) -> Seq<u8> {
    rlp_uint(tx.chain_id as nat) + rlp_uint(tx.nonce as nat) + rlp_uint(
        tx.max_priority_fee_per_gas as nat,
    ) + rlp_uint(tx.max_fee_per_gas as nat) + rlp_uint(tx.gas_limit as nat) + rlp_bytes(
        recipient_bytes(tx.to),
    ) + rlp_uint(tx.value as nat) + rlp_bytes(tx.input@) + rlp_list(
        access_list_payload(access_list_view(tx.access_list@)),
    )
}

/// The three signature items, encoded and concatenated.
pub open spec fn signature_items(sig: Signature) -> Seq<u8> {
    rlp_uint(sig.v as nat) + rlp_bytes(sig.r@) + rlp_bytes(sig.s@)
}

/// The unsigned signing payload: the type byte, then the framed field list.
pub open spec fn unsigned_encoding(tx: EVMTransaction) -> Seq<u8> {
    seq![EIP_1559_TYPE] + rlp_list(fields_payload(tx))
}

/// The broadcast payload: the type byte, then the framed field list with the
/// three signature items appended after the access list.
pub open spec fn signed_encoding(tx: EVMTransaction, sig: Signature) -> Seq<u8> {
    seq![EIP_1559_TYPE] + rlp_list(fields_payload(tx) + signature_items(sig))
}

impl EVMTransaction {
    /// Encodes the nine fields in canonical order and returns the
    /// concatenated item bytes, not yet framed as a list.
    fn encode_fields(&self) -> (payload: Vec<u8>)
        ensures
            payload@ == fields_payload(*self),
    {
        let mut out: Vec<u8> = Vec::new();
        append_uint(&mut out, self.chain_id as u128);
        append_uint(&mut out, self.nonce as u128);
        append_uint(&mut out, self.max_priority_fee_per_gas);
        append_uint(&mut out, self.max_fee_per_gas);
        append_uint(&mut out, self.gas_limit);
        match &self.to {
            Some(a) => append_bytes(&mut out, a.as_slice()),
            None => {
                let empty: Vec<u8> = Vec::new();
                append_bytes(&mut out, empty.as_slice());
            },
        }
        append_uint(&mut out, self.value);
        append_bytes(&mut out, self.input.as_slice());
        let ghost alv = access_list_view(self.access_list@);
        let mut al_payload: Vec<u8> = Vec::new();
        let mut i: usize = 0;
        while i < self.access_list.len()
            invariant
                i <= self.access_list@.len(),
                alv == access_list_view(self.access_list@),
                al_payload@ == access_list_payload(alv.take(i as int)),
            decreases self.access_list@.len() - i,
        {
            let entry = &self.access_list[i];
            let mut kp: Vec<u8> = Vec::new();
            let ghost kv = keys_view(entry.1@);
            let mut j: usize = 0;
            while j < entry.1.len()
                invariant
                    j <= entry.1@.len(),
                    kv == keys_view(entry.1@),
                    kp@ == keys_payload(kv.take(j as int)),
                decreases entry.1@.len() - j,
            {
                append_bytes(&mut kp, entry.1[j].as_slice());
                proof {
                    assert(kv.take(j + 1).drop_last() =~= kv.take(j as int));
                    assert(kv.take(j + 1).last() == kv[j as int]);
                }
                j = j + 1;
            }
            proof {
                assert(kv.take(kv.len() as int) =~= kv);
            }
            let mut ep: Vec<u8> = Vec::new();
            append_bytes(&mut ep, entry.0.as_slice());
            append_list(&mut ep, kp.as_slice());
            append_list(&mut al_payload, ep.as_slice());
            proof {
                assert(alv.take(i + 1).drop_last() =~= alv.take(i as int));
                assert(alv.take(i + 1).last() == alv[i as int]);
                assert(ep@ == rlp_bytes(alv[i as int].0) + rlp_list(keys_payload(alv[i as int].1)));
            }
            i = i + 1;
        }
        proof {
            assert(alv.take(alv.len() as int) =~= alv);
        }
        append_list(&mut out, al_payload.as_slice());
        proof {
            assert(out@ =~= fields_payload(*self));
        }
        out
    }

    /// The unsigned signing payload for this transaction.
    pub fn build_for_signing(&self) -> (r: Vec<u8>)
        ensures
            r@ == unsigned_encoding(*self),
    {
        let payload = self.encode_fields();
        let mut out: Vec<u8> = Vec::new();
        out.push(EIP_1559_TYPE);
        append_list(&mut out, payload.as_slice());
        proof {
            assert(out@ =~= unsigned_encoding(*self));
        }
        out
    }

    /// The broadcast payload for this transaction: the signature items are
    /// appended after the access list, inside the same list framing.
    #[verifier::rlimit(30)]
    pub fn build_with_signature(&self, signature: &Signature) -> (r: Vec<u8>)
        ensures
            r@ == signed_encoding(*self, *signature),
    {
        let mut payload = self.encode_fields();
        append_uint(&mut payload, signature.v as u128);
        append_bytes(&mut payload, signature.r.as_slice());
        append_bytes(&mut payload, signature.s.as_slice());
        let mut out: Vec<u8> = Vec::new();
        out.push(EIP_1559_TYPE);
        append_list(&mut out, payload.as_slice());
        proof {
            assert(out@ =~= signed_encoding(*self, *signature));
        }
        out
    }
}

/// The encoding is a function of the transaction value alone: any two byte
/// strings produced for the same transaction are identical.
pub proof fn lemma_unsigned_encoding_deterministic(tx: EVMTransaction, b1: Seq<u8>, b2: Seq<u8>)
    requires
        b1 == unsigned_encoding(tx),
        b2 == unsigned_encoding(tx),
    ensures
        b1 == b2,
{
}

/// Every encoder output begins with the literal type byte 2.
pub proof fn lemma_encoding_type_byte(tx: EVMTransaction, sig: Signature)
    ensures
        unsigned_encoding(tx).len() > 0,
        unsigned_encoding(tx)[0] == 2,
        signed_encoding(tx, sig).len() > 0,
        signed_encoding(tx, sig)[0] == 2,
{
}

/// The signature items are strictly appended: the signed list payload begins
/// with the unsigned list payload, unchanged, and ends with the encodings of
/// `v`, `r` and `s`.
pub proof fn lemma_signature_strictly_appended(tx: EVMTransaction, sig: Signature)
    ensures
        (fields_payload(tx) + signature_items(sig)).take(fields_payload(tx).len() as int)
            == fields_payload(tx),
        (fields_payload(tx) + signature_items(sig)).skip(fields_payload(tx).len() as int)
            == signature_items(sig),
{
    assert((fields_payload(tx) + signature_items(sig)).take(fields_payload(tx).len() as int)
        =~= fields_payload(tx));
    assert((fields_payload(tx) + signature_items(sig)).skip(fields_payload(tx).len() as int)
        =~= signature_items(sig));
}

/// The byte length of a list header for a payload of the given length.
pub open spec fn list_header_len(payload_len: nat) -> nat {
    if payload_len <= 55 {
        1
    } else {
        1 + min_be_bytes(payload_len).len()
    }
}

/// When appending the signature does not change the size class of the list
/// header, the signed encoding is longer than the unsigned one by exactly the
/// encoded length of the three signature items.
pub proof fn lemma_signed_encoding_length(tx: EVMTransaction, sig: Signature)
    requires
        list_header_len(fields_payload(tx).len()) == list_header_len(
            (fields_payload(tx) + signature_items(sig)).len(),
        ),
    ensures
        signed_encoding(tx, sig).len() == unsigned_encoding(tx).len() + signature_items(sig).len(),
{
    assert(list_header(fields_payload(tx).len()).len() == list_header_len(
        fields_payload(tx).len(),
    ));
    assert(list_header((fields_payload(tx) + signature_items(sig)).len()).len()
        == list_header_len((fields_payload(tx) + signature_items(sig)).len()));
}

/// A zero-valued integer field encodes as the empty byte string, framed as
/// the single byte 0x80, never as a zero byte.
pub proof fn lemma_zero_encodes_empty()
    ensures
        min_be_bytes(0) == Seq::<u8>::empty(),
        rlp_uint(0) =~= seq![0x80u8],
{
}

/// The string fields of a JSON transaction import, each possibly absent.
pub struct ImportFields {
    pub to: Option<String>,
    pub nonce: Option<String>,
    pub value: Option<String>,
    pub gas_limit: Option<String>,
    pub max_priority_fee_per_gas: Option<String>,
    pub max_fee_per_gas: Option<String>,
    pub chain_id: Option<String>,
    pub input: Option<String>,
}

/// The text of an optional field; absent reads as empty.
pub open spec fn str_of(o: Option<Seq<char>>) -> Seq<char> {
    match o {
        Some(s) => s,
        None => Seq::empty(),
    }
}

/// The text of an optional field, kept optional.
pub open spec fn field_view(o: Option<String>) -> Option<Seq<char>> {
    match o {
        Some(s) => Some(s@),
        None => None,
    }
}

/// The import fields at the specification level: the text of each field, or
/// None where it is absent.
#[verifier::ext_equal]
pub ghost struct ImportFieldsView {
    pub to: Option<Seq<char>>,
    pub nonce: Option<Seq<char>>,
    pub value: Option<Seq<char>>,
    pub gas_limit: Option<Seq<char>>,
    pub max_priority_fee_per_gas: Option<Seq<char>>,
    pub max_fee_per_gas: Option<Seq<char>>,
    pub chain_id: Option<Seq<char>>,
    pub input: Option<Seq<char>>,
}

/// The view of a record of imported string fields.
pub open spec fn fields_view(f: ImportFields) -> ImportFieldsView {
    ImportFieldsView {
        to: field_view(f.to),
        nonce: field_view(f.nonce),
        value: field_view(f.value),
        gas_limit: field_view(f.gas_limit),
        max_priority_fee_per_gas: field_view(f.max_priority_fee_per_gas),
        max_fee_per_gas: field_view(f.max_fee_per_gas),
        chain_id: field_view(f.chain_id),
        input: field_view(f.input),
    }
}

/// The import fields a document's string fields hold, read under the eight
/// known keys.
pub open spec fn import_fields_of(m: Map<Seq<char>, Option<Seq<char>>>) -> ImportFieldsView {
    ImportFieldsView {
        to: m["to"@],
        nonce: m["nonce"@],
        value: m["value"@],
        gas_limit: m["gasLimit"@],
        max_priority_fee_per_gas: m["maxPriorityFeePerGas"@],
        max_fee_per_gas: m["maxFeePerGas"@],
        chain_id: m["chainId"@],
        input: m["input"@],
    }
}

/// The all-zero address.
pub open spec fn zero_addr_seq() -> Seq<u8> {
    Seq::new(20, |i: int| 0u8)
}

/// The recipient an import yields: the decoded address when the field is a
/// "0x" prefix followed by forty hex digits, else the all-zero address
/// (absent and unparsable recipients read the same way).
pub open spec fn import_recipient(to: Option<Seq<char>>) -> Seq<u8> {
    match to {
        Some(s) => if has_hex_prefix(s) && address_chars_ok(s.skip(2)) {
            hex_bytes(s.skip(2))
        } else {
            zero_addr_seq()
        },
        None => zero_addr_seq(),
    }
}

/// The hex digits an import decodes into call data: the field text with an
/// optional "0x" prefix stripped; absent reads as empty.
pub open spec fn import_input_str(inp: Option<Seq<char>>) -> Seq<char> {
    match inp {
        None => Seq::empty(),
        Some(s) => if has_hex_prefix(s) {
            s.skip(2)
        } else {
            s
        },
    }
}

/// What an import of these fields yields: the first failure in field order,
/// or success.  The required numeric fields are nonce, value, gasLimit,
/// maxPriorityFeePerGas, maxFeePerGas and chainId; input and to have
/// defaults.
pub open spec fn import_outcome(fv: ImportFieldsView) -> Result<(), TxError> {
    match fv.nonce {
        None => Err(TxError::MalformedImport(Field::Nonce)),
        Some(nonce) => if !numeric_ok(nonce, u64::MAX as nat) {
            Err(TxError::ParseError)
        } else {
            match fv.value {
                None => Err(TxError::MalformedImport(Field::Value)),
                Some(value) => if !numeric_ok(value, u128::MAX as nat) {
                    Err(TxError::ParseError)
                } else {
                    match fv.gas_limit {
                        None => Err(TxError::MalformedImport(Field::GasLimit)),
                        Some(gas_limit) => if !numeric_ok(gas_limit, u128::MAX as nat) {
                            Err(TxError::ParseError)
                        } else {
                            match fv.max_priority_fee_per_gas {
                                None => Err(TxError::MalformedImport(Field::MaxPriorityFeePerGas)),
                                Some(prio) => if !numeric_ok(prio, u128::MAX as nat) {
                                    Err(TxError::ParseError)
                                } else {
                                    match fv.max_fee_per_gas {
                                        None => Err(TxError::MalformedImport(Field::MaxFeePerGas)),
                                        Some(max_fee) => if !numeric_ok(max_fee, u128::MAX as nat) {
                                            Err(TxError::ParseError)
                                        } else {
                                            match fv.chain_id {
                                                None => Err(TxError::MalformedImport(Field::ChainId)),
                                                Some(chain_id) => if !numeric_ok(chain_id, u64::MAX as nat) {
                                                    Err(TxError::ParseError)
                                                } else if !hex_pairs_ok(import_input_str(fv.input)) {
                                                    Err(TxError::InvalidHex)
                                                } else {
                                                    Ok(())
                                                },
                                            }
                                        },
                                    }
                                },
                            }
                        },
                    }
                },
            }
        },
    }
}

/// An import never reports a JSON syntax failure: that is the parser's own.
proof fn lemma_import_outcome_not_json(fv: ImportFieldsView)
    ensures
        import_outcome(fv) != Err::<(), TxError>(TxError::InvalidJson),
{
}

/// The all-zero address.
fn zero_address() -> (a: Address)
    ensures
        a@ == zero_addr_seq(),
{
    let a = [0u8; 20];
    proof {
        assert(a@ =~= zero_addr_seq());
    }
    a
}

/// The recipient of an import, per the documented defaulting quirk.
fn import_to(to: &Option<String>) -> (a: Address)
    ensures
        a@ == import_recipient(field_view(*to)),
{
    match to {
        Some(s) => {
            let st = s.as_str();
            let n = st.unicode_len();
            let prefixed = if n >= 2 {
                let c0 = st.get_char(0);
                let c1 = st.get_char(1);
                c0 == '0' && c1 == 'x'
            } else {
                false
            };
            if prefixed {
                let rest = st.substring_char(2, n);
                match parse_eth_address(rest) {
                    Some(a) => a,
                    None => zero_address(),
                }
            } else {
                zero_address()
            }
        },
        None => zero_address(),
    }
}

/// The call data of an import: the field's hex digits decoded after an
/// optional "0x" prefix; absent reads as empty.
fn import_input(inp: &Option<String>) -> (r: Result<Vec<u8>, TxError>)
    ensures
        hex_pairs_ok(import_input_str(field_view(*inp))) ==> (r matches Ok(v) && v@ == hex_bytes(
            import_input_str(field_view(*inp)),
        )),
        !hex_pairs_ok(import_input_str(field_view(*inp))) ==> r == Err::<Vec<u8>, TxError>(
            TxError::InvalidHex,
        ),
{
    match inp {
        None => {
            let v: Vec<u8> = Vec::new();
            proof {
                assert(hex_bytes(Seq::<char>::empty()) =~= Seq::<u8>::empty());
            }
            Ok(v)
        },
        Some(s) => {
            let st = s.as_str();
            let n = st.unicode_len();
            let prefixed = if n >= 2 {
                let c0 = st.get_char(0);
                let c1 = st.get_char(1);
                c0 == '0' && c1 == 'x'
            } else {
                false
            };
            if prefixed {
                decode_hex(st.substring_char(2, n))
            } else {
                decode_hex(st)
            }
        },
    }
}

/// How an import result must relate to its fields: on the outcome's failure,
/// that error verbatim; on success, a transaction whose every field the
/// texts determine.
pub open spec fn import_matches(fv: ImportFieldsView, r: Result<EVMTransaction, TxError>) -> bool {
    &&& (import_outcome(fv) matches Err(e) ==> r == Err::<EVMTransaction, TxError>(e))
    &&& (import_outcome(fv) is Ok ==> (r matches Ok(tx) && {
        &&& tx.nonce as nat == numeric_value(str_of(fv.nonce))
        &&& tx.value as nat == numeric_value(str_of(fv.value))
        &&& tx.gas_limit as nat == numeric_value(str_of(fv.gas_limit))
        &&& tx.max_priority_fee_per_gas as nat == numeric_value(
            str_of(fv.max_priority_fee_per_gas),
        )
        &&& tx.max_fee_per_gas as nat == numeric_value(str_of(fv.max_fee_per_gas))
        &&& tx.chain_id as nat == numeric_value(str_of(fv.chain_id))
        &&& tx.to matches Some(a) && a@ == import_recipient(fv.to)
        &&& tx.input@ == hex_bytes(import_input_str(fv.input))
        &&& tx.access_list@ =~= Seq::<(Address, Vec<[u8; 32]>)>::empty()
    }))
}

impl EVMTransaction {
    /// Builds a transaction from imported string fields: the first missing or
    /// malformed required field fails the whole import; the recipient and the
    /// call data fall back to their documented defaults; the access list of
    /// an import is always empty.
    pub fn from_fields(f: ImportFields) -> (r: Result<EVMTransaction, TxError>)
        ensures
            import_matches(fields_view(f), r),
    {
        let nonce = match &f.nonce {
            Some(s) => match parse_u64(s.as_str()) {
                Ok(v) => v,
                Err(_) => {
                    return Err(TxError::ParseError);
                },
            },
            None => {
                return Err(TxError::MalformedImport(Field::Nonce));
            },
        };
        let value = match &f.value {
            Some(s) => match parse_u128(s.as_str()) {
                Ok(v) => v,
                Err(_) => {
                    return Err(TxError::ParseError);
                },
            },
            None => {
                return Err(TxError::MalformedImport(Field::Value));
            },
        };
        let gas_limit = match &f.gas_limit {
            Some(s) => match parse_u128(s.as_str()) {
                Ok(v) => v,
                Err(_) => {
                    return Err(TxError::ParseError);
                },
            },
            None => {
                return Err(TxError::MalformedImport(Field::GasLimit));
            },
        };
        let max_priority_fee_per_gas = match &f.max_priority_fee_per_gas {
            Some(s) => match parse_u128(s.as_str()) {
                Ok(v) => v,
                Err(_) => {
                    return Err(TxError::ParseError);
                },
            },
            None => {
                return Err(TxError::MalformedImport(Field::MaxPriorityFeePerGas));
            },
        };
        let max_fee_per_gas = match &f.max_fee_per_gas {
            Some(s) => match parse_u128(s.as_str()) {
                Ok(v) => v,
                Err(_) => {
                    return Err(TxError::ParseError);
                },
            },
            None => {
                return Err(TxError::MalformedImport(Field::MaxFeePerGas));
            },
        };
        let chain_id = match &f.chain_id {
            Some(s) => match parse_u64(s.as_str()) {
                Ok(v) => v,
                Err(_) => {
                    return Err(TxError::ParseError);
                },
            },
            None => {
                return Err(TxError::MalformedImport(Field::ChainId));
            },
        };
        let to_addr = import_to(&f.to);
        let input = match import_input(&f.input) {
            Ok(v) => v,
            Err(e) => {
                return Err(e);
            },
        };
        Ok(
            EVMTransaction {
                chain_id,
                nonce,
                to: Some(to_addr),
                value,
                input,
                gas_limit,
                max_fee_per_gas,
                max_priority_fee_per_gas,
                access_list: Vec::new(),
            },
        )
    }

    /// Builds a transaction from a JSON document with the field names
    /// to, nonce, value, gasLimit, maxPriorityFeePerGas, maxFeePerGas,
    /// chainId and input, all strings.  On well-formed input the result is
    /// exactly what importing the document's string fields under those keys
    /// yields.  Access-list import is unsupported: an imported transaction
    /// always carries an empty access list.
    pub fn from_json(json: &str) -> (r: Result<EVMTransaction, TxError>)
        ensures
            r == Err::<EVMTransaction, TxError>(TxError::InvalidJson) <==> !json_wf(json@),
            json_wf(json@) ==> import_matches(import_fields_of(parsed_str_fields(json@)), r),
    {
        let doc = match parse_json_doc(json) {
            Ok(v) => v,
            Err(_) => {
                return Err(TxError::InvalidJson);
            },
        };
        let f = ImportFields {
            to: json_str_field(&doc, "to"),
            nonce: json_str_field(&doc, "nonce"),
            value: json_str_field(&doc, "value"),
            gas_limit: json_str_field(&doc, "gasLimit"),
            max_priority_fee_per_gas: json_str_field(&doc, "maxPriorityFeePerGas"),
            max_fee_per_gas: json_str_field(&doc, "maxFeePerGas"),
            chain_id: json_str_field(&doc, "chainId"),
            input: json_str_field(&doc, "input"),
        };
        proof {
            lemma_import_outcome_not_json(fields_view(f));
            assert(doc_str_fields(doc) == parsed_str_fields(json@));
            assert(fields_view(f) =~= import_fields_of(parsed_str_fields(json@)));
        }
        EVMTransaction::from_fields(f)
    }
}

} // verus!
