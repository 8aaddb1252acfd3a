use vstd::prelude::*;

verus! {

/// A 20-byte account address, held as raw bytes; no checksum formatting is
/// validated at this layer.
pub type Address = [u8; 20];

/// An ordered access list: each entry pairs an address with an ordered
/// sequence of 32-byte storage keys.  Entry order and key order are part of
/// the canonical encoding.
pub type AccessList = Vec<(Address, Vec<[u8; 32]>)>;

/// A signature supplied by an external signer: `v` is the recovery/parity
/// indicator, `r` and `s` are big-endian unsigned integers of no fixed width.
/// This library never computes a signature; it only serializes one.
#[derive(Debug)]
pub struct Signature {
    pub v: u64,
    pub r: Vec<u8>,
    pub s: Vec<u8>,
}

/// A transaction field, used by errors to say which field was missing.
#[derive(Debug, Clone, Copy, PartialEq, Eq, Structural)]
pub enum Field {
    ChainId,
    Nonce,
    GasLimit,
    MaxFeePerGas,
    Value,
    MaxPriorityFeePerGas,
}

impl Field {
    /// The field's name as the builder API spells it.
    pub fn name(&self) -> (r: &'static str)
        ensures
            *self == Field::ChainId ==> r@ == "chain_id"@,
            *self == Field::Nonce ==> r@ == "nonce"@,
            *self == Field::GasLimit ==> r@ == "gas_limit"@,
            *self == Field::MaxFeePerGas ==> r@ == "max_fee_per_gas"@,
            *self == Field::Value ==> r@ == "value"@,
            *self == Field::MaxPriorityFeePerGas ==> r@ == "max_priority_fee_per_gas"@,
    {
        match self {
            Field::ChainId => "chain_id",
            Field::Nonce => "nonce",
            Field::GasLimit => "gas_limit",
            Field::MaxFeePerGas => "max_fee_per_gas",
            Field::Value => "value",
            Field::MaxPriorityFeePerGas => "max_priority_fee_per_gas",
        }
    }
}

/// Everything that can go wrong while building or importing a transaction.
#[derive(Debug, Clone, Copy, PartialEq, Eq, Structural)]
pub enum TxError {
    /// `build` was invoked without one of the mandatory fields set.
    MandatoryFieldMissing(Field),
    /// A numeric token is not valid decimal/hex for its target width, or
    /// overflows it.
    ParseError,
    /// A hex byte-buffer token has odd length or a non-hex character.
    InvalidHex,
    /// A required import field is absent.
    MalformedImport(Field),
    /// The import text is not a well-formed JSON document.
    InvalidJson,
}

} // verus!
