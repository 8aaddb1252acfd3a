use vstd::prelude::*;
use crate::types::{AccessList, Address, TxError, Field};
use crate::evm_transaction::{EVMTransaction, access_list_view};
use crate::transaction_builder::TxBuilder;

verus! {

/// A mutable accumulator for transaction fields: each setter returns the
/// builder, so fields can be set in any order, any subset, any number of
/// times, the last write winning.  Only `build` checks which fields are
/// mandatory.
pub struct EVMTransactionBuilder {
    pub chain_id: Option<u64>,
    pub nonce: Option<u64>,
    pub to: Option<Address>,
    pub value: Option<u128>,
    pub input: Option<Vec<u8>>,
    pub gas_limit: Option<u128>,
    pub max_fee_per_gas: Option<u128>,
    pub max_priority_fee_per_gas: Option<u128>,
    pub access_list: Option<AccessList>,
}

/// A byte-for-byte copy of a byte buffer.
fn clone_bytes(v: &Vec<u8>) -> (r: Vec<u8>)
    ensures
        r@ == v@,
{
    let mut r: Vec<u8> = Vec::new();
    let mut i: usize = 0;
    while i < v.len()
        invariant
            i <= v@.len(),
            r@ == v@.subrange(0, i as int),
        decreases v@.len() - i,
    {
        r.push(v[i]);
        proof {
            assert(v@.subrange(0, i + 1) =~= v@.subrange(0, i as int).push(v@[i as int]));
        }
        i = i + 1;
    }
    proof {
        assert(v@.subrange(0, v@.len() as int) =~= v@);
    }
    r
}

/// A key-for-key copy of a storage-key list.
fn clone_keys(v: &Vec<[u8; 32]>) -> (r: Vec<[u8; 32]>)
    ensures
        r@ == v@,
{
    let mut r: Vec<[u8; 32]> = Vec::new();
    let mut i: usize = 0;
    while i < v.len()
        invariant
            i <= v@.len(),
            r@ == v@.subrange(0, i as int),
        decreases v@.len() - i,
    {
        r.push(v[i]);
        proof {
            assert(v@.subrange(0, i + 1) =~= v@.subrange(0, i as int).push(v@[i as int]));
        }
        i = i + 1;
    }
    proof {
        assert(v@.subrange(0, v@.len() as int) =~= v@);
    }
    r
}

/// An entry-for-entry copy of an access list, entry and key order kept.
fn clone_access_list(v: &AccessList) -> (r: AccessList)
    ensures
        access_list_view(r@) == access_list_view(v@),
{
    let mut r: AccessList = Vec::new();
    let mut i: usize = 0;
    while i < v.len()
        invariant
            i <= v@.len(),
            r@.len() == i,
            forall|j: int|
                0 <= j < i ==> #[trigger] r@[j].0 == v@[j].0 && r@[j].1@ == v@[j].1@,
        decreases v@.len() - i,
    {
        let entry = &v[i];
        let keys = clone_keys(&entry.1);
        r.push((entry.0, keys));
        i = i + 1;
    }
    proof {
        assert(access_list_view(r@) =~= access_list_view(v@));
    }
    r
}

impl EVMTransactionBuilder {
    /// A builder with no field set.
    pub fn new() -> (r: Self)
        ensures
            r == (EVMTransactionBuilder {
                chain_id: None,
                nonce: None,
                to: None,
                value: None,
                input: None,
                gas_limit: None,
                max_fee_per_gas: None,
                max_priority_fee_per_gas: None,
                access_list: None,
            }),
    {
        EVMTransactionBuilder {
            chain_id: None,
            nonce: None,
            to: None,
            value: None,
            input: None,
            gas_limit: None,
            max_fee_per_gas: None,
            max_priority_fee_per_gas: None,
            access_list: None,
        }
    }

    /// Chain ID of the transaction.
    pub fn chain_id(self, chain_id: u64) -> (r: Self)
        ensures
            r == (EVMTransactionBuilder { chain_id: Some(chain_id), ..self }),
    {
        EVMTransactionBuilder { chain_id: Some(chain_id), ..self }
    }

    /// Nonce of the transaction.
    pub fn nonce(self, nonce: u64) -> (r: Self)
        ensures
            r == (EVMTransactionBuilder { nonce: Some(nonce), ..self }),
    {
        EVMTransactionBuilder { nonce: Some(nonce), ..self }
    }

    /// Address of the recipient.
    pub fn to(self, to: Address) -> (r: Self)
        ensures
            r == (EVMTransactionBuilder { to: Some(to), ..self }),
    {
        EVMTransactionBuilder { to: Some(to), ..self }
    }

    /// Value attached to the transaction.
    pub fn value(self, value: u128) -> (r: Self)
        ensures
            r == (EVMTransactionBuilder { value: Some(value), ..self }),
    {
        EVMTransactionBuilder { value: Some(value), ..self }
    }

    /// Input data of the transaction.
    pub fn input(self, input: Vec<u8>) -> (r: Self)
        ensures
            r == (EVMTransactionBuilder { input: Some(input), ..self }),
    {
        EVMTransactionBuilder { input: Some(input), ..self }
    }

    /// Gas limit of the transaction.
    pub fn gas_limit(self, gas_limit: u128) -> (r: Self)
        ensures
            r == (EVMTransactionBuilder { gas_limit: Some(gas_limit), ..self }),
    {
        EVMTransactionBuilder { gas_limit: Some(gas_limit), ..self }
    }

    /// Maximum fee per gas of the transaction.
    pub fn max_fee_per_gas(self, max_fee_per_gas: u128) -> (r: Self)
        ensures
            r == (EVMTransactionBuilder { max_fee_per_gas: Some(max_fee_per_gas), ..self }),
    {
        EVMTransactionBuilder { max_fee_per_gas: Some(max_fee_per_gas), ..self }
    }

    /// Maximum priority fee per gas of the transaction.
    pub fn max_priority_fee_per_gas(self, max_priority_fee_per_gas: u128) -> (r: Self)
        ensures
            r == (EVMTransactionBuilder {
                max_priority_fee_per_gas: Some(max_priority_fee_per_gas),
                ..self
            }),
    {
        EVMTransactionBuilder { max_priority_fee_per_gas: Some(max_priority_fee_per_gas), ..self }
    }

    /// Access list of the transaction.
    pub fn access_list(self, access_list: AccessList) -> (r: Self)
        ensures
            r == (EVMTransactionBuilder { access_list: Some(access_list), ..self }),
    {
        EVMTransactionBuilder { access_list: Some(access_list), ..self }
    }

    /// Validates that chain_id, nonce, gas_limit and max_fee_per_gas were
    /// set and yields a new immutable transaction; every other field falls
    /// back to its default.  The builder stays usable, and transactions
    /// already built are independent copies.
    pub fn build(&self) -> (r: Result<EVMTransaction, TxError>)
        ensures
            self.chain_id is None ==> r == Err::<EVMTransaction, TxError>(
                TxError::MandatoryFieldMissing(Field::ChainId),
            ),
            self.chain_id is Some && self.nonce is None ==> r == Err::<EVMTransaction, TxError>(
                TxError::MandatoryFieldMissing(Field::Nonce),
            ),
            self.chain_id is Some && self.nonce is Some && self.gas_limit is None ==> r == Err::<
                EVMTransaction,
                TxError,
            >(TxError::MandatoryFieldMissing(Field::GasLimit)),
            self.chain_id is Some && self.nonce is Some && self.gas_limit is Some
                && self.max_fee_per_gas is None ==> r == Err::<EVMTransaction, TxError>(
                TxError::MandatoryFieldMissing(Field::MaxFeePerGas),
            ),
            (self.chain_id is Some && self.nonce is Some && self.gas_limit is Some
                && self.max_fee_per_gas is Some) ==> (r matches Ok(tx) && {
                &&& tx.chain_id == self.chain_id->0
                &&& tx.nonce == self.nonce->0
                &&& tx.gas_limit == self.gas_limit->0
                &&& tx.max_fee_per_gas == self.max_fee_per_gas->0
                &&& tx.to == self.to
                &&& tx.value == (match self.value {
                    Some(v) => v,
                    None => 0,
                })
                &&& tx.max_priority_fee_per_gas == (match self.max_priority_fee_per_gas {
                    Some(v) => v,
                    None => 0,
                })
                &&& tx.input@ == (match self.input {
                    Some(inp) => inp@,
                    None => Seq::<u8>::empty(),
                })
                &&& access_list_view(tx.access_list@) == (match self.access_list {
                    Some(al) => access_list_view(al@),
                    None => Seq::<(Seq<u8>, Seq<Seq<u8>>)>::empty(),
                })
            }),
    {
        let chain_id = match &self.chain_id {
            Some(v) => *v,
            None => {
                return Err(TxError::MandatoryFieldMissing(Field::ChainId));
            },
        };
        let nonce = match &self.nonce {
            Some(v) => *v,
            None => {
                return Err(TxError::MandatoryFieldMissing(Field::Nonce));
            },
        };
        let gas_limit = match &self.gas_limit {
            Some(v) => *v,
            None => {
                return Err(TxError::MandatoryFieldMissing(Field::GasLimit));
            },
        };
        let max_fee_per_gas = match &self.max_fee_per_gas {
            Some(v) => *v,
            None => {
                return Err(TxError::MandatoryFieldMissing(Field::MaxFeePerGas));
            },
        };
        let value = match &self.value {
            Some(v) => *v,
            None => 0,
        };
        let max_priority_fee_per_gas = match &self.max_priority_fee_per_gas {
            Some(v) => *v,
            None => 0,
        };
        let input = match &self.input {
            Some(inp) => clone_bytes(inp),
            None => Vec::new(),
        };
        let access_list = match &self.access_list {
            Some(al) => clone_access_list(al),
            None => Vec::new(),
        };
        proof {
            if self.access_list is None {
                assert(access_list_view(Seq::<(Address, Vec<[u8; 32]>)>::empty()) =~= Seq::<
                    (Seq<u8>, Seq<Seq<u8>>),
                >::empty());
            }
        }
        Ok(
            EVMTransaction {
                chain_id,
                nonce,
                to: self.to,
                value,
                input,
                gas_limit,
                max_fee_per_gas,
                max_priority_fee_per_gas,
                access_list,
            },
        )
    }
}

impl Default for EVMTransactionBuilder {
    /// A builder with no field set.
    fn default() -> (r: Self)
        ensures
            r == (EVMTransactionBuilder {
                chain_id: None,
                nonce: None,
                to: None,
                value: None,
                input: None,
                gas_limit: None,
                max_fee_per_gas: None,
                max_priority_fee_per_gas: None,
                access_list: None,
            }),
    {
        EVMTransactionBuilder::new()
    }
}

impl TxBuilder<Result<EVMTransaction, TxError>> for EVMTransactionBuilder {
    fn build(&self) -> Result<EVMTransaction, TxError> {
        EVMTransactionBuilder::build(self)
    }
}

} // verus!
