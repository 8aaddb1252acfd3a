pub mod types;
pub mod rlp;
pub mod parse;
pub mod evm_transaction;
pub mod evm_transaction_builder;
pub mod transaction_builder;
pub mod json;
