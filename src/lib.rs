//! Transaction hash and execution form of a Starknet version-3 invoke
//! transaction.

mod felt;
pub mod laws;
mod transaction;

pub use felt::{Error, Felt};
pub use transaction::{
    BroadcastedInvokeTransactionV3, BroadcastedTransactionCommonV3, ContractAddress,
    DataAvailabilityMode, InvokeTransaction, InvokeTransactionV3, ResourceBounds,
    ResourceBoundsMapping,
};

