//! Escrow payments between a payer and a payee: deterministic derivation of
//! the escrow account, the signer registry, and the open / release protocol.

pub mod types;
pub mod derive;
pub mod store;

pub use types::{
    AccountId, AccountSigners, Balance, BlockNumber, CallExecuted, Confirm, EscrowError, H256,
    PayeeReason, Resolver, ResolverChoice, RevertReasons, TransferError,
};
pub use derive::{derivation_input, derive_multi_id};
pub use store::{
    ids_equal, EscrowStore, Event, ExistenceRequirement, TransferAmount, TransferRequest,
};
