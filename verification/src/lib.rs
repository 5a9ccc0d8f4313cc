//! A model of a single-instruction value-transfer program: an authorization
//! context of host-managed account references, a declarative pre-invocation
//! gate over capability flags, and a handler that delegates one balance
//! transfer to the native system-level primitive.

mod context;
mod transfer;

pub use context::AccountConstraint;
pub use context::AccountState;
pub use context::TransferSol;
pub use context::SYSTEM_PROGRAM_ID;
pub use context::receiver_constraint;
pub use context::sender_constraint;
pub use transfer::TransferError;
pub use transfer::invoke_transfer_sol;
pub use transfer::lemma_sequential_transfers_accumulate;
pub use transfer::lemma_transfer_conserves_supply;
pub use transfer::native_transfer;
pub use transfer::transfer_sol;
