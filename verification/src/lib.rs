//! A multisignature governance engine.
//!
//! A registry records a group of member identities and a quorum threshold.
//! Members propose transactions (ordered batches of actions), vote on them,
//! and, once the quorum is reached, execute them. Execution applies
//! self-administration actions (add member, remove member, set threshold) to
//! the registry in order and hands the external-call instructions back to the
//! caller for dispatch. Every operation is a total function over plain
//! values; durable storage, funding, and the actual dispatch of external
//! calls belong to the surrounding host.

pub mod error;
pub mod instructions;
pub mod pubkey;
pub mod state;

pub use error::MultisigError;
pub use instructions::cast_vote::cast_vote;
pub use instructions::create_multisig::create_multisig;
pub use instructions::execute_transaction::execute_transaction;
pub use instructions::propose_transaction::propose_transaction;
pub use pubkey::Pubkey;
pub use state::multisig::Multisig;
pub use state::transaction::AccountMeta;
pub use state::transaction::Instruction;
pub use state::transaction::MultisigAction;
pub use state::transaction::Transaction;
pub use state::transaction::TransactionType;
