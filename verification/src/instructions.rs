pub mod cast_vote;
pub mod create_multisig;
pub mod execute_transaction;
pub mod propose_transaction;
