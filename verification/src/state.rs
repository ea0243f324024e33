pub mod multisig;
pub mod transaction;
