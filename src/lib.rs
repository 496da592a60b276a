//! Derivation of the initial client state and consensus state that a
//! Tendermint light client needs when it is installed on a counterparty.

pub mod chain_id;
pub mod client_state;
pub mod consensus_state;
pub mod duration;
pub mod error;
pub mod height;
pub mod module;
pub mod unbonding;
