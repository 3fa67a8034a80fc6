//! The decision logic of a family of Dharitri smart contracts, with its
//! contracts and laws proved by Verus.

pub mod amount;
pub mod collections;
pub mod deposit_info;
pub mod exchange_actions;
pub mod initial_launch;
pub mod multisig_propose;
pub mod on_chain_claim;
pub mod pair_mock;
pub mod payment;
pub mod paymaster;
pub mod proxy_deployer;
pub mod token_identifier;
