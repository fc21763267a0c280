//! The ticket hub: a contract that sells event tickets as NFTs minted by a
//! companion ticket contract, and checks tickets in when their holder sends
//! them back to be burnt.
//!
//! The library holds the hub's decisions over a plain model of its storage
//! (`state::HubState`) and of the messages it sends (`response`); the host
//! that runs the contract moves values between the chain and this model.

pub mod contract;
pub mod error;
pub mod laws;
pub mod msg;
mod outside;
pub mod response;
pub mod state;
pub mod text;
pub mod utils;

pub use crate::error::ContractError;
