//! A minting engine for a single class of unique digital collectibles.
//!
//! The library owns the contract's persistent state: the configuration laid
//! down at initialization, the issuance lifecycle of the token class, and the
//! running mint counter. Every operation is a total function from the current
//! state (plus the plain values the host hands in: attached payment, block
//! timestamp, account balance) to the next state and the actions the host
//! must carry out (value transfers, requests to the issuing authority).
//! The host performs those actions; the decisions are all made, and verified,
//! here.

pub mod encoding;
pub mod errors;
pub mod hashing;
pub mod manager;
pub mod token;

pub use manager::{
    ContractState, IssueRequest, IssueResult, NftManager, Payment, Recipient, SetRolesRequest,
    TokenProperties, UnitCreation,
};
