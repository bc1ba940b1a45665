//! Issues a collection anchor NFT and mints compressed members into it.
//!
//! The library holds the decisions of the on-chain program: how program-owned
//! addresses are derived, how the configuration record is laid out in its
//! storage, and which external calls each instruction asks for, with which
//! arguments and signer seeds.
pub mod address;
pub mod error;
pub mod instructions;
pub mod states;
