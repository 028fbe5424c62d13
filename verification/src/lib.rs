//! The decisions of a relayer between Axelar and Solana and of the command line of its workspace.
//!
//! Nothing here waits, sends or stores: each function takes what has happened and says what is to
//! be done next. The loops that wait and act stand outside.
pub mod cancellation;
pub mod channel;
pub mod cli;
pub mod config;
pub mod encoding;
pub mod encoding_laws;
pub mod keys;
pub mod message;
pub mod outside;
pub mod relayer;
pub mod sentinel;
pub mod transports;
pub mod view_laws;
pub mod worker;
pub mod worker_laws;
