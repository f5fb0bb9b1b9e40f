//! A minimal vault module: it holds native-token funds under a single owner
//! address, lets the owner withdraw them, and lets any caller forward an
//! amount into an external swap venue. The host chain invokes the entry
//! points, persists the configuration record, and executes the outbound
//! instructions that the functions here return.

pub mod contract;
pub mod error;
pub mod msg;
pub mod state;
