//! An atomic two-party asset swap, held in escrow by a program-controlled
//! address: the instruction codec, the stored record and the processor that
//! decides what the ledger is asked to do.

pub mod bytes;
pub mod error;
pub mod instruction;
pub mod state;
pub mod account;
pub mod ledger;
pub mod processor;
pub mod lifecycle;
pub mod transfer;
