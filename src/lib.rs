//! Sender side of a statechain coin transfer: extending the chain of backup
//! transactions, the owner-to-owner transfer signature, the key tweak handed to
//! the new owner, and the transport form of the transfer message.

pub mod error;
pub mod hex_codec;
pub mod keys;
pub mod tweak;
pub mod signature;
pub mod chain;
pub mod extend;
pub mod message;
pub mod flow;
