//! A verified core for a zkVM block-execution proving pipeline.
//!
//! The library has two halves. The guest half ([`guest`]) is the logic of the
//! program that runs inside the zero-knowledge virtual machine: it decodes one
//! binary input frame ([`codec`]), obtains a block header from the external
//! block executor, and commits the header's Keccak-256 digest ([`digest`]) as
//! the single public output. The host half ([`session`]) is a forward-only
//! stage machine (load, setup, execute, prove, verify) that drives a proving
//! backend ([`backend`]) and propagates every failure ([`errors`]) to the
//! caller without retrying.

pub mod backend;
pub mod codec;
pub mod digest;
pub mod errors;
pub mod guest;
pub mod session;
