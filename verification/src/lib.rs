//! On-ledger minting of a one-of-one token: deterministic program-derived
//! addresses, a two-variant wire codec, call-descriptor builders, and the
//! orchestration pipeline that plans the cross-program calls for a mint.

pub mod address;
pub mod errors;
pub mod instructions;
pub mod pda;
pub mod processor;
pub mod utf8;
