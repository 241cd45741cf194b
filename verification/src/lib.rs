//! A custodial staking ledger.
//!
//! The ledger accepts value deposits from principals, tracks a per-principal
//! balance, and releases a principal's full balance back to them only after a
//! globally configured deadline has elapsed. The host environment supplies the
//! clock, the caller identity, the attached value and the custody-transfer
//! primitive; each operation here takes those as plain values and returns the
//! event to emit, so the whole state machine is verified.

pub mod laws;
pub mod ledger;
