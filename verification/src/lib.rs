//! Ledger-resident engine for optional modules (staking, trading, voting)
//! scoped to a registered asset collection.
//!
//! Each operation runs as one atomic unit: it validates its preconditions
//! against a snapshot of the records it touches, then either mutates exactly
//! one module's state record and reports the custody transfers to perform, or
//! fails with a tagged error and no state change.  Custody of actual value
//! (asset transfer, reward minting, escrow ownership, account closing) is the
//! job of an external custody service; the engine only decides which custody
//! operations are due and emits them as plain [`account::CustodyOp`] values.
//! Likewise the clock, signature checks, and deterministic record-address
//! derivation are external: callers hand in the current time, the resolved
//! addresses, and plain-value attestations about ledger accounts.

pub mod account;
pub mod collection;
pub mod errors;
pub mod identity;
pub mod proposal;
pub mod stake;
pub mod trade;
pub mod validate;
