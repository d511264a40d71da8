//! Accounting and authorization core of a single-pool token-staking program.
//!
//! The library tracks how many tokens each participant has deposited into a
//! custodial vault and enforces that only the pool logic — never an individual
//! key — can move funds out of that vault.  The on-chain runtime, the token
//! program's instruction plumbing and all I/O live outside this crate; the
//! state machine itself (account lifecycle, balance mutation, the checks that
//! guard every operation, and the invariant tying the pool's aggregate to the
//! vault's custody balance) is verified here.

pub mod accounts;
pub mod errors;
pub mod key;
pub mod pda;
pub mod state;
