//! A verified two-phase wagering service.
//!
//! A user pays a fee to register a bet tied to a future round of an external
//! randomness oracle; once the randomness for that round is published, the
//! bet can be resolved exactly once, paying a reward to its owner if a fixed,
//! auditable predicate of the randomness holds.
//!
//! The crate is split along the boundaries of the system:
//! - [`settlement`]: the ledger that debits fees and credits rewards;
//! - [`oracle`]: the randomness source, advancing round by round;
//! - [`bets`]: the bet ledger itself, with its register / resolve lifecycle;
//! - [`laws`]: proofs of the global guarantees — fresh ids, no entry on a
//!   failed fee, harmless early resolution, a single successful resolution.

pub mod bets;
pub mod laws;
pub mod oracle;
pub mod settlement;

pub use crate::bets::BetDetails;
pub use crate::bets::BetId;
pub use crate::bets::Casino;
pub use crate::bets::CasinoView;
pub use crate::bets::Error;
pub use crate::bets::ROUND_OFFSET;
pub use crate::bets::VICTORY_THRESHOLD;

pub use crate::oracle::Oracle;
pub use crate::oracle::OracleView;
pub use crate::oracle::Round;

pub use crate::settlement::Balance;
pub use crate::settlement::SettlementLedger;
pub use crate::settlement::TransferError;
pub use crate::settlement::User;
