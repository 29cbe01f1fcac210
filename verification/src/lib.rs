//! A deterministic duel between two small tape-machine programs.
//!
//! Two bots share one bounded tape of signed, wrapping 8-bit counters whose
//! outermost cells are "flag" cells. Each tick both bots execute one
//! instruction against the same pre-tick view of the tape; their writes are
//! collected and applied only afterwards, so neither bot ever observes the
//! other's same-tick write. A bot loses when it walks off the tape or when its
//! flag cell stays at exactly zero across a full tick. The round ends when a
//! loss condition holds, when the step budget runs out, or when both programs
//! have ended.
//!
//! The engine lives in [`arena`]; [`bot`] holds the program representation,
//! [`bot_in_play`] the per-contestant interpreter state, and [`round`] the
//! plain configuration and verdict records.

pub mod arena;
pub mod bot;
pub mod bot_in_play;
pub mod round;
