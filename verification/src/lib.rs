//! A user-space TCP endpoint core: wraparound-safe sequence-number
//! arithmetic, per-connection state machine, segment acceptance rules and
//! the decision logic for which control segments to emit.
pub mod codec;
pub mod conn;
pub mod laws;
pub mod segment;
pub mod seqspace;
