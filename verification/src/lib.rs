//! An embeddable admission-control primitive.
//!
//! Given a configured rate (a burst capacity and a steady replenishment
//! interval), the library decides, for each arriving request (optionally
//! identified by a key), whether to admit it now or report the earliest
//! instant at which it could be admitted.  The decision engine is the
//! Generic Cell Rate Algorithm (GCRA) operating on a single cell state,
//! generalized to one global cell ("direct") or a family of per-key cells
//! ("keyed") with bounded-memory cleanup of idle keys.
//!
//! All time arithmetic is carried out on unsigned 64-bit nanosecond counts
//! relative to an injectable monotonic clock, so the engine is
//! deterministically testable and free of floating-point drift.

pub mod clock;
pub mod direct;
pub mod gcra;
pub mod jitter;
pub mod keyed;
pub mod outcome;
pub mod quota;
pub mod sink_gate;
