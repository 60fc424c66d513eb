//! Core of a black-box prober for the limits of a tagged, line-oriented
//! request/response protocol: a bisection searcher over a `u64` domain,
//! the per-probe stimulus and response-classification rules, and the
//! exhaustive tag-character sweep. All network I/O lives outside this
//! library; callers hand events in as plain values and perform the
//! actions the session state machine asks for.

pub mod bisect;
pub mod driver;
pub mod probe;
pub mod sweep;
