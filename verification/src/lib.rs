//! A verified supervisor for a single long-lived backend server process.
//!
//! The supervisor owns at most one child-process handle, answers status
//! queries from fixed configuration, decides when a `start` must spawn and
//! when it may report an already-running server, budgets the readiness
//! probes that follow a spawn, and guarantees that `stop` and teardown hand
//! the tracked handle to exactly one caller.  The host program performs the
//! spawning, probing and killing; every decision it acts on is made here.

pub mod container;
pub mod http;
pub mod supervisor;
pub mod text;
pub mod users;
pub mod util;
