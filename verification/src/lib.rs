//! A verified model of a short, strictly ordered chain of dependent calls
//! between services, where one branch point conditionally schedules a
//! value transfer based on a numeric predicate evaluated on an untrusted
//! payload.
//!
//! The library holds the pure decision logic: decoding and validating
//! untrusted byte payloads, the parity predicate, the access guard for
//! self-only continuation entrypoints, and the construction of ordered
//! call plans. Executing a plan against a real runtime (performing the
//! scheduled calls and handing the resolved results back in) is left to
//! the surrounding, unverified program.

pub mod account;
pub mod args;
pub mod chain;
pub mod decode;
pub mod error;
pub mod workflow;
