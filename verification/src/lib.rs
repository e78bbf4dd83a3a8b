//! Detection of an attached debugger from inside the watched process.
//!
//! The crate holds the decision logic of a family of independent probes:
//! interpretation of the process environment block and heap control block,
//! typed process-information query verdicts, hardware breakpoint registers,
//! and a cross-process handle-table correlation around a planted idle
//! thread.  Every probe works on plain values that the embedding binary
//! reads from the operating system; the OS calls themselves stay outside
//! the verified core.

pub mod breakpoint;
pub mod bytes;
pub mod exception;
pub mod nt_query;
pub mod peb;
pub mod thread;
pub mod util;
