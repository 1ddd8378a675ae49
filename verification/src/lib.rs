//! Core of a single-threaded cooperative runtime driven by a kernel completion ring.
//!
//! The library holds the decisions of the runtime: which task is polled
//! next, which notifier a completion resumes, how far a vectored write has
//! come, what a receiver does with an empty queue. The driver around it
//! performs the system calls and polls the tasks.

pub mod io;
pub mod mpsc;
pub mod runtime;
pub mod server;
