//! Supervision of a companion process fed with readings over a named pipe.
//!
//! The library holds the decisions and data of one invocation: which
//! measurement command to read, how its output becomes a reading, whether
//! the pipe and the supervised process need work, and who holds the
//! instance lock. The caller performs the filesystem and process work that
//! those decisions ask for and hands back what it found.
pub mod config;
pub mod extract;
pub mod fifo;
pub mod invocation;
pub mod pid_lock;
pub mod process;
