//! The decisions of a supervisor of one child process.
//!
//! The crate holds what a supervising daemon decides and leaves to its
//! caller what the daemon does: the caller launches and signals the child,
//! reads status records, owns the log file and the control socket, and tells
//! the crate what came of it.
//!
//! - [`config`]: the configuration, the actions, and the command line.
//! - [`probe`]: the status of a process, read from its status record.
//! - [`process`]: the supervisor of the child and its restart strategy.
//! - [`server`]: the control server that leads the supervisor.
//! - [`client`]: what a client sends and what the answer means.
//! - [`rotate`]: when the log is rotated and what the rotated file is called.
//! - [`backups`]: which rotated logs are kept.
//! - [`fields`], [`text`]: the text helpers of the others.

pub mod backups;
pub mod client;
pub mod config;
pub mod fields;
pub mod probe;
pub mod process;
pub mod rotate;
pub mod server;
pub mod text;
