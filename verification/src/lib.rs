//! A process supervisor library: it models launching, monitoring,
//! restarting and stopping long-running child processes, with a persisted
//! per-process record that later invocations use to find and terminate a
//! running process by name.
//!
//! The decision logic (the supervisor state machine, the shutdown plan, the
//! record bookkeeping, the path layout) is verified; the thin shell that
//! performs spawns, sleeps and file I/O lives outside the library and drives
//! the state machine defined here.

pub mod config;
pub mod daemon;
pub mod engine;
pub mod errors;
pub mod fs;
pub mod listing;
pub mod logger;
pub mod monitor;
pub mod os;
pub mod process;
pub mod protocol;
pub mod service;
pub mod shutdown;
pub mod state;
pub mod strutil;
pub mod types;
pub mod workspace;
