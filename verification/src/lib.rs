//! The decisions of an on-demand MicroVM builder manager.
//!
//! Nothing here performs I/O. Each operation of the manager is a value that
//! names the next thing to do; once that is done, `advance` takes the answer
//! and names what comes after it.

pub mod builder;
pub mod config;
pub mod connection;
pub mod daemon;
pub mod decimal;
pub mod error;
pub mod files;
pub mod lifecycle;
pub mod path;
pub mod process;
pub mod serial;
pub mod state;
pub mod terminate;
pub mod time;
pub mod vm;
pub mod wait;
