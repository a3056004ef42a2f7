//! Core logic of a batch video downloader built around an external
//! command-line downloading tool.
//!
//! The crate models the four components that carry the real logic:
//! a progress parser that turns one line of the external tool's output
//! into a structured sample, a process driver's pure parts (argument
//! building and result interpretation), a job orchestrator that tracks
//! a table of download jobs under a bounded-concurrency policy, and the
//! finite-state machine behind the interactive session. Everything that
//! talks to the terminal, the filesystem or the network lives outside
//! this crate and calls in with plain values.

pub mod clock;
pub mod error;
pub mod text;
pub mod progress;
pub mod strutil;
pub mod history;
pub mod config;
pub mod events;
pub mod widgets;
pub mod batch;
pub mod app;
pub mod runner;
pub mod cli;
pub mod logger;
pub mod progress_bar;
pub mod clipboard;
pub mod json;
pub mod downloader;
pub mod playlist;
pub mod utils;
