//! Mac Disk Monitor
//!
//! Watches disk activity on macOS: turns the lines that `diskutil activity`
//! prints into events, and decides what the worker that supervises the
//! command does next.
//!
//! An [`Event`] is parsed from one line of output. An [`Engine`] tells the
//! worker, step by step, what to do: read, send an event, check whether the
//! command has exited, poll for an [`Action`], terminate the command, return.

pub mod engine;
pub mod error;
pub mod event;
pub mod lines;
pub mod pattern;
pub mod run;
pub mod text;
pub mod time;

pub use crate::engine::{Action, Command, Engine, Reading, Response};
pub use crate::error::Error;
pub use crate::event::{
    extract_base_metadata, extract_volume_kind, extract_volume_name, extract_volume_path, Event,
};
pub use crate::time::Timestamp;
