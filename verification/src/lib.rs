//! The core of a manager for the ThetaData terminal, a worker process that
//! the manager starts, stops and restarts, whose output it keeps as a log,
//! and whose configuration file it finds in that output.
//!
//! Nothing in this library touches a process, a file, a secret store or a
//! clock. It decides; a host carries out. `manager::ThetaApp` holds the
//! state of a session and answers each command with what the host is to do
//! next (`protocol`); `state` says what every command does to the state, and
//! `laws` what follows for any run of commands: one child at most, exits
//! noticed once, restarts that replace the child, settings that come back.
//!
//! - `channel`, `reader`: from the worker's output streams to the tick
//! - `detect`: the configuration path announced in a line of output
//! - `config_file`: the configuration file's text, its loading and saving
//! - `highlight`: comment lines in the configuration text
//! - `model`: the settings kept between sessions
//! - `text`: searching and trimming sequences of characters

pub mod channel;
pub mod config_file;
pub mod detect;
pub mod highlight;
pub mod laws;
pub mod manager;
pub mod model;
pub mod protocol;
pub mod reader;
pub mod state;
pub mod text;
