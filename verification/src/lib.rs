//! Lifecycle management for a local llama-server (llama.cpp) run inside a
//! tmux session, verified with Verus.
//!
//! - `text`: decimal rendering, Unicode white space, splitting into words
//!   and joining.
//! - `server`: the built-in model presets, the command line that starts
//!   llama-server, and its health check.
//! - `shell`: the shell work an operation asks for and the steps it takes.
//! - `lm` and `ai`: the lifecycle operations for the `dkdc-lm` and `dkdc-ai`
//!   sessions, each a machine over shell events.
//! - `cli`: what the command-line front ends print.

pub mod ai;
pub mod cli;
pub mod lm;
pub mod server;
pub mod shell;
pub mod text;

pub use lm::{
    resolve_builtin, resolve_model_source, Error, BUILTIN_MODELS, DEFAULT_BUILTIN, DEFAULT_PORT,
    TMUX_SESSION,
};
