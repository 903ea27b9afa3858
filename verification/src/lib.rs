//! A crate for consuming the runc binary in your Rust applications, similar to
//! [go-runc](https://github.com/containerd/go-runc) for Go.
//!
//! A client turns each operation into the steps of a call: paths to be made absolute, a file to be
//! written, streams to be attached, a child process to be run. Whoever drives the call does what a
//! step asks for and reports how it went; the answer follows.

pub mod async_client;
pub mod client;
pub mod command;
pub mod config;
pub mod error;
pub mod exit;
pub mod json;
pub mod laws;
pub mod operation;
pub mod options;
pub mod reply;
pub mod step;
pub mod text;

pub use crate::async_client::AsyncClient;
pub use crate::client::Client;
pub use crate::config::{Config, LogFormat, Version};
pub use crate::exit::Response;
