//! A reliable task queue on top of a list-based message broker.
//!
//! Producers append encoded jobs to a shared main list. A consumer moves one
//! job at a time into its private backup list, works on it under a
//! [`TaskGuard`], and acknowledges it by removing it from the backup list
//! again. A job whose guard was marked as failed stays in the backup list.
//!
//! The library decides which broker command to send and what a broker reply
//! means; sending the command is left to the caller.

pub mod broker;
pub mod error;
pub mod guard;
pub mod laws;
pub mod names;
pub mod queue;
pub mod task;
pub mod wire;

pub use broker::{Broker, Command, CommandView, Reply, Response};
pub use error::{Error, ErrorKind};
pub use guard::{acknowledged, TaskGuard};
pub use queue::{Queue, QueueView};
pub use task::{payload_text, TaskDecodable, TaskEncodable};
