//! Queues video files for re-encoding to a target size and supervises the
//! jobs, one at a time.
//!
//! The library decides and computes; it runs no tool and touches no file.
//! A caller performs what a step asks for and reports back what happened:
//!
//! - [`app`] holds the queue, the log and the two flags, and moves files
//!   from waiting to processing to done;
//! - [`runner`] takes one job from its claim to its end;
//! - [`probe`] reads what the probe tool says of a source file;
//! - [`bitrate`] splits the bit budget between video and audio;
//! - [`command`] assembles the encoder's arguments and shows them;
//! - [`queue_laws`] states what holds of the queue in every state.

pub mod app;
pub mod bitrate;
pub mod command;
pub mod error;
pub mod probe;
pub mod queue_laws;
pub mod runner;
pub mod text;
pub mod types;
pub mod utils;
