//! A terminal-control library with a stable, C-friendly surface.
//!
//! The crate translates between a rich native model of terminal colors, key
//! codes and events and a narrow, fixed-layout wire representation, encodes
//! terminal commands as ANSI escape sequences, and queues those sequences
//! through a caller-supplied output sink.  All failure modes map onto a
//! small closed error enumeration rendered as integer status codes.

pub mod ansi;
pub mod color;
pub mod cursor;
pub mod error;
pub mod event;
pub mod stream;
pub mod style;
pub mod terminal;
