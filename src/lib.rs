//! Stateless entry points of the voice front end.
//!
//! The command echo is verified here. The sample-buffer operations work on
//! `f32` and stand beside the export glue, outside the verified library.

pub mod command;

pub use command::process_command;
