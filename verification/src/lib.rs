//! Build-time code generation driven by small embedded scripts.
//!
//! A script is run in an interpreter of its own, with a fixed set of host
//! functions at hand and, where it is attached to an item of source code,
//! with that item's text in the variable `item`. What the script returns is
//! the generated source text. Where the script fails, the message says what
//! failed and shows the lines of the script round the place of the failure.
//!
//! - [`run`]: one run, from script text to generated text or message.
//! - [`sandbox`]: the interpreter, its limits and its host functions.
//! - [`scope`]: the variables a script starts with.
//! - [`capabilities`]: the host functions for structured data and paths.
//! - [`slug`]: the host function that makes identifiers of any text.
//! - [`failure`], [`position`]: how a run can fail, and where.
//! - [`diagnostics`]: the message for a failed run.
//! - [`text`]: the lines of a script.
//! - [`sample`]: the function that the samples of generated tests call.

pub mod capabilities;
pub mod diagnostics;
pub mod failure;
pub mod position;
pub mod run;
pub mod sample;
pub mod sandbox;
pub mod scope;
pub mod slug;
pub mod text;

pub use crate::run::{run_script, run_script_on};
