//! Progressive delivery of the output of a child process.
//!
//! A run counts the lines that its child writes and keeps the first of them.
//! Once the output has grown past a preview, the client is sent the preview;
//! while the run goes on, it is sent the running count at each tick of a
//! reporter; and when the output ends, it is sent the final count, with all
//! the lines where no preview went before.
//!
//! - [`run`]: the run as a state machine, from event to state and response.
//! - [`laws`]: what holds of every sequence of events.
//! - [`response`]: the responses, and the JSON documents that carry them.
//! - [`json`]: JSON documents, built with `serde_json`.
//! - [`decimal`]: counts as decimal text.
//! - [`command`]: the process to start, and the directory it works in.
//! - [`paths`]: paths, taken apart by `std::path`.
//! - [`filer`]: the listing of a directory.
//! - [`order`]: the order in which a listing is sorted.

pub mod command;
pub mod decimal;
pub mod filer;
pub mod json;
pub mod laws;
pub mod order;
pub mod paths;
pub mod response;
pub mod run;
