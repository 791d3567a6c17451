//! Session bookkeeping and request planning for a desktop recorder that hands
//! a spoken question and a handful of screenshots to a command-line assistant.
//!
//! The crate performs no file or process I/O itself.  It decides what has to be
//! written, what has to be run and what the outcome means; the embedding
//! program carries those decisions out.

pub mod bindings;
pub mod bridge;
pub mod recording;
pub mod request;
pub mod session;
pub mod stager;
pub mod text;
pub mod types;
