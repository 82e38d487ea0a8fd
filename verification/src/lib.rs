//! Flattens a source tree into one text file: every selected file becomes a
//! block made of a `*** <path>` header and the file's text with trailing
//! whitespace and blank lines removed.
//!
//! The crate holds the rules of that pipeline, each with a proved contract;
//! reading, walking, cloning and writing are left to the caller, which carries
//! out the requests of a [`run::Run`] and reports what happened. A run is made
//! of two state machines, [`acquire::Acquisition`] and
//! [`aggregate::Aggregator`], which can be driven on their own as well.

pub mod acquire;
pub mod aggregate;
pub mod aggregate_laws;
pub mod block;
pub mod chars;
pub mod config;
pub mod error;
pub mod extension;
pub mod globs;
pub mod normalize;
pub mod normalize_laws;
pub mod run;
pub mod select;
