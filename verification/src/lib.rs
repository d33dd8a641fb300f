//! Pipelines over streams of quads.
//!
//! A quad is a statement, with subject, predicate and object, and the name
//! of the graph that it belongs to. A pipeline is a chain of stages; every
//! stage takes a stream of quads and hands a stream on, until a sink shows
//! the quads, sends them into a channel, or an engine outside this library
//! takes over.
//!
//! The library holds what a pipeline decides: how the tokens of a command
//! line become stages, one stage at a time; what each stage makes of its
//! stream; how the streams of many sources become one, with the blank nodes
//! of each source kept apart; which graphs are dispatched to which files.
//! Reading and writing are left to the caller, who gets plain values that
//! say what to read and what to write.

pub mod absolutize;
pub mod bnode;
pub mod canonicalize;
pub mod cli;
pub mod dispatch;
pub mod file_or_url;
pub mod files_or_url;
pub mod filter;
pub mod format;
pub mod index;
pub mod iri;
pub mod map;
pub mod merge;
pub mod null;
pub mod parse;
pub mod pattern;
pub mod pipe;
pub mod prefix_map;
pub mod quad_handler;
pub mod quad_iter;
pub mod query;
pub mod relativize;
pub mod render;
pub mod sequence;
pub mod serialize;
pub mod stage;
pub mod term;
pub mod text;
pub mod verbosity;

pub use stage::SinkSubcommand;
