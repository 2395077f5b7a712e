//! Copies the colour metadata, and the chapters if asked, of one media file
//! onto the streams of another.
//!
//! The library holds everything that is decided or computed on the way:
//!
//! - `values`: the enumerated colour properties and their names;
//! - `mapper`: the table that says how each field is written in each syntax,
//!   and the reader that takes a written value back;
//! - `metadata`: the model of what a source asserts, and the chapter markers;
//! - `parse`: the extractor, which reads the model and the chapters from
//!   what the prober printed;
//! - `apply`: the applier, which plans the run of the muxer and judges how
//!   it ended;
//! - `present`: the presenter, which prints the model for a reader or as the
//!   options of a tool;
//! - `cli`: the decisions of the two commands, step by step;
//! - `text` and `numbers`: the helpers on characters and on numbers as text.
//!
//! Running the prober and the muxer, looking at files and asking the user
//! are left to the caller.
pub mod apply;
pub mod cli;
pub mod mapper;
pub mod metadata;
pub mod numbers;
pub mod parse;
pub mod present;
pub mod text;
pub mod values;
