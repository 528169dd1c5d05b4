//! Turns a decoded competitive-programming problem into the files of a local
//! problem directory: a metadata document and one numbered input and answer
//! file per sample test.
//!
//! The library is pure. It decides file names, file contents, the order of
//! the writes and how a failed write ends the operation; touching the disk is
//! left to the caller, who performs each write it is handed and reports back.

pub mod convert;
pub mod decimal;
pub mod directory;
pub mod document;
pub mod error;
pub mod model;
pub mod plan;
pub mod template;
pub mod writer;
