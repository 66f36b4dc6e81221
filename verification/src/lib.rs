//! A reader for flat `key=value` documents: one entry for each line,
//! comments behind `;` or `#`, blank lines ignored.
//!
//! [`conf`] classifies lines, buffers one item of lookahead and answers
//! requests for a value in a given shape. [`config`] and [`defaults`] hold
//! the settings of an FTP server that such a document describes, and
//! [`tool`] a helper for strings.

pub mod conf;
pub mod config;
pub mod defaults;
pub mod tool;
