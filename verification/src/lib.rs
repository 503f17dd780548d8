//! Counting the lines, and optionally the characters, of the text files in a
//! directory tree, with coarse substring rules for what is left out.

pub mod config;
pub mod ignore;
pub mod report;
pub mod stats;
pub mod text;
pub mod walk;
