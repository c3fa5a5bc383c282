//! Terminal presentation for a command-line tool: one-line rendering of
//! structured log events and rendering of crash reports.
//!
//! What a function writes is stated, character for character, by the
//! `*_text` specification function next to it. The functions that read
//! the clock or ask for the width of the terminal say what they write
//! whatever the reading was. [`laws`] holds what follows for every line.

pub mod clock;
pub mod event;
pub mod fields;
pub mod laws;
pub mod plain;
pub mod render;
pub mod report;
pub mod style;
pub mod text;
pub mod visible;
