//! Normalization of media file names and paths: filename parsing, path
//! templates, proposed renames and the state machine of the interactive
//! renamer.
pub mod text;

pub mod number;
pub mod template;
pub mod paths;
pub mod config;
pub mod media;
pub mod app;
pub mod metadata;
pub mod ui;
pub mod laws;
