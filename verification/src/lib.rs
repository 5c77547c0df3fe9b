//! A markdown file as a deck of slides for the terminal.
//!
//! `document` parses a text and `segment` cuts its top-level nodes into
//! slides; `render` turns the nodes of a slide into styled lines, with the
//! laws of style inheritance in `inheritance`; `navigation`, `commands`
//! and `app` hold where the viewer stands and how commands move it;
//! `keys` and `config` bind keys to commands.

pub mod app;
pub mod commands;
pub mod config;
pub mod document;
pub mod inheritance;
pub mod keys;
pub mod line;
pub mod navigation;
pub mod node;
pub mod render;
pub mod segment;
pub mod style;
pub mod text;
