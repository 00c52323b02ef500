//! Core logic of the char command-line tools: model catalogs, command palette
//! matching, detector state machines, calendar sync planning and request paths.

pub mod text;
pub mod json;
pub mod search;
pub mod commands;
pub mod palette;
pub mod cactus_model;
pub mod clock;
pub mod detect;
pub mod cli;
pub mod model;
pub mod entry;
pub mod ids;
pub mod calendar;
pub mod nango;
pub mod batch;
pub mod github;
pub mod settings;
pub mod listen;
pub mod screen;
pub mod recorder;
pub mod layout;
