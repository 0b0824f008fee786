//! Decision logic of a desktop widget that shows how much of each AI provider's
//! quota has been used.
//!
//! Everything here is a function of plain values: the embedding program reads the
//! clock, the network, the registry and the window system, hands the results in,
//! and carries out what comes back.

pub mod cells;
pub mod commands;
pub mod draw;
pub mod effects;
pub mod events;
pub mod geometry;
pub mod json;
pub mod menu;
pub mod models;
pub mod names;
pub mod numbers;
pub mod pace;
pub mod paint;
pub mod placement;
pub mod pointer;
pub mod poll;
pub mod polling;
pub mod rows;
pub mod settings;
pub mod settings_file;
pub mod startup;
pub mod state;
pub mod strings;
pub mod text;
pub mod theme;
pub mod time;
pub mod updates;
