//! Conway's Game of Life on a finite, bounded grid: the grid itself, the
//! next-generation rule, and the controller that reacts to user intents and
//! clock ticks.

pub mod grid;
pub mod engine;
pub mod sampling;
pub mod state;
pub mod controller;
pub mod options;
