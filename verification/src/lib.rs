//! Core of the ghost behaviour of a tile-based chase game.
//!
//! The crate models the board as discrete tile coordinates and provides,
//! as pure verified functions: the global scatter/chase schedule, the
//! per-agent mode state machine, per-mode target selection (including the
//! house-return navigation of eaten agents), tunnel teleportation and
//! speed resolution from level tuning data. Rendering, input, audio and
//! asset handling are outside collaborators and are not part of this crate.

pub mod common;
pub mod ghosts;
pub mod board;
pub mod ghost_house;
pub mod schedule;
pub mod state;
pub mod target;
pub mod tunnels;
pub mod dots;
pub mod speed;
