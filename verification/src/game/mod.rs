//! The rules of the match: its fixed parameters and its per-frame update.
pub mod constants;
pub mod draws;
pub mod input;
pub mod laws;
pub mod model;
pub mod state;
