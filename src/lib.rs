//! A two-dimensional Turing machine ("ant") that walks a toroidal grid,
//! together with the rendering of its tape as raw BGR pixels and the
//! epoch bookkeeping that decides when a run is restarted.

pub mod direction;
pub mod palette;
mod random;
pub mod machine;
pub mod epoch;
pub mod config;
