//! Core of a terminal virtual-pet game: a pet with bounded hunger and
//! happiness stats that decay over time, a naming/running application state
//! machine with transient action feedback, and the keyboard/tick event
//! dispatch that drives both.

pub mod app;
pub mod event;
pub mod pet;
