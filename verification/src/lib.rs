//! The state and rules of a parental internet guard: a blacklist of domains,
//! an edit dialog that works on a copy of it, and the guard's on/off switch.
pub mod model;
pub mod lists;
pub mod guard;
pub mod laws;
pub mod screens;
