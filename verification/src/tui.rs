//! The state of the interactive wizard: its screens, what each key does to
//! them, and the recipe they add up to. Drawing and reading keys are left to
//! the caller.

pub mod app;
pub mod events;
pub mod screens;
