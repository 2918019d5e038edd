//! Scheduling core for community races: the race state machine, the
//! reminder schedule, and the time handling that feeds them.

pub mod cache;
pub mod catalog;
pub mod clock;
pub mod commands;
pub mod engine;
pub mod lifecycle;
pub mod nag;
pub mod notices;
pub mod operator;
pub mod race;
pub mod roles;
pub mod roster;
pub mod startup;
pub mod state;
pub mod store;
pub mod text;
