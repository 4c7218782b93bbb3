//! Durable Controller workflow: the authority records, the event-sourced state machine, the
//! command decisions that extend its history, and the action selected from each state.

pub mod types;
pub mod claims;
pub mod state;
pub mod events;
pub mod transition;
pub mod recover;
pub mod decide;
pub mod commands;
pub mod laws;
pub mod manager;
pub mod effects;
pub mod completion;
