//! Input: what the window and the keyboard report is turned into events of
//! the engine's own, the events that were registered are looked up, and the
//! commands registered for them are raised.

pub mod events;
pub mod manager;
