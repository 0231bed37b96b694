//! Commands that systems raise during a frame for the engine to act on.

pub mod cmd;
pub mod manager;
