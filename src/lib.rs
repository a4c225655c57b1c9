//! Detects isolated taps of two configured keys and turns each into a
//! pending request to switch the input method off or on, injected once the
//! key is physically released.

pub mod action;
pub mod action_queue;
pub mod config;
pub mod hook;
pub mod key_manager;
pub mod key_name;
pub mod laws;
