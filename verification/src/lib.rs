//! Control core of a fan-and-indicator firmware: preset table, the
//! event-driven controller state machine with its rendering rules, the
//! USB-C supply-power classifier with its debounce, the button edge
//! extraction, and the persisted-preset contract.

pub mod fraction;
pub mod presets;
pub mod controller;
pub mod power;
pub mod buttons;
pub mod persistence;
