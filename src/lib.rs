//! The input-driven core of a terminal login greeter: a character-safe line
//! editor, a one-level mode machine, bounded selections and power actions.
pub mod editor;
pub mod greeter;
pub mod power;
pub mod keyboard;
pub mod laws;
