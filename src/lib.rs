//! A keystroke simulator: a timing model, a mistake model and the session
//! state machine that drives them.
pub mod chars;
pub mod engine;
pub mod icon;
pub mod config;
pub mod mistakes;
mod random;
pub mod text;
pub mod timing;
