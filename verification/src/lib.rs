//! A guided tour of Rust basics with a menu in front of it.
//!
//! [`selector`] decides what the menu program does next: prompt, advance the
//! progress indicator, run a group of demonstrations, or stop. [`basics`]
//! holds the demonstrations of the first group; each one returns the values
//! it illustrates, and its contract says what they are.

pub mod selector;
pub mod basics;
pub mod text;
mod std_calls;
