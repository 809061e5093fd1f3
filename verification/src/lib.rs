//! Reactive query/search pipeline for an interactive JSON explorer.
//!
//! The library turns a stream of keystroke and resize events into a
//! debounced, cancellable evaluation of the current filter expression, a
//! chunked background load of autocomplete candidates, a progress spinner
//! synchronized with in-flight work, and a single consistent render
//! snapshot. Terminal painting, text editing, configuration-file parsing
//! and the external filter-evaluation engine are collaborators outside
//! this crate; the state machines and formatting rules here are verified.

pub mod config;
pub mod context;
pub mod debounce;
pub mod evaluator;
pub mod fold;
pub mod generation;
pub mod json;
pub mod loader;
pub mod rows;
pub mod spinner;
