//! Lifecycle of a transient context-menu overlay.
//!
//! At most one menu session is active at a time. A session is opened when a menu is
//! shown, receives at most one result (a selected item or a dismissal), and is removed
//! from the registry by a cleanup that runs after a fixed grace delay.
//!
//! The crate holds the state and the decisions. Windows, timers and threads belong to
//! the caller: every command returns the actions that the caller has to perform.

pub mod commands;
pub mod guarantees;
pub mod model;
pub mod options;
pub mod registry;
pub mod scheduler;

