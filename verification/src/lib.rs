//! Pane state core of a twin-pane file commander.
//!
//! Two directory views sit side by side and one of them has keyboard focus.
//! This crate holds the deterministic part of that program: the directory
//! cursor, the selection model, the keyboard decoder, the debouncer of
//! change notifications, the plan of a durable move and the controller that
//! ties them together for each pane. Reading directories, watching them,
//! renaming files and drawing are left to the caller, which hands in plain
//! values and carries out the actions that the controllers ask for.

pub mod model;
pub mod paths;
pub mod navigator;
pub mod selection;
pub mod event_queue;
pub mod watcher;
pub mod file_mutator;
pub mod view;
pub mod keyboard;
pub mod container;
pub mod focus_state;
pub mod double_pane;
