//! The terminal interface's state and its transitions.
pub mod app;
pub mod board;
pub mod cards;
pub mod commands;
pub mod detail;
pub mod forms;
pub mod input;
pub mod keymap;
pub mod keys;
pub mod navigation;
pub mod paging;
pub mod popups;
pub mod requests;
pub mod selection;
pub mod textarea;
pub mod updates;
