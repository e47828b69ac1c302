//! Verified core of a Shortcut stories client: the story model, workspace
//! configuration, git branch planning, story creation and editing, and the
//! state machine behind the terminal interface.

pub mod api;
pub mod text;
pub mod git;
pub mod config;
pub mod story_input;
pub mod story_creator;
pub mod story_editor;
pub mod timekeeping;
pub mod cli;
pub mod listing;
pub mod ui;
