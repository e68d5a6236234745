//! Local project and development-environment information, with the logic
//! that decides what is shown stated and proved with Verus.

pub mod args;
pub mod completions;
pub mod config;
pub mod content;
pub mod doctor;
pub mod editor;
pub mod fetch;
pub mod git;
pub mod manifest;
pub mod paths;
pub mod project;
pub mod snapshot;
pub mod summary;
pub mod process;
pub mod text;
pub mod timer;
pub mod tips;
pub mod ui;
