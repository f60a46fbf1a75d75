//! Yaffe: a game and application launcher front end.
//!
//! This crate holds the launcher's logic: input mapping, search filters,
//! list and grid navigation, text editing controls, modal dialogs, the
//! settings and texture atlas file formats, the plugin navigation protocol
//! and the switching of the windows' drawing contexts.
use vstd::prelude::*;

pub mod input;
pub mod ui;
pub mod plugin;
pub mod text;
pub mod files;
pub mod state;
pub mod search;
pub mod restrictions;
pub mod data;
pub mod widgets;
pub mod controls;
pub mod modals;
pub mod controller;
pub mod settings;
pub mod system;
pub mod library;
pub mod menu;
pub mod assets;
pub mod overlay;
pub mod launch;
pub mod windowing;
pub mod atlas;
pub mod job_system;

verus! {

} // verus!
