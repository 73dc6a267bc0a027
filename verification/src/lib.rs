//! Launcher logic for a portable ComfyUI install: configuration checks,
//! process supervision state, custom-node bookkeeping and menu dispatch.

pub mod text;
pub mod state;
pub mod paths;
pub mod config;
pub mod nodes;
pub mod listing;
pub mod launch;
pub mod restart;
pub mod menu;
