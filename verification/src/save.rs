//! Saved games: their versions and the slots that list them.

pub mod save_manager;

pub use save_manager::SaveManager;
