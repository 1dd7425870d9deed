//! Constants and helpers shared by the systems.

pub mod constants;
pub mod helpers;
