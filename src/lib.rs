//! Launch and surface bootstrap logic for an editor front end: how the
//! embedded editor process is located, wrapped and described, and how the
//! drawable surface is sized.

pub mod bridge;
pub mod render_target;
pub mod shell;
pub mod text;
pub mod wsl;
