//! The rules of a small top-down 2D game client: which sprites the texture
//! atlas holds, what the startup sequence spawns, how the keys move the
//! player, and how the camera follows it.

pub mod atlas;
pub mod camera;
pub mod movement;
pub mod scene;
