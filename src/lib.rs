//! A spinning triangle: the scene it draws, the layout of its vertex data,
//! and the per-frame rules that turn input into rotations.

pub mod scene;
pub mod motion;
pub mod session;
