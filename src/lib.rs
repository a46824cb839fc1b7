//! Core of a small 2D game: integer geometry, GUI button input handling,
//! sprite frame animation, and the per-frame decisions of the scene.
//!
//! Fractions (anchor origins, color channels) are fixed-point values in
//! thousandths, so that `1000` stands for `1.0`.

pub mod shapes;
pub mod color;
pub mod input;
pub mod gui_label;
pub mod gui_button;
pub mod arm;
pub mod scenemanager;
