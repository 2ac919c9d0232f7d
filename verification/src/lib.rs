//! Scene layer of a small two-dimensional game.
//!
//! A scene is one self-contained mode of the game: the main menu, the
//! hard-mode prompt, the game itself, or an empty placeholder. Each frame the
//! driver hands the active scene the state of the input devices and the time
//! that has passed; the scene moves its own state forward and either stays or
//! asks to be replaced. A scene that stays is then asked for the rectangles
//! that make up its picture.
//!
//! All positions and times are fixed-point integers (see [`units`]), so that
//! every rule of the game is an exact statement about integers.
//!
//! - [`input`]: what the window reports for one frame.
//! - [`draw`]: rectangles, textures and the set-up of a draw surface.
//! - [`hover`]: the test whether the pointer is over a button.
//! - [`scenes`]: the four scenes, and [`scenes::Scene`], which is any of them.
//! - [`transition`]: what a scene asks for when it wants to be replaced.
//! - [`driver`]: the owner of the active scene.

mod chance;
pub mod draw;
pub mod driver;
pub mod hover;
pub mod input;
pub mod scenes;
pub mod transition;
pub mod units;
