//! Requests to replace the active scene.

use vstd::prelude::*;

verus! {

/// What a scene asks for when it wants to be replaced: the kind of scene to
/// build in its place. The scene that asks is dropped; nothing of it is kept.
#[derive(Clone, Copy, Debug, PartialEq, Eq, Structural)]
pub enum Transition {
    /// A fresh main menu.
    Menu,
    /// A fresh hard-mode prompt.
    HardModeMenu,
    /// A fresh game, in hard mode if `hard` is set.
    Game { hard: bool },
}

} // verus!
