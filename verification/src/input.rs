//! The state of the input devices during one frame.

use vstd::prelude::*;

verus! {

/// The keys that the scenes react to.
#[derive(Clone, Copy, Debug, PartialEq, Eq, Structural)]
pub enum Key {
    Left,
    Right,
    Up,
    A,
    D,
    W,
    Escape,
}

/// What the window reports for one frame: where the pointer is, whether the
/// left mouse button is held, and which keys are held. Scenes read it and
/// never change it.
#[derive(Clone, Copy, Debug, PartialEq, Eq, Structural)]
pub struct InputState {
    /// Horizontal pointer position, in position units from the left edge.
    pub mouse_x: i64,
    /// Vertical pointer position, in position units from the top edge.
    pub mouse_y: i64,
    /// Whether the left mouse button is held.
    pub left_button: bool,
    pub left: bool,
    pub right: bool,
    pub up: bool,
    pub a: bool,
    pub d: bool,
    pub w: bool,
    pub escape: bool,
}

impl InputState {
    /// Whether `key` is held.
    pub open spec fn key_down(self, key: Key) -> bool {
        match key {
            Key::Left => self.left,
            Key::Right => self.right,
            Key::Up => self.up,
            Key::A => self.a,
            Key::D => self.d,
            Key::W => self.w,
            Key::Escape => self.escape,
        }
    }

    /// Whether the player steers left: the left arrow or `A` is held.
    pub open spec fn steers_left(self) -> bool {
        self.left || self.a
    }

    /// Whether the player steers right: the right arrow or `D` is held.
    pub open spec fn steers_right(self) -> bool {
        self.right || self.d
    }

    /// Whether the player thrusts upwards: the up arrow or `W` is held.
    pub open spec fn thrusts(self) -> bool {
        self.up || self.w
    }

    /// The input of a frame in which nothing is held and the pointer rests in
    /// the top left corner.
    pub fn idle() -> (window: InputState)
        ensures
            window == (InputState {
                mouse_x: 0,
                mouse_y: 0,
                left_button: false,
                left: false,
                right: false,
                up: false,
                a: false,
                d: false,
                w: false,
                escape: false,
            }),
    {
        InputState {
            mouse_x: 0,
            mouse_y: 0,
            left_button: false,
            left: false,
            right: false,
            up: false,
            a: false,
            d: false,
            w: false,
            escape: false,
        }
    }

    /// The pointer position as a pair.
    pub fn get_mouse_position(&self) -> (position: (i64, i64))
        ensures
            position == (self.mouse_x, self.mouse_y),
    {
        (self.mouse_x, self.mouse_y)
    }

    /// Whether the left mouse button is held.
    pub fn is_left_button_down(&self) -> (down: bool)
        ensures
            down == self.left_button,
    {
        self.left_button
    }

    /// Whether `key` is held.
    pub fn is_key_down(&self, key: Key) -> (down: bool)
        ensures
            down == self.key_down(key),
    {
        match key {
            Key::Left => self.left,
            Key::Right => self.right,
            Key::Up => self.up,
            Key::A => self.a,
            Key::D => self.d,
            Key::W => self.w,
            Key::Escape => self.escape,
        }
    }
}

} // verus!
