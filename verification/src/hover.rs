//! The hover tester: is the pointer over a button?

use vstd::prelude::*;

verus! {

/// Whether the point `(px, py)` lies in the axis-aligned rectangle whose top
/// left corner is `(x, y)` and which is `width` wide and `height` high. The
/// edges belong to the rectangle.
pub open spec fn in_rectangle(px: int, py: int, x: int, y: int, width: int, height: int) -> bool {
    x <= px <= x + width && y <= py <= y + height
}

/// Remembers the pointer position that was pushed to it last and answers
/// whether that position lies over a given rectangle.
#[derive(Clone, Copy, Debug, PartialEq, Eq, Structural)]
pub struct ButtonChecker {
    mouse_x: i64,
    mouse_y: i64,
}

impl ButtonChecker {
    /// The pointer position pushed last.
    pub closed spec fn pointer(self) -> (int, int) {
        (self.mouse_x as int, self.mouse_y as int)
    }

    /// Whether the remembered pointer position lies over the rectangle.
    pub open spec fn hovers(self, x: int, y: int, width: int, height: int) -> bool {
        in_rectangle(self.pointer().0, self.pointer().1, x, y, width, height)
    }

    /// A tester whose pointer rests in the top left corner of the window.
    pub fn new() -> (checker: ButtonChecker)
        ensures
            checker.pointer() == (0int, 0int),
    {
        ButtonChecker { mouse_x: 0, mouse_y: 0 }
    }

    /// Pushes the pointer position of the current frame.
    pub fn update_mouse_position(&mut self, x: i64, y: i64)
        ensures
            final(self).pointer() == (x as int, y as int),
    {
        self.mouse_x = x;
        self.mouse_y = y;
    }

    /// Tests whether the remembered pointer position lies over the rectangle.
    pub fn is_button_hovered(&self, x: i64, y: i64, width: i64, height: i64) -> (hovered: bool)
        ensures
            hovered == self.hovers(x as int, y as int, width as int, height as int),
    {
        let px: i128 = self.mouse_x as i128;
        let py: i128 = self.mouse_y as i128;
        let left: i128 = x as i128;
        let top: i128 = y as i128;
        left <= px && px <= left + width as i128 && top <= py && py <= top + height as i128
    }
}

} // verus!
