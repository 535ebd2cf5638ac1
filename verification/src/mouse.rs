//! Cursor tracking: turns the cursor positions that come in into steps from
//! the last position to the new one.

use vstd::prelude::*;

verus! {

/// The last cursor position, and whether any position was observed yet.
pub struct Mouse<T> {
    pub first_mouse: bool,
    pub last_x: T,
    pub last_y: T,
}

/// One step of the cursor.
pub struct CursorStep<T> {
    pub from_x: T,
    pub from_y: T,
    pub to_x: T,
    pub to_y: T,
}

impl<T: Copy> Mouse<T> {
    /// A tracker that has observed no position yet; `x` and `y` stand in
    /// for the last position until the first one comes.
    pub fn new(x: T, y: T) -> (mouse: Mouse<T>)
        ensures
            mouse.first_mouse,
            mouse.last_x == x,
            mouse.last_y == y,
    {
        Mouse { first_mouse: true, last_x: x, last_y: y }
    }

    /// Observes a cursor position and gives the step that led to it.  The
    /// first position observed is its own start, so that the first step has
    /// no extent; every later step starts where the one before ended.
    pub fn process_mouse(&mut self, xpos: T, ypos: T) -> (step: CursorStep<T>)
        ensures
            !final(self).first_mouse,
            final(self).last_x == xpos,
            final(self).last_y == ypos,
            step.to_x == xpos,
            step.to_y == ypos,
            step.from_x == if old(self).first_mouse { xpos } else { old(self).last_x },
            step.from_y == if old(self).first_mouse { ypos } else { old(self).last_y },
    {
        if self.first_mouse {
            self.first_mouse = false;
            self.last_x = xpos;
            self.last_y = ypos;
        }
        let step = CursorStep { from_x: self.last_x, from_y: self.last_y, to_x: xpos, to_y: ypos };
        self.last_x = xpos;
        self.last_y = ypos;
        step
    }
}

} // verus!
