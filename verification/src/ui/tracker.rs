//! Which one window is in a passing state: the button or check box under
//! the mouse, the drop-down that is open.
use vstd::prelude::*;

verus! {

/// Remembers the one window that is in a passing state; 0 stands for none.
#[derive(Debug, Clone, Copy, PartialEq, Eq, Default)]
pub struct WindowStateTracker {
    current: isize,
}

impl WindowStateTracker {
    /// The window in the state, 0 for none.
    pub closed spec fn current_window(&self) -> isize {
        self.current
    }

    /// A tracker with no window in the state.
    pub fn new() -> (t: WindowStateTracker)
        ensures
            t.current_window() == 0,
    {
        WindowStateTracker { current: 0 }
    }

    /// Puts `hwnd` in the state, or takes it out when it is the one in it.
    pub fn set(&mut self, hwnd: isize, on: bool)
        ensures
            final(self).current_window() == state_after_set(old(self).current_window(), hwnd, on),
    {
        if on {
            self.current = hwnd;
        } else if self.current == hwnd {
            self.current = 0;
        }
    }

    /// `hwnd` is the window in the state.
    pub fn is_set(&self, hwnd: isize) -> (r: bool)
        ensures
            r == (self.current_window() == hwnd),
    {
        self.current == hwnd
    }
}

/// The window in the state after `hwnd` is put in it (`on`) or taken out.
pub open spec fn state_after_set(current: isize, hwnd: isize, on: bool) -> isize {
    if on {
        hwnd
    } else if current == hwnd {
        0
    } else {
        current
    }
}

/// Putting a window in the state and taking it out again leaves no window
/// in it (for any window but 0, which stands for none); putting another
/// window in the state takes the first one out.
pub proof fn law_tracker_set_then_clear(current: isize, hwnd: isize, other: isize)
    requires
        hwnd != 0,
        other != hwnd,
    ensures
        state_after_set(state_after_set(current, hwnd, true), hwnd, false) == 0,
        state_after_set(state_after_set(current, hwnd, true), other, true) != hwnd,
{
}

} // verus!
