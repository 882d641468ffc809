//! The floating button canvas's table of markdown windows: the screen
//! rectangle of each window whose buttons it draws.

use vstd::prelude::*;
use std::collections::HashMap;
use crate::layout::Rect;

verus! {

broadcast use vstd::std_specs::hash::group_hash_axioms;

/// A window's place on screen as (x, y, width, height).
pub open spec fn placement(r: Rect) -> (i32, i32, i32, i32) {
    (r.left, r.top, (r.right - r.left) as i32, (r.bottom - r.top) as i32)
}

/// The rectangle's width and height fit in `i32`.
pub open spec fn extent_fits(r: Rect) -> bool {
    i32::MIN <= r.right - r.left <= i32::MAX && i32::MIN <= r.bottom - r.top <= i32::MAX
}

fn placement_of(r: Rect) -> (p: (i32, i32, i32, i32))
    requires
        extent_fits(r),
    ensures
        p == placement(r),
{
    (r.left, r.top, r.right - r.left, r.bottom - r.top)
}

/// The markdown windows the canvas draws buttons for, by handle.
pub struct CanvasWindows {
    pub windows: HashMap<isize, (i32, i32, i32, i32)>,
}

impl CanvasWindows {
    pub fn new() -> (c: CanvasWindows)
        ensures
            c.windows@ == Map::<isize, (i32, i32, i32, i32)>::empty(),
    {
        CanvasWindows { windows: HashMap::new() }
    }

    /// A markdown window at `rect` gets buttons on the canvas.
    pub fn register_markdown_window(&mut self, hwnd: isize, rect: Rect)
        requires
            extent_fits(rect),
        ensures
            final(self).windows@ == old(self).windows@.insert(hwnd, placement(rect)),
    {
        let p = placement_of(rect);
        self.windows.insert(hwnd, p);
    }

    /// A window leaves the canvas; returns whether none is left (the
    /// canvas then hides).
    pub fn unregister_markdown_window(&mut self, hwnd: isize) -> (hide_canvas: bool)
        ensures
            final(self).windows@ == old(self).windows@.remove(hwnd),
            hide_canvas == final(self).windows@.is_empty(),
    {
        self.windows.remove(&hwnd);
        self.windows.is_empty()
    }

    /// A registered window moved or was resized to `rect`; other windows
    /// are not added.
    pub fn update_window_position(&mut self, hwnd: isize, rect: Rect)
        requires
            extent_fits(rect),
        ensures
            old(self).windows@.contains_key(hwnd) ==> final(self).windows@ == old(self).windows@.insert(
                hwnd,
                placement(rect),
            ),
            !old(self).windows@.contains_key(hwnd) ==> final(self).windows@ == old(self).windows@,
    {
        if self.windows.contains_key(&hwnd) {
            let p = placement_of(rect);
            self.windows.insert(hwnd, p);
        }
    }
}

} // verus!
