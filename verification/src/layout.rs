//! Geometry of result windows: collision-free placement of new windows,
//! placement of the floating buttons, and resize-edge detection.

use vstd::prelude::*;

verus! {

/// Width below which the overlay buttons are hidden.
pub const MIN_WIDTH_FOR_BUTTONS: i32 = 200;

/// Gap kept between neighbouring result windows.
pub const WINDOW_GAP: i32 = 15;

/// Largest magnitude of a coordinate accepted by the placement functions.
/// Placing the next window adds the previous window's width (up to twice
/// this limit), the gap and cascade offsets to a coordinate, and the
/// overlap test adds half a gap to candidates of up to `2^30`; with this
/// limit every such sum stays inside `i32`. It is far beyond any screen:
/// it is this library's guard against overflow, where the arithmetic on
/// larger coordinates would leave `i32`.
pub const COORD_LIMIT: i32 = 0x1000_0000;

/// An axis-aligned rectangle in screen pixels (`right`/`bottom` exclusive).
#[derive(Clone, Copy, Debug, PartialEq, Eq, Structural)]
pub struct Rect {
    pub left: i32,
    pub top: i32,
    pub right: i32,
    pub bottom: i32,
}

/// A point in screen or client pixels.
#[derive(Clone, Copy, Debug, PartialEq, Eq, Structural)]
pub struct Point {
    pub x: i32,
    pub y: i32,
}

/// Which edge or corner of a window the cursor is on.
#[derive(Clone, Copy, Debug, PartialEq, Eq, Structural)]
pub enum ResizeEdge {
    NoEdge,
    Left,
    Right,
    Top,
    Bottom,
    TopLeft,
    TopRight,
    BottomLeft,
    BottomRight,
}

pub open spec fn abs_int(x: int) -> int {
    if x < 0 { -x } else { x }
}

pub open spec fn coord_ok(x: int) -> bool {
    -(COORD_LIMIT as int) <= x <= COORD_LIMIT as int
}

/// A difference of two coordinates within the limits.
pub open spec fn delta_ok(d: int) -> bool {
    -2 * (COORD_LIMIT as int) <= d <= 2 * (COORD_LIMIT as int)
}

/// Whether a coordinate lies within the layout limits.
pub fn coord_in_limits(x: i32) -> (r: bool)
    ensures
        r == coord_ok(x as int),
{
    -COORD_LIMIT <= x && x <= COORD_LIMIT
}

pub open spec fn rect_ok(r: Rect) -> bool {
    coord_ok(r.left as int) && coord_ok(r.top as int) && coord_ok(r.right as int) && coord_ok(
        r.bottom as int,
    )
}

/// Coordinates of candidate rectangles, which may lie beyond the screen.
pub open spec fn wide_ok(r: Rect) -> bool {
    let lim = 0x4000_0000int;
    -lim <= r.left <= lim && -lim <= r.top <= lim && -lim <= r.right <= lim && -lim <= r.bottom <= lim
}

pub open spec fn rects_ok(rs: Seq<Rect>) -> bool {
    forall|i: int| 0 <= i < rs.len() ==> #[trigger] rect_ok(rs[i])
}

pub open spec fn rect_width(r: Rect) -> int {
    r.right - r.left
}

pub open spec fn rect_height(r: Rect) -> int {
    r.bottom - r.top
}

pub open spec fn mk_rect(left: int, top: int, right: int, bottom: int) -> Rect {
    Rect { left: left as i32, top: top as i32, right: right as i32, bottom: bottom as i32 }
}

/// Half of the gap, rounded toward zero as Rust's `/` does.
pub open spec fn half_gap(gap: int) -> int {
    if gap >= 0 { gap / 2 } else { -((-gap) / 2) }
}

/// Two rectangles overlap once each is grown by half the gap on every side.
pub open spec fn spec_rects_overlap(a: Rect, b: Rect, gap: int) -> bool {
    let h = half_gap(gap);
    !(a.right + h <= b.left - h || b.right + h <= a.left - h || a.bottom + h <= b.top - h
        || b.bottom + h <= a.top - h)
}

pub open spec fn spec_overlaps_any(r: Rect, existing: Seq<Rect>, gap: int) -> bool {
    exists|i: int| 0 <= i < existing.len() && spec_rects_overlap(r, #[trigger] existing[i], gap)
}

/// Determine if overlay buttons should be displayed: only the width matters,
/// because the buttons are right-aligned and vertically centred.
pub fn should_show_buttons(window_w: i32, _window_h: i32) -> (show: bool)
    ensures
        show == (window_w >= MIN_WIDTH_FOR_BUTTONS),
{
    window_w >= MIN_WIDTH_FOR_BUTTONS
}

/// Whether two rectangles overlap, keeping a minimum gap between them.
pub fn rects_overlap(a: &Rect, b: &Rect, gap: i32) -> (overlap: bool)
    requires
        wide_ok(*a),
        wide_ok(*b),
        coord_ok(gap as int),
    ensures
        overlap == spec_rects_overlap(*a, *b, gap as int),
{
    let half = gap / 2;
    !(a.right + half <= b.left - half || b.right + half <= a.left - half || a.bottom + half
        <= b.top - half || b.bottom + half <= a.top - half)
}

/// Whether a proposed rectangle overlaps any of the existing ones.
pub fn would_overlap_existing(proposed: &Rect, existing: &[Rect], gap: i32) -> (overlap: bool)
    requires
        wide_ok(*proposed),
        rects_ok(existing@),
        coord_ok(gap as int),
    ensures
        overlap == spec_overlaps_any(*proposed, existing@, gap as int),
{
    let mut i: usize = 0;
    while i < existing.len()
        invariant
            0 <= i <= existing.len(),
            wide_ok(*proposed),
            rects_ok(existing@),
            coord_ok(gap as int),
            forall|j: int| 0 <= j < i ==> !spec_rects_overlap(*proposed, #[trigger] existing@[j], gap as int),
        decreases existing.len() - i,
    {
        assert(rect_ok(existing@[i as int]));
        if rects_overlap(proposed, &existing[i], gap) {
            return true;
        }
        i = i + 1;
    }
    false
}

// ---------------------------------------------------------------------
// Placement of the next window
// ---------------------------------------------------------------------

pub open spec fn right_candidate(p: Rect, w: int, h: int) -> Rect {
    mk_rect(p.right + 15, p.top as int, p.right + 15 + w, p.bottom as int)
}

pub open spec fn bottom_candidate(p: Rect, w: int, h: int) -> Rect {
    mk_rect(p.left as int, p.bottom + 15, p.right as int, p.bottom + 15 + h)
}

pub open spec fn left_candidate(p: Rect, w: int, h: int) -> Rect {
    mk_rect(p.left - 15 - w, p.top as int, p.left - 15, p.bottom as int)
}

pub open spec fn top_candidate(p: Rect, w: int, h: int) -> Rect {
    mk_rect(p.left as int, p.top - 15 - h, p.right as int, p.top - 15)
}

/// The four diagonal candidates, in the order bottom-right, bottom-left,
/// top-right, top-left.
pub open spec fn diagonal_candidate(p: Rect, w: int, h: int, k: int) -> Rect {
    if k == 0 {
        mk_rect(p.right + 15, p.bottom + 15, p.right + 15 + w, p.bottom + 15 + h)
    } else if k == 1 {
        mk_rect(p.left - 15 - w, p.bottom + 15, p.left - 15, p.bottom + 15 + h)
    } else if k == 2 {
        mk_rect(p.right + 15, p.top - 15 - h, p.right + 15 + w, p.top - 15)
    } else {
        mk_rect(p.left - 15 - w, p.top - 15 - h, p.left - 15, p.top - 15)
    }
}

pub open spec fn cascade_candidate(p: Rect, w: int, h: int, m: int) -> Rect {
    mk_rect(p.left + 40 * m, p.top + 40 * m, p.left + 40 * m + w, p.top + 40 * m + h)
}

pub open spec fn diagonal_fits(d: Rect, sw: int, sh: int, ex: Seq<Rect>) -> bool {
    d.left >= 0 && d.right <= sw && d.top >= 0 && d.bottom <= sh && !spec_overlaps_any(d, ex, 15)
}

pub open spec fn cascade_fits(c: Rect, sw: int, sh: int, ex: Seq<Rect>) -> bool {
    c.right <= sw && c.bottom <= sh && !spec_overlaps_any(c, ex, 15)
}

/// First fitting diagonal from index `k` on, if any.
pub open spec fn first_diagonal(p: Rect, w: int, h: int, sw: int, sh: int, ex: Seq<Rect>, k: int) -> Option<Rect>
    decreases 4 - k,
{
    if k >= 4 || k < 0 {
        None
    } else if diagonal_fits(diagonal_candidate(p, w, h, k), sw, sh, ex) {
        Some(diagonal_candidate(p, w, h, k))
    } else {
        first_diagonal(p, w, h, sw, sh, ex, k + 1)
    }
}

/// First fitting cascade offset from multiplier `m` on (multipliers 1 to 9).
pub open spec fn first_cascade(p: Rect, w: int, h: int, sw: int, sh: int, ex: Seq<Rect>, m: int) -> Option<Rect>
    decreases 10 - m,
{
    if m >= 10 || m < 1 {
        None
    } else if cascade_fits(cascade_candidate(p, w, h, m), sw, sh, ex) {
        Some(cascade_candidate(p, w, h, m))
    } else {
        first_cascade(p, w, h, sw, sh, ex, m + 1)
    }
}

/// The rectangle of the next window: right, bottom, left, top, then the
/// diagonals, then a cascade, each only if it fits the screen and overlaps no
/// existing window; the plain cascade by 40 pixels as the last resort.
pub open spec fn spec_next_window_rect(p: Rect, sw: int, sh: int, ex: Seq<Rect>) -> Rect {
    let w = abs_int(p.right - p.left);
    let h = abs_int(p.bottom - p.top);
    let r = right_candidate(p, w, h);
    let b = bottom_candidate(p, w, h);
    let l = left_candidate(p, w, h);
    let t = top_candidate(p, w, h);
    if r.right <= sw && !spec_overlaps_any(r, ex, 15) {
        r
    } else if b.bottom <= sh && !spec_overlaps_any(b, ex, 15) {
        b
    } else if l.left >= 0 && !spec_overlaps_any(l, ex, 15) {
        l
    } else if t.top >= 0 && !spec_overlaps_any(t, ex, 15) {
        t
    } else if first_diagonal(p, w, h, sw, sh, ex, 0) is Some {
        first_diagonal(p, w, h, sw, sh, ex, 0)->0
    } else if first_cascade(p, w, h, sw, sh, ex, 1) is Some {
        first_cascade(p, w, h, sw, sh, ex, 1)->0
    } else {
        cascade_candidate(p, w, h, 1)
    }
}

proof fn lemma_first_diagonal_props(p: Rect, w: int, h: int, sw: int, sh: int, ex: Seq<Rect>, k: int)
    requires
        rect_ok(p),
        0 <= w <= 2 * COORD_LIMIT,
        0 <= h <= 2 * COORD_LIMIT,
    ensures
        first_diagonal(p, w, h, sw, sh, ex, k) matches Some(d) ==> (!spec_overlaps_any(d, ex, 15)
            && rect_width(d) == w && rect_height(d) == h),
    decreases 4 - k,
{
    if k >= 4 || k < 0 {
    } else if diagonal_fits(diagonal_candidate(p, w, h, k), sw, sh, ex) {
    } else {
        lemma_first_diagonal_props(p, w, h, sw, sh, ex, k + 1);
    }
}

proof fn lemma_first_cascade_props(p: Rect, w: int, h: int, sw: int, sh: int, ex: Seq<Rect>, m: int)
    requires
        rect_ok(p),
        0 <= w <= 2 * COORD_LIMIT,
        0 <= h <= 2 * COORD_LIMIT,
    ensures
        first_cascade(p, w, h, sw, sh, ex, m) matches Some(c) ==> (!spec_overlaps_any(c, ex, 15)
            && rect_width(c) == w && rect_height(c) == h),
    decreases 10 - m,
{
    if m >= 10 || m < 1 {
    } else if cascade_fits(cascade_candidate(p, w, h, m), sw, sh, ex) {
    } else {
        lemma_first_cascade_props(p, w, h, sw, sh, ex, m + 1);
    }
}

fn diagonal_rect(prev: &Rect, w: i32, h: i32, k: usize) -> (d: Rect)
    requires
        rect_ok(*prev),
        0 <= w <= 2 * COORD_LIMIT,
        0 <= h <= 2 * COORD_LIMIT,
        k < 4,
    ensures
        d == diagonal_candidate(*prev, w as int, h as int, k as int),
        wide_ok(d),
        rect_width(d) == w,
        rect_height(d) == h,
{
    let gap: i32 = WINDOW_GAP;
    if k == 0 {
        Rect { left: prev.right + gap, top: prev.bottom + gap, right: prev.right + gap + w, bottom: prev.bottom + gap + h }
    } else if k == 1 {
        Rect { left: prev.left - gap - w, top: prev.bottom + gap, right: prev.left - gap, bottom: prev.bottom + gap + h }
    } else if k == 2 {
        Rect { left: prev.right + gap, top: prev.top - gap - h, right: prev.right + gap + w, bottom: prev.top - gap }
    } else {
        Rect { left: prev.left - gap - w, top: prev.top - gap - h, right: prev.left - gap, bottom: prev.top - gap }
    }
}

fn cascade_rect(prev: &Rect, w: i32, h: i32, m: i32) -> (c: Rect)
    requires
        rect_ok(*prev),
        0 <= w <= 2 * COORD_LIMIT,
        0 <= h <= 2 * COORD_LIMIT,
        1 <= m < 10,
    ensures
        c == cascade_candidate(*prev, w as int, h as int, m as int),
        wide_ok(c),
        rect_width(c) == w,
        rect_height(c) == h,
{
    let offset = 40 * m;
    Rect { left: prev.left + offset, top: prev.top + offset, right: prev.left + offset + w, bottom: prev.top + offset + h }
}

fn abs_i32(x: i32) -> (r: i32)
    requires
        x > i32::MIN,
    ensures
        r == abs_int(x as int),
{
    if x < 0 { -x } else { x }
}

#[verifier::loop_isolation(false)]
/// Calculate the next window position with collision detection against the
/// rectangles of all windows already on screen (`existing`).
pub fn calculate_next_window_rect(prev: Rect, screen_w: i32, screen_h: i32, existing: &[Rect]) -> (r: Rect)
    requires
        rect_ok(prev),
        rects_ok(existing@),
    ensures
        r == spec_next_window_rect(prev, screen_w as int, screen_h as int, existing@),
{
    let gap: i32 = WINDOW_GAP;
    let w = abs_i32(prev.right - prev.left);
    let h = abs_i32(prev.bottom - prev.top);
    let ghost sw = screen_w as int;
    let ghost sh = screen_h as int;
    let ghost ex = existing@;

    let right_c = Rect { left: prev.right + gap, top: prev.top, right: prev.right + gap + w, bottom: prev.bottom };
    assert(right_c == right_candidate(prev, w as int, h as int));
    if right_c.right <= screen_w && !would_overlap_existing(&right_c, existing, gap) {
        return right_c;
    }
    let bottom_c = Rect { left: prev.left, top: prev.bottom + gap, right: prev.right, bottom: prev.bottom + gap + h };
    assert(bottom_c == bottom_candidate(prev, w as int, h as int));
    if bottom_c.bottom <= screen_h && !would_overlap_existing(&bottom_c, existing, gap) {
        return bottom_c;
    }
    let left_c = Rect { left: prev.left - gap - w, top: prev.top, right: prev.left - gap, bottom: prev.bottom };
    assert(left_c == left_candidate(prev, w as int, h as int));
    if left_c.left >= 0 && !would_overlap_existing(&left_c, existing, gap) {
        return left_c;
    }
    let top_c = Rect { left: prev.left, top: prev.top - gap - h, right: prev.right, bottom: prev.top - gap };
    assert(top_c == top_candidate(prev, w as int, h as int));
    if top_c.top >= 0 && !would_overlap_existing(&top_c, existing, gap) {
        return top_c;
    }

    let mut k: usize = 0;
    while k < 4
        invariant
            k <= 4,
            gap == WINDOW_GAP,
            rect_ok(prev),
            rects_ok(existing@),
            ex == existing@,
            w as int == abs_int(prev.right - prev.left),
            h as int == abs_int(prev.bottom - prev.top),
            0 <= w <= 2 * COORD_LIMIT,
            0 <= h <= 2 * COORD_LIMIT,
            first_diagonal(prev, w as int, h as int, sw, sh, ex, 0)
                == first_diagonal(prev, w as int, h as int, sw, sh, ex, k as int),
            sw == screen_w as int,
            sh == screen_h as int,
        decreases 4 - k,
    {
        let d = diagonal_rect(&prev, w, h, k);
        if d.left >= 0 && d.right <= screen_w && d.top >= 0 && d.bottom <= screen_h
            && !would_overlap_existing(&d, existing, gap) {
            return d;
        }
        k = k + 1;
    }

    let mut m: i32 = 1;
    while m < 10
        invariant
            1 <= m <= 10,
            gap == WINDOW_GAP,
            rect_ok(prev),
            rects_ok(existing@),
            ex == existing@,
            w as int == abs_int(prev.right - prev.left),
            h as int == abs_int(prev.bottom - prev.top),
            0 <= w <= 2 * COORD_LIMIT,
            0 <= h <= 2 * COORD_LIMIT,
            first_diagonal(prev, w as int, h as int, sw, sh, ex, 0) is None,
            first_cascade(prev, w as int, h as int, sw, sh, ex, 1)
                == first_cascade(prev, w as int, h as int, sw, sh, ex, m as int),
            sw == screen_w as int,
            sh == screen_h as int,
        decreases 10 - m,
    {
        let c = cascade_rect(&prev, w, h, m);
        if c.right <= screen_w && c.bottom <= screen_h && !would_overlap_existing(&c, existing, gap) {
            return c;
        }
        m = m + 1;
    }
    Rect { left: prev.left + 40, top: prev.top + 40, right: prev.left + 40 + w, bottom: prev.top + 40 + h }
}

proof fn lemma_first_diagonal_on_screen(p: Rect, w: int, h: int, sw: int, sh: int, ex: Seq<Rect>, k: int)
    ensures
        first_diagonal(p, w, h, sw, sh, ex, k) matches Some(d) ==> (d.left >= 0 && d.top >= 0 && d.right
            <= sw && d.bottom <= sh),
    decreases 4 - k,
{
    if k >= 4 || k < 0 {
    } else if diagonal_fits(diagonal_candidate(p, w, h, k), sw, sh, ex) {
    } else {
        lemma_first_diagonal_on_screen(p, w, h, sw, sh, ex, k + 1);
    }
}

proof fn lemma_first_cascade_on_screen(p: Rect, w: int, h: int, sw: int, sh: int, ex: Seq<Rect>, m: int)
    requires
        rect_ok(p),
        0 <= w <= 2 * COORD_LIMIT,
        0 <= h <= 2 * COORD_LIMIT,
    ensures
        first_cascade(p, w, h, sw, sh, ex, m) matches Some(c) ==> (c.right <= sw && c.bottom <= sh
            && c.left > p.left && c.top > p.top),
    decreases 10 - m,
{
    if m >= 10 || m < 1 {
    } else if cascade_fits(cascade_candidate(p, w, h, m), sw, sh, ex) {
    } else {
        lemma_first_cascade_on_screen(p, w, h, sw, sh, ex, m + 1);
    }
}

/// Unless every placement was blocked and the window falls back to the
/// plain cascade 40 pixels down and right of the previous one, the new
/// window stays on the screen on every side on which it moved away from the
/// previous window: a window placed to the left starts at or right of 0, one
/// placed above at or below 0, one placed to the right ends within the
/// screen's width, one placed below within its height.
pub proof fn lemma_next_window_stays_on_screen(prev: Rect, screen_w: int, screen_h: int, existing: Seq<Rect>)
    requires
        rect_ok(prev),
        prev.left <= prev.right,
        prev.top <= prev.bottom,
    ensures
        ({
            let r = spec_next_window_rect(prev, screen_w, screen_h, existing);
            ||| (r.left == prev.left + 40 && r.top == prev.top + 40)
            ||| {
                &&& r.left < prev.left ==> r.left >= 0
                &&& r.top < prev.top ==> r.top >= 0
                &&& r.right > prev.right ==> r.right <= screen_w
                &&& r.bottom > prev.bottom ==> r.bottom <= screen_h
            }
        }),
{
    let w = abs_int(prev.right - prev.left);
    let h = abs_int(prev.bottom - prev.top);
    lemma_first_diagonal_on_screen(prev, w, h, screen_w, screen_h, existing, 0);
    lemma_first_cascade_on_screen(prev, w, h, screen_w, screen_h, existing, 1);
}

/// The places next to the previous window are tried in a fixed order: to
/// the right (15 pixels away, same height), below, to the left, above. The
/// first one that lies within the screen on its far side and keeps its gap
/// to every existing window is taken.
pub proof fn lemma_next_window_prefers_sides_in_order(
    prev: Rect,
    screen_w: int,
    screen_h: int,
    existing: Seq<Rect>,
)
    requires
        rect_ok(prev),
        prev.left <= prev.right,
        prev.top <= prev.bottom,
    ensures
        ({
            let r = spec_next_window_rect(prev, screen_w, screen_h, existing);
            let w = prev.right - prev.left;
            let h = prev.bottom - prev.top;
            let right = Rect {
                left: (prev.right + 15) as i32,
                top: prev.top,
                right: (prev.right + 15 + w) as i32,
                bottom: prev.bottom,
            };
            let below = Rect {
                left: prev.left,
                top: (prev.bottom + 15) as i32,
                right: prev.right,
                bottom: (prev.bottom + 15 + h) as i32,
            };
            let left = Rect {
                left: (prev.left - 15 - w) as i32,
                top: prev.top,
                right: (prev.left - 15) as i32,
                bottom: prev.bottom,
            };
            let above = Rect {
                left: prev.left,
                top: (prev.top - 15 - h) as i32,
                right: prev.right,
                bottom: (prev.top - 15) as i32,
            };
            let right_ok = prev.right + 15 + w <= screen_w && !spec_overlaps_any(right, existing, 15);
            let below_ok = prev.bottom + 15 + h <= screen_h && !spec_overlaps_any(below, existing, 15);
            let left_ok = prev.left - 15 - w >= 0 && !spec_overlaps_any(left, existing, 15);
            let above_ok = prev.top - 15 - h >= 0 && !spec_overlaps_any(above, existing, 15);
            &&& right_ok ==> r == right
            &&& !right_ok && below_ok ==> r == below
            &&& !right_ok && !below_ok && left_ok ==> r == left
            &&& !right_ok && !below_ok && !left_ok && above_ok ==> r == above
        }),
{
}

/// The next window always has the size of the (well-formed) previous one, and unless every
/// candidate position was blocked it overlaps none of the existing windows.
pub proof fn lemma_next_window_rect_keeps_size_and_avoids_overlap(
    prev: Rect,
    screen_w: int,
    screen_h: int,
    existing: Seq<Rect>,
)
    requires
        rect_ok(prev),
        prev.left <= prev.right,
        prev.top <= prev.bottom,
    ensures
        ({
            let r = spec_next_window_rect(prev, screen_w, screen_h, existing);
            let w = abs_int(prev.right - prev.left);
            let h = abs_int(prev.bottom - prev.top);
            &&& rect_width(r) == w
            &&& rect_height(r) == h
            &&& (r != cascade_candidate(prev, w, h, 1) ==> !spec_overlaps_any(r, existing, 15))
        }),
{
    let w = abs_int(prev.right - prev.left);
    let h = abs_int(prev.bottom - prev.top);
    let r = right_candidate(prev, w, h);
    let b = bottom_candidate(prev, w, h);
    let l = left_candidate(prev, w, h);
    let t = top_candidate(prev, w, h);
    let c = cascade_candidate(prev, w, h, 1);
    assert(rect_width(r) == w && rect_height(r) == h);
    assert(rect_width(b) == w && rect_height(b) == h);
    assert(rect_width(l) == w && rect_height(l) == h);
    assert(rect_width(t) == w && rect_height(t) == h);
    assert(rect_width(c) == w && rect_height(c) == h);
    lemma_first_diagonal_props(prev, w, h, screen_w, screen_h, existing, 0);
    lemma_first_cascade_props(prev, w, h, screen_w, screen_h, existing, 1);
}

// ---------------------------------------------------------------------
// Buttons drawn inside a result window
// ---------------------------------------------------------------------

/// Side of a square button.
pub const BTN_SIZE: i32 = 28;
/// Margin between the buttons and the window border.
pub const BTN_MARGIN: i32 = 12;
/// Gap between two neighbouring buttons.
pub const BTN_GAP: i32 = 8;

/// Division by two rounding toward zero, as Rust's `/` on integers.
pub open spec fn div2_trunc(x: int) -> int {
    if x >= 0 { x / 2 } else { -((-x) / 2) }
}

/// Top edge of the button row: vertically centred in a short window,
/// otherwise `BTN_MARGIN` above the bottom edge.
pub open spec fn button_top(window_h: int) -> int {
    if window_h < 28 + 2 * 12 { div2_trunc(window_h - 28) } else { window_h - 12 - 28 }
}

/// Window sizes for which the button arithmetic stays within `i32`.
pub open spec fn button_dims_ok(window_w: int, window_h: int) -> bool {
    i32::MIN + 256 <= window_w && i32::MIN + 64 <= window_h
}

/// The `k`-th button from the right: 0 copy, 1 speaker, 2 edit, 3 markdown,
/// 4 download, 5 undo, 6 redo.
pub open spec fn button_rect(window_w: int, window_h: int, k: int) -> Rect {
    let top = button_top(window_h);
    mk_rect(window_w - 12 - 28 - 36 * k, top, window_w - 12 - 36 * k, top + 28)
}

fn button_rect_at(window_w: i32, window_h: i32, k: i32) -> (r: Rect)
    requires
        button_dims_ok(window_w as int, window_h as int),
        0 <= k <= 6,
    ensures
        r == button_rect(window_w as int, window_h as int, k as int),
{
    let btn_size = BTN_SIZE;
    let margin = BTN_MARGIN;
    let threshold_h = btn_size + (margin * 2);
    let top = if window_h < threshold_h {
        (window_h - btn_size) / 2
    } else {
        window_h - margin - btn_size
    };
    let shift = (btn_size + BTN_GAP) * k;
    Rect { left: window_w - margin - btn_size - shift, top, right: window_w - margin - shift, bottom: top + btn_size }
}

/// Copy button: the rightmost button.
pub fn get_copy_btn_rect(window_w: i32, window_h: i32) -> (r: Rect)
    requires
        button_dims_ok(window_w as int, window_h as int),
    ensures
        r == button_rect(window_w as int, window_h as int, 0),
{
    button_rect_at(window_w, window_h, 0)
}

/// Speaker (text to speech) button: left of the copy button.
pub fn get_speaker_btn_rect(window_w: i32, window_h: i32) -> (r: Rect)
    requires
        button_dims_ok(window_w as int, window_h as int),
    ensures
        r == button_rect(window_w as int, window_h as int, 1),
{
    let copy_rect = get_copy_btn_rect(window_w, window_h);
    let width = copy_rect.right - copy_rect.left;
    Rect { left: copy_rect.left - width - BTN_GAP, top: copy_rect.top, right: copy_rect.left - BTN_GAP, bottom: copy_rect.bottom }
}

/// Edit (refine) button: left of the speaker button.
pub fn get_edit_btn_rect(window_w: i32, window_h: i32) -> (r: Rect)
    requires
        button_dims_ok(window_w as int, window_h as int),
    ensures
        r == button_rect(window_w as int, window_h as int, 2),
{
    let prev = get_speaker_btn_rect(window_w, window_h);
    let width = prev.right - prev.left;
    Rect { left: prev.left - width - BTN_GAP, top: prev.top, right: prev.left - BTN_GAP, bottom: prev.bottom }
}

/// Markdown toggle button: left of the edit button.
pub fn get_markdown_btn_rect(window_w: i32, window_h: i32) -> (r: Rect)
    requires
        button_dims_ok(window_w as int, window_h as int),
    ensures
        r == button_rect(window_w as int, window_h as int, 3),
{
    let prev = get_edit_btn_rect(window_w, window_h);
    let width = prev.right - prev.left;
    Rect { left: prev.left - width - BTN_GAP, top: prev.top, right: prev.left - BTN_GAP, bottom: prev.bottom }
}

/// Download-as-HTML button: left of the markdown button, between it and
/// the undo button.
pub fn get_download_btn_rect(window_w: i32, window_h: i32) -> (r: Rect)
    requires
        button_dims_ok(window_w as int, window_h as int),
    ensures
        r == button_rect(window_w as int, window_h as int, 4),
{
    let prev = get_markdown_btn_rect(window_w, window_h);
    let width = prev.right - prev.left;
    Rect { left: prev.left - width - BTN_GAP, top: prev.top, right: prev.left - BTN_GAP, bottom: prev.bottom }
}

/// Undo button: left of the download button.
pub fn get_undo_btn_rect(window_w: i32, window_h: i32) -> (r: Rect)
    requires
        button_dims_ok(window_w as int, window_h as int),
    ensures
        r == button_rect(window_w as int, window_h as int, 5),
{
    let prev = get_download_btn_rect(window_w, window_h);
    let width = prev.right - prev.left;
    Rect { left: prev.left - width - BTN_GAP, top: prev.top, right: prev.left - BTN_GAP, bottom: prev.bottom }
}

/// Redo button: left of the undo button.
pub fn get_redo_btn_rect(window_w: i32, window_h: i32) -> (r: Rect)
    requires
        button_dims_ok(window_w as int, window_h as int),
    ensures
        r == button_rect(window_w as int, window_h as int, 6),
{
    let prev = get_undo_btn_rect(window_w, window_h);
    let width = prev.right - prev.left;
    Rect { left: prev.left - width - BTN_GAP, top: prev.top, right: prev.left - BTN_GAP, bottom: prev.bottom }
}

/// The download button lies between the markdown and the undo buttons,
/// on their row.
pub proof fn lemma_download_between_markdown_and_undo(window_w: int, window_h: int)
    requires
        coord_ok(window_w),
        coord_ok(window_h),
    ensures
        ({
            let m = button_rect(window_w, window_h, 3);
            let d = button_rect(window_w, window_h, 4);
            let u = button_rect(window_w, window_h, 5);
            &&& u.right <= d.left
            &&& d.right <= m.left
            &&& d.top == m.top
            &&& d.top == u.top
        }),
{
}

/// All buttons are 28-pixel squares on one row, each `BTN_GAP` pixels left of
/// the previous one, and the copy button keeps `BTN_MARGIN` from the right edge.
pub proof fn lemma_button_row(window_w: int, window_h: int, k: int)
    requires
        coord_ok(window_w),
        coord_ok(window_h),
        0 <= k < 6,
    ensures
        rect_width(button_rect(window_w, window_h, k)) == 28,
        rect_height(button_rect(window_w, window_h, k)) == 28,
        button_rect(window_w, window_h, k + 1).top == button_rect(window_w, window_h, k).top,
        button_rect(window_w, window_h, k).left - button_rect(window_w, window_h, k + 1).right == 8,
        button_rect(window_w, window_h, 0).right == window_w - 12,
{
}

// ---------------------------------------------------------------------
// Resize edges and hit testing
// ---------------------------------------------------------------------

/// Width of the band along the border in which dragging resizes.
pub const RESIZE_MARGIN: i32 = 8;
/// Smallest width a result window can be resized to.
pub const MIN_WINDOW_WIDTH: i32 = 40;
/// Smallest height a result window can be resized to.
pub const MIN_WINDOW_HEIGHT: i32 = 30;

pub open spec fn spec_resize_edge(width: int, height: int, x: int, y: int) -> ResizeEdge {
    let left = x < 8;
    let right = x >= width - 8;
    let top = y < 8;
    let bottom = y >= height - 8;
    if top && left {
        ResizeEdge::TopLeft
    } else if top && right {
        ResizeEdge::TopRight
    } else if bottom && left {
        ResizeEdge::BottomLeft
    } else if bottom && right {
        ResizeEdge::BottomRight
    } else if left {
        ResizeEdge::Left
    } else if right {
        ResizeEdge::Right
    } else if top {
        ResizeEdge::Top
    } else if bottom {
        ResizeEdge::Bottom
    } else {
        ResizeEdge::NoEdge
    }
}

/// The edge or corner of a `width` x `height` client area that the point
/// `(x, y)` lies on, within `RESIZE_MARGIN` pixels.
pub fn get_resize_edge(width: i32, height: i32, x: i32, y: i32) -> (edge: ResizeEdge)
    requires
        width >= i32::MIN + 8,
        height >= i32::MIN + 8,
    ensures
        edge == spec_resize_edge(width as int, height as int, x as int, y as int),
{
    let margin = RESIZE_MARGIN;
    let left = x < margin;
    let right = x >= width - margin;
    let top = y < margin;
    let bottom = y >= height - margin;
    if top && left {
        ResizeEdge::TopLeft
    } else if top && right {
        ResizeEdge::TopRight
    } else if bottom && left {
        ResizeEdge::BottomLeft
    } else if bottom && right {
        ResizeEdge::BottomRight
    } else if left {
        ResizeEdge::Left
    } else if right {
        ResizeEdge::Right
    } else if top {
        ResizeEdge::Top
    } else if bottom {
        ResizeEdge::Bottom
    } else {
        ResizeEdge::NoEdge
    }
}

/// A point is on no edge exactly when it lies at least `RESIZE_MARGIN` pixels
/// inside every border.
pub proof fn lemma_resize_edge_interior(width: int, height: int, x: int, y: int)
    ensures
        (spec_resize_edge(width, height, x, y) == ResizeEdge::NoEdge) <==> (8 <= x < width - 8
            && 8 <= y < height - 8),
{
}

pub open spec fn moves_right_edge(e: ResizeEdge) -> bool {
    e == ResizeEdge::Right || e == ResizeEdge::TopRight || e == ResizeEdge::BottomRight
}

pub open spec fn moves_left_edge(e: ResizeEdge) -> bool {
    e == ResizeEdge::Left || e == ResizeEdge::TopLeft || e == ResizeEdge::BottomLeft
}

pub open spec fn moves_bottom_edge(e: ResizeEdge) -> bool {
    e == ResizeEdge::Bottom || e == ResizeEdge::BottomRight || e == ResizeEdge::BottomLeft
}

pub open spec fn moves_top_edge(e: ResizeEdge) -> bool {
    e == ResizeEdge::Top || e == ResizeEdge::TopLeft || e == ResizeEdge::TopRight
}

pub open spec fn max_int(a: int, b: int) -> int {
    if a >= b { a } else { b }
}

pub open spec fn min_int(a: int, b: int) -> int {
    if a <= b { a } else { b }
}

/// The window rectangle after dragging `edge` by `(dx, dy)` from `start`,
/// never narrower than `MIN_WINDOW_WIDTH` nor lower than `MIN_WINDOW_HEIGHT`
/// on the side that moves.
pub open spec fn spec_resized_rect(start: Rect, edge: ResizeEdge, dx: int, dy: int) -> Rect {
    let right = if moves_right_edge(edge) { max_int(start.right + dx, start.left + 40) } else { start.right as int };
    let left = if moves_left_edge(edge) { min_int(start.left + dx, start.right - 40) } else { start.left as int };
    let bottom = if moves_bottom_edge(edge) { max_int(start.bottom + dy, start.top + 30) } else { start.bottom as int };
    let top = if moves_top_edge(edge) { min_int(start.top + dy, start.bottom - 30) } else { start.top as int };
    mk_rect(left, top, right, bottom)
}

/// New window rectangle while resizing by dragging one edge or corner.
pub fn resized_window_rect(start: Rect, edge: ResizeEdge, dx: i32, dy: i32) -> (r: Rect)
    requires
        rect_ok(start),
        delta_ok(dx as int),
        delta_ok(dy as int),
    ensures
        r == spec_resized_rect(start, edge, dx as int, dy as int),
{
    let mut new_rect = start;
    match edge {
        ResizeEdge::Right | ResizeEdge::TopRight | ResizeEdge::BottomRight => {
            let moved = start.right + dx;
            let floor = start.left + MIN_WINDOW_WIDTH;
            new_rect.right = if moved >= floor { moved } else { floor };
        },
        ResizeEdge::Left | ResizeEdge::TopLeft | ResizeEdge::BottomLeft => {
            let moved = start.left + dx;
            let ceil = start.right - MIN_WINDOW_WIDTH;
            new_rect.left = if moved <= ceil { moved } else { ceil };
        },
        _ => {},
    }
    match edge {
        ResizeEdge::Bottom | ResizeEdge::BottomRight | ResizeEdge::BottomLeft => {
            let moved = start.bottom + dy;
            let floor = start.top + MIN_WINDOW_HEIGHT;
            new_rect.bottom = if moved >= floor { moved } else { floor };
        },
        ResizeEdge::Top | ResizeEdge::TopLeft | ResizeEdge::TopRight => {
            let moved = start.top + dy;
            let ceil = start.bottom - MIN_WINDOW_HEIGHT;
            new_rect.top = if moved <= ceil { moved } else { ceil };
        },
        _ => {},
    }
    new_rect
}

/// Resizing never makes the moved dimension smaller than the minimum window
/// size, and leaves an edge that is not dragged where it was.
pub proof fn lemma_resize_respects_minimum(start: Rect, edge: ResizeEdge, dx: int, dy: int)
    requires
        rect_ok(start),
        delta_ok(dx),
        delta_ok(dy),
    ensures
        ({
            let r = spec_resized_rect(start, edge, dx, dy);
            &&& (moves_right_edge(edge) || moves_left_edge(edge)) ==> rect_width(r) >= 40
            &&& (moves_bottom_edge(edge) || moves_top_edge(edge)) ==> rect_height(r) >= 30
            &&& !moves_left_edge(edge) ==> r.left == start.left
            &&& !moves_right_edge(edge) ==> r.right == start.right
            &&& !moves_top_edge(edge) ==> r.top == start.top
            &&& !moves_bottom_edge(edge) ==> r.bottom == start.bottom
        }),
{
}

/// Whether `(x, y)` lies in `r` grown by `pad` on every side (edges included).
pub open spec fn spec_point_in_padded(x: int, y: int, r: Rect, pad: int) -> bool {
    x >= r.left - pad && x <= r.right + pad && y >= r.top - pad && y <= r.bottom + pad
}

/// Hit test of a point against a rectangle grown by `pad` pixels.
pub fn point_in_padded_rect(x: i32, y: i32, r: &Rect, pad: i32) -> (inside: bool)
    requires
        wide_ok(*r),
        0 <= pad <= 0x1000,
    ensures
        inside == spec_point_in_padded(x as int, y as int, *r, pad as int),
{
    x >= r.left - pad && x <= r.right + pad && y >= r.top - pad && y <= r.bottom + pad
}

/// Whether `(x, y)` lies in `r`, its right and bottom edges excluded (as
/// the hover poll tests the cursor against a window rectangle).
pub fn point_in_rect(x: i32, y: i32, r: &Rect) -> (inside: bool)
    ensures
        inside == (r.left <= x < r.right && r.top <= y < r.bottom),
{
    x >= r.left && x < r.right && y >= r.top && y < r.bottom
}

/// The rectangle spanned by two corner points, normalised so that
/// `left <= right` and `top <= bottom`.
pub fn selection_rect(a: Point, b: Point) -> (r: Rect)
    ensures
        r.left == min_int(a.x as int, b.x as int),
        r.right == max_int(a.x as int, b.x as int),
        r.top == min_int(a.y as int, b.y as int),
        r.bottom == max_int(a.y as int, b.y as int),
{
    Rect {
        left: if a.x <= b.x { a.x } else { b.x },
        top: if a.y <= b.y { a.y } else { b.y },
        right: if a.x >= b.x { a.x } else { b.x },
        bottom: if a.y >= b.y { a.y } else { b.y },
    }
}

/// Space kept free below the markdown view while the window is hovered,
/// so that the buttons stay visible.
pub const MARKDOWN_HOVER_BOTTOM: i32 = 52;

/// Top of the markdown view while the refine input is open (a 40 pixel
/// input and a 4 pixel gap).
pub const MARKDOWN_REFINE_TOP: i32 = 44;

/// Top of the markdown view under its 2 pixel edge otherwise.
pub const MARKDOWN_EDGE: i32 = 2;

/// Top edge of the markdown view.
pub open spec fn markdown_view_top(refine_active: bool) -> int {
    if refine_active { MARKDOWN_REFINE_TOP as int } else { MARKDOWN_EDGE as int }
}

/// Space below the markdown view.
pub open spec fn markdown_view_bottom_gap(is_hovered: bool) -> int {
    if is_hovered { MARKDOWN_HOVER_BOTTOM as int } else { MARKDOWN_EDGE as int }
}

/// Placement of the markdown view inside a window whose client area is
/// `w` x `h`: 4 pixels in from the sides and never narrower than 50
/// pixels; its top is 44 pixels down while the refine input is open and 2
/// pixels otherwise; while the window is hovered it stops 52 pixels above
/// the bottom, leaving room for the buttons, and otherwise 2 pixels above
/// it. Returns (x, y, width, height).
pub fn markdown_view_bounds(w: i32, h: i32, is_hovered: bool, refine_active: bool) -> (b: (
    i32,
    i32,
    u32,
    u32,
))
    requires
        coord_ok(w as int),
        coord_ok(h as int),
    ensures
        b.0 == 4,
        b.1 == markdown_view_top(refine_active),
        b.2 == max_int(w - 8, 50),
        b.3 == max_int(h - markdown_view_top(refine_active) - markdown_view_bottom_gap(is_hovered), 0),
        h - b.1 - markdown_view_bottom_gap(is_hovered) >= 0 ==> b.1 + b.3 == h
            - markdown_view_bottom_gap(is_hovered),
{
    let top: i32 = if refine_active { MARKDOWN_REFINE_TOP } else { MARKDOWN_EDGE };
    let bottom_gap: i32 = if is_hovered { MARKDOWN_HOVER_BOTTOM } else { MARKDOWN_EDGE };
    let width = if w - 8 >= 50 { w - 8 } else { 50 };
    let room = h - top - bottom_gap;
    let height = if room >= 0 { room } else { 0 };
    (4, top, width as u32, height as u32)
}

} // verus!
