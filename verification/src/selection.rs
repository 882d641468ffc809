//! The screen-area selection overlay: what a finished drag means, the
//! fade of the dimmed screen, the keys that abort it, and the pixel work
//! of its layered window and of the captured area.

use vstd::prelude::*;
use crate::layout::{coord_ok, max_int, min_int, Point, Rect, selection_rect};
use crate::text::{owned, push_char};

verus! {

/// Alpha of the dimmed screen once faded in.
pub const TARGET_OPACITY: u8 = 120;

/// Change of alpha per fade tick.
pub const FADE_STEP: u8 = 40;

/// Virtual-key code of the Escape key.
pub const VK_ESCAPE: u32 = 0x1B;

/// What releasing the mouse after a drag from `start` to `end` does.
#[derive(Clone, Copy, Debug, PartialEq, Eq, Structural)]
pub enum SelectionOutcome {
    /// A click (at most 10 pixels either way): pick the colour under the cursor.
    PickColor,
    /// A real area (more than 10 pixels both ways): capture it.
    Capture(Rect),
    /// A thin strip: close the overlay.
    Close,
}

pub open spec fn spec_selection_outcome(start: Point, end: Point) -> SelectionOutcome {
    let r = Rect {
        left: min_int(start.x as int, end.x as int) as i32,
        top: min_int(start.y as int, end.y as int) as i32,
        right: max_int(start.x as int, end.x as int) as i32,
        bottom: max_int(start.y as int, end.y as int) as i32,
    };
    let w = r.right - r.left;
    let h = r.bottom - r.top;
    if w <= 10 && h <= 10 {
        SelectionOutcome::PickColor
    } else if w > 10 && h > 10 {
        SelectionOutcome::Capture(r)
    } else {
        SelectionOutcome::Close
    }
}

/// What a drag decides, for every direction of the drag: when it spans more
/// than 10 pixels both across and down, the area between its two corners
/// (left and top the smaller coordinates, right and bottom the larger) is
/// captured; when it spans at most 10 pixels both ways it is a click that
/// picks a colour; otherwise the overlay closes.
pub proof fn lemma_selection_outcome_by_extent(start: Point, end: Point)
    ensures
        ({
            let dx = if end.x >= start.x { end.x - start.x } else { start.x - end.x };
            let dy = if end.y >= start.y { end.y - start.y } else { start.y - end.y };
            let area = Rect {
                left: if start.x <= end.x { start.x } else { end.x },
                top: if start.y <= end.y { start.y } else { end.y },
                right: if start.x <= end.x { end.x } else { start.x },
                bottom: if start.y <= end.y { end.y } else { start.y },
            };
            &&& dx > 10 && dy > 10 ==> spec_selection_outcome(start, end) == SelectionOutcome::Capture(area)
            &&& dx <= 10 && dy <= 10 ==> spec_selection_outcome(start, end) == SelectionOutcome::PickColor
            &&& (dx > 10) != (dy > 10) ==> spec_selection_outcome(start, end) == SelectionOutcome::Close
        }),
{
}

/// What releasing the mouse after a drag from `start` to `end` does (see
/// [`spec_selection_outcome`]).
pub fn selection_outcome(start: Point, end: Point) -> (o: SelectionOutcome)
    requires
        coord_ok(start.x as int),
        coord_ok(start.y as int),
        coord_ok(end.x as int),
        coord_ok(end.y as int),
    ensures
        o == spec_selection_outcome(start, end),
{
    let r = selection_rect(start, end);
    let w = r.right - r.left;
    let h = r.bottom - r.top;
    if w <= 10 && h <= 10 {
        SelectionOutcome::PickColor
    } else if w > 10 && h > 10 {
        SelectionOutcome::Capture(r)
    } else {
        SelectionOutcome::Close
    }
}

/// The selection overlay's drag state: whether a drag is in progress,
/// whether the overlay is fading out, and the drag's first and latest
/// cursor positions.
#[derive(Clone, Copy, Debug, PartialEq, Eq, Structural)]
pub struct SelectionState {
    pub dragging: bool,
    pub fading_out: bool,
    pub start: Point,
    pub current: Point,
}

impl SelectionState {
    /// The drag positions lie within the layout limits.
    pub open spec fn wf(self) -> bool {
        &&& coord_ok(self.start.x as int)
        &&& coord_ok(self.start.y as int)
        &&& coord_ok(self.current.x as int)
        &&& coord_ok(self.current.y as int)
    }

    /// Pressing the left button at `at` starts a drag there, unless the
    /// overlay is already fading out.
    pub open spec fn spec_button_down(self, at: Point) -> SelectionState {
        if self.fading_out {
            self
        } else {
            SelectionState { dragging: true, start: at, current: at, ..self }
        }
    }

    /// Moving the cursor to `at` follows it while a drag is in progress.
    pub open spec fn spec_mouse_move(self, at: Point) -> SelectionState {
        if self.dragging {
            SelectionState { current: at, ..self }
        } else {
            self
        }
    }

    /// Releasing the left button ends a drag in progress and decides what it
    /// was (see [`spec_selection_outcome`]): picking a colour and capturing
    /// an area both start the fade-out; a thin strip closes the overlay.
    /// Without a drag nothing happens.
    pub open spec fn spec_button_up(self) -> (SelectionState, Option<SelectionOutcome>) {
        if !self.dragging {
            (self, None)
        } else {
            let outcome = spec_selection_outcome(self.start, self.current);
            let fading_out = match outcome {
                SelectionOutcome::Close => self.fading_out,
                _ => true,
            };
            (SelectionState { dragging: false, fading_out, ..self }, Some(outcome))
        }
    }

    /// An overlay with no drag in progress and not fading out.
    pub fn new() -> (s: SelectionState)
        ensures
            s.wf(),
            !s.dragging,
            !s.fading_out,
    {
        SelectionState {
            dragging: false,
            fading_out: false,
            start: Point { x: 0, y: 0 },
            current: Point { x: 0, y: 0 },
        }
    }

    /// The left button is pressed at `at` (see [`Self::spec_button_down`]).
    pub fn on_left_button_down(&mut self, at: Point)
        requires
            old(self).wf(),
            coord_ok(at.x as int),
            coord_ok(at.y as int),
        ensures
            *final(self) == old(self).spec_button_down(at),
            final(self).wf(),
    {
        if !self.fading_out {
            self.dragging = true;
            self.start = at;
            self.current = at;
        }
    }

    /// The cursor moves to `at` (see [`Self::spec_mouse_move`]).
    pub fn on_mouse_move(&mut self, at: Point)
        requires
            old(self).wf(),
            coord_ok(at.x as int),
            coord_ok(at.y as int),
        ensures
            *final(self) == old(self).spec_mouse_move(at),
            final(self).wf(),
    {
        if self.dragging {
            self.current = at;
        }
    }

    /// The left button is released (see [`Self::spec_button_up`]); returns
    /// what the finished drag was, `None` when there was none.
    pub fn on_left_button_up(&mut self) -> (o: Option<SelectionOutcome>)
        requires
            old(self).wf(),
        ensures
            (*final(self), o) == old(self).spec_button_up(),
            final(self).wf(),
    {
        if !self.dragging {
            return None;
        }
        self.dragging = false;
        let outcome = selection_outcome(self.start, self.current);
        match outcome {
            SelectionOutcome::Close => {},
            _ => {
                self.fading_out = true;
            },
        }
        Some(outcome)
    }
}

/// A click (the button pressed and released at one point) on an overlay
/// that is not fading out picks the colour under the cursor: it ends the
/// drag, starts the fade-out, and captures nothing.
pub proof fn lemma_click_picks_colour_and_fades(s: SelectionState, at: Point)
    requires
        !s.fading_out,
    ensures
        ({
            let (after, o) = s.spec_button_down(at).spec_button_up();
            &&& o == Some(SelectionOutcome::PickColor)
            &&& !after.dragging
            &&& after.fading_out
        }),
{
}

/// Once the overlay fades out, pressing the button starts no new drag, and
/// releasing it decides nothing more.
pub proof fn lemma_fading_overlay_ignores_clicks(s: SelectionState, at: Point)
    requires
        s.fading_out,
        !s.dragging,
    ensures
        s.spec_button_down(at) == s,
        s.spec_button_down(at).spec_button_up() == (s, None::<SelectionOutcome>),
{
}

/// Every release ends the drag, and a captured area is exactly the
/// normalised rectangle between the drag's corners, more than 10 pixels
/// wide and high.
pub proof fn lemma_release_ends_drag(s: SelectionState)
    requires
        s.wf(),
    ensures
        !s.spec_button_up().0.dragging,
        s.spec_button_up().1 matches Some(SelectionOutcome::Capture(r)) ==> {
            &&& s.spec_button_up().0.fading_out
            &&& r.left == min_int(s.start.x as int, s.current.x as int)
            &&& r.right == max_int(s.start.x as int, s.current.x as int)
            &&& r.top == min_int(s.start.y as int, s.current.y as int)
            &&& r.bottom == max_int(s.start.y as int, s.current.y as int)
            &&& r.right - r.left > 10
            &&& r.bottom - r.top > 10
        },
{
}

/// Upper-case hexadecimal digit of `d` (below 16).
pub open spec fn hex_upper(d: int) -> char {
    if d < 10 { (0x30 + d) as char } else { (0x41 + d - 10) as char }
}

/// A colour `0x00BBGGRR` written as `#RRGGBB`.
pub open spec fn spec_color_hex(color: u32) -> Seq<char> {
    let r = (color % 256) as int;
    let g = ((color / 256) % 256) as int;
    let b = ((color / 65536) % 256) as int;
    seq!['#', hex_upper(r / 16), hex_upper(r % 16), hex_upper(g / 16), hex_upper(g % 16), hex_upper(b / 16), hex_upper(b % 16)]
}

fn hex_digit(d: u32) -> (c: char)
    requires
        d < 16,
    ensures
        c == hex_upper(d as int),
{
    let b: u8 = if d < 10 { (0x30 + d) as u8 } else { (0x41 + d - 10) as u8 };
    b as char
}

/// The picked colour as text (see [`spec_color_hex`]).
pub fn color_hex(color: u32) -> (s: String)
    ensures
        s@ == spec_color_hex(color),
{
    let r = color & 0xFF;
    let g = (color & 0xFF00) >> 8;
    let b = (color & 0xFF0000) >> 16;
    assert(r == color % 256 && g == (color / 256) % 256 && b == (color / 65536) % 256) by (bit_vector)
        requires
            r == color & 0xFF,
            g == (color & 0xFF00) >> 8,
            b == (color & 0xFF0000) >> 16,
    ;
    let mut s = owned("#");
    push_char(&mut s, hex_digit(r / 16));
    push_char(&mut s, hex_digit(r % 16));
    push_char(&mut s, hex_digit(g / 16));
    push_char(&mut s, hex_digit(g % 16));
    push_char(&mut s, hex_digit(b / 16));
    push_char(&mut s, hex_digit(b % 16));
    proof {
        reveal_strlit("#");
        assert(s@ =~= spec_color_hex(color));
    }
    s
}

/// What a fade tick does.
#[derive(Clone, Copy, Debug, PartialEq, Eq, Structural)]
pub enum FadeStep {
    /// The alpha changed: redraw.
    Changed(u8),
    /// Fully faded in: the fade timer stops.
    Settled,
    /// Fully faded out: the overlay closes.
    Finished,
}

pub open spec fn spec_fade_step(alpha: u8, fading_out: bool) -> FadeStep {
    if fading_out {
        if alpha > FADE_STEP { FadeStep::Changed((alpha - FADE_STEP) as u8) } else { FadeStep::Finished }
    } else if alpha < TARGET_OPACITY {
        FadeStep::Changed(min_int(alpha + FADE_STEP, TARGET_OPACITY as int) as u8)
    } else {
        FadeStep::Settled
    }
}

/// One tick of the fade in or out of the dimmed screen.
pub fn fade_step(alpha: u8, fading_out: bool) -> (s: FadeStep)
    ensures
        s == spec_fade_step(alpha, fading_out),
{
    if fading_out {
        if alpha > FADE_STEP {
            FadeStep::Changed(alpha - FADE_STEP)
        } else {
            FadeStep::Finished
        }
    } else if alpha < TARGET_OPACITY {
        let sum = alpha as u16 + FADE_STEP as u16;
        let capped = if sum < TARGET_OPACITY as u16 { sum } else { TARGET_OPACITY as u16 };
        FadeStep::Changed(capped as u8)
    } else {
        FadeStep::Settled
    }
}

/// Alpha of the dim: the fade's alpha, capped by the override used while
/// the preset wheel shows.
pub fn effective_alpha(current: u8, zoom_override: Option<u8>) -> (a: u8)
    ensures
        zoom_override matches Some(z) ==> a == min_int(z as int, current as int),
        zoom_override is None ==> a == current,
{
    match zoom_override {
        Some(z) => if z <= current { z } else { current },
        None => current,
    }
}

/// Keyboard state while the overlay is shown.
#[derive(Clone, Copy, Debug, PartialEq, Eq, Structural)]
pub struct KeyDecision {
    /// The overlay must close.
    pub abort: bool,
    /// Whether the hotkey that opened the overlay is still held.
    pub hotkey_held: bool,
}

/// A key event while the overlay is shown: Escape aborts, and so does
/// pressing the hotkey again once it was released; releasing the hotkey is
/// remembered.
pub open spec fn spec_key_event(vk: u32, is_down: bool, trigger_vk: u32, held: bool) -> KeyDecision {
    if is_down {
        if vk == VK_ESCAPE {
            KeyDecision { abort: true, hotkey_held: held }
        } else if vk == trigger_vk && !held {
            KeyDecision { abort: true, hotkey_held: held }
        } else {
            KeyDecision { abort: false, hotkey_held: held }
        }
    } else if vk == trigger_vk {
        KeyDecision { abort: false, hotkey_held: false }
    } else {
        KeyDecision { abort: false, hotkey_held: held }
    }
}

/// A key event while the overlay is shown (see [`spec_key_event`]).
pub fn selection_key_event(vk: u32, is_down: bool, trigger_vk: u32, held: bool) -> (d: KeyDecision)
    ensures
        d == spec_key_event(vk, is_down, trigger_vk, held),
{
    if is_down {
        if vk == VK_ESCAPE || (vk == trigger_vk && !held) {
            KeyDecision { abort: true, hotkey_held: held }
        } else {
            KeyDecision { abort: false, hotkey_held: held }
        }
    } else if vk == trigger_vk {
        KeyDecision { abort: false, hotkey_held: false }
    } else {
        KeyDecision { abort: false, hotkey_held: held }
    }
}

/// Whether a held hotkey switches continuous mode on: not already on, not
/// yet switched on in this session, triggered recently, and the preset is
/// not a master preset.
pub fn should_activate_continuous(active: bool, activated_this_session: bool, triggered_recently: bool, is_master: bool) -> (r: bool)
    ensures
        r == (!active && !activated_this_session && triggered_recently && !is_master),
{
    !active && !activated_this_session && triggered_recently && !is_master
}

/// The name shown for the hotkey: `Hotkey` when it has none.
pub fn hotkey_display_name(name: &str) -> (r: String)
    ensures
        name@.len() == 0 ==> r@ == "Hotkey"@,
        name@.len() != 0 ==> r@ == name@,
{
    if name.unicode_len() == 0 {
        owned("Hotkey")
    } else {
        owned(name)
    }
}

// ---------------------------------------------------------------------
// Pixels
// ---------------------------------------------------------------------

/// Every pixel of the overlay set to black with the alpha `alpha`.
pub fn fill_dim(pixels: &mut Vec<u32>, alpha: u8)
    ensures
        final(pixels)@.len() == old(pixels)@.len(),
        forall|i: int| 0 <= i < final(pixels)@.len() ==> #[trigger] final(pixels)@[i] == (alpha as u32) * 0x100_0000,
{
    let v: u32 = (alpha as u32) * 0x100_0000;
    let mut i: usize = 0;
    while i < pixels.len()
        invariant
            i <= pixels@.len(),
            pixels@.len() == old(pixels)@.len(),
            forall|j: int| 0 <= j < i ==> #[trigger] pixels@[j] == v,
        decreases pixels@.len() - i,
    {
        pixels.set(i, v);
        i = i + 1;
    }
}

/// The colour part of a pixel is brighter than the dim background.
pub open spec fn is_drawn(p: u32) -> bool {
    p % 0x100_0000 > 0x0A0A0A
}

/// The bounds around the selection box `r` (5 pixels of margin, clipped to
/// the overlay) whose drawn pixels are made opaque white.
pub open spec fn box_bounds(r: Rect, width: int, height: int) -> (int, int, int, int) {
    (max_int(r.left - 5, 0), max_int(r.top - 5, 0), min_int(r.right + 5, width), min_int(r.bottom + 5, height))
}

/// The pixel at index `i` of a `width`-wide overlay lies in a row of the
/// box bounds that fits in `len` pixels, within the bounds' columns.
pub open spec fn in_box_rows(i: int, r: Rect, width: int, height: int, len: int) -> bool {
    let (bl, bt, br, bb) = box_bounds(r, width, height);
    exists|y: int|
        bt <= y < bb && y * width + bl < len && y * width + br <= len && #[trigger] (y * width) + bl <= i && i
            < y * width + br
}

/// Make the drawn pixels around the selection box `r` opaque white, row by
/// row, skipping rows that do not fit in the buffer.
pub fn secure_box_alpha(pixels: &mut Vec<u32>, width: i32, height: i32, r: Rect)
    requires
        0 < width <= 0x8000,
        0 < height <= 0x8000,
        coord_ok(r.left as int),
        coord_ok(r.top as int),
        coord_ok(r.right as int),
        coord_ok(r.bottom as int),
        max_int(r.left - 5, 0) <= min_int(r.right + 5, width as int),
    ensures
        final(pixels)@.len() == old(pixels)@.len(),
        forall|i: int|
            0 <= i < old(pixels)@.len() ==> #[trigger] final(pixels)@[i] == if in_box_rows(
                i,
                r,
                width as int,
                height as int,
                old(pixels)@.len() as int,
            ) && is_drawn(old(pixels)@[i]) {
                0xFFFF_FFFFu32
            } else {
                old(pixels)@[i]
            },
{
    let b_left: i32 = if r.left - 5 > 0 { r.left - 5 } else { 0 };
    let b_top: i32 = if r.top - 5 > 0 { r.top - 5 } else { 0 };
    let b_right: i32 = if r.right + 5 < width { r.right + 5 } else { width };
    let b_bottom: i32 = if r.bottom + 5 < height { r.bottom + 5 } else { height };
    let ghost orig = pixels@;
    let len = pixels.len();
    let mut y: i32 = b_top;
    while y < b_bottom
        invariant
            pixels@.len() == orig.len(),
            len == orig.len(),
            0 <= b_top <= y,
            y <= b_bottom || y == b_top,
            b_bottom <= height <= 0x8000,
            0 <= b_left <= b_right <= width <= 0x8000,
            b_left == max_int(r.left - 5, 0),
            b_top == max_int(r.top - 5, 0),
            b_right == min_int(r.right + 5, width as int),
            b_bottom == min_int(r.bottom + 5, height as int),
            forall|i: int|
                0 <= i < orig.len() ==> #[trigger] pixels@[i] == if (exists|yy: int|
                    b_top <= yy < y && yy * width + b_left < len && yy * width + b_right <= len
                        && #[trigger] (yy * width) + b_left <= i && i < yy * width + b_right) && is_drawn(orig[i]) {
                    0xFFFF_FFFFu32
                } else {
                    orig[i]
                },
        decreases b_bottom - y,
    {
        assert(0 <= y * width <= 0x8000 * 0x8000) by (nonlinear_arith)
            requires
                0 <= y <= 0x8000,
                0 <= width <= 0x8000,
        ;
        let row = (y as usize) * (width as usize);
        let row_start = row + b_left as usize;
        let row_end = row + b_right as usize;
        let ghost before = pixels@;
        if row_start < len && row_end <= len {
            let mut x = row_start;
            while x < row_end
                invariant
                    pixels@.len() == orig.len(),
                    len == orig.len(),
                    before.len() == orig.len(),
                    row_start <= x <= row_end <= len,
                    forall|i: int|
                        0 <= i < orig.len() ==> #[trigger] pixels@[i] == if row_start <= i < x && is_drawn(
                            before[i],
                        ) {
                            0xFFFF_FFFFu32
                        } else {
                            before[i]
                        },
                decreases row_end - x,
            {
                let p = pixels[x];
                let drawn = p & 0x00FF_FFFF > 0x0A0A0A;
                assert(drawn == is_drawn(p)) by (bit_vector)
                    requires
                        drawn == (p & 0x00FF_FFFF > 0x0A0A0A),
                ;
                if drawn {
                    pixels.set(x, 0xFFFF_FFFF);
                }
                x = x + 1;
            }
        }
        proof {
            assert forall|i: int| 0 <= i < orig.len() implies #[trigger] pixels@[i] == if (exists|yy: int|
                b_top <= yy < y + 1 && yy * width + b_left < len && yy * width + b_right <= len
                    && #[trigger] (yy * width) + b_left <= i && i < yy * width + b_right) && is_drawn(orig[i]) {
                0xFFFF_FFFFu32
            } else {
                orig[i]
            } by {
                let in_row = row_start < len && row_end <= len && row_start <= i < row_end;
                if in_row {
                    assert(y * width + b_left <= i && i < y * width + b_right);
                    assert(b_top <= y < y + 1);
                }
                let old_in = exists|yy: int|
                    b_top <= yy < y && yy * width + b_left < len && yy * width + b_right <= len
                        && #[trigger] (yy * width) + b_left <= i && i < yy * width + b_right;
                if old_in {
                    let yy = choose|yy: int|
                        b_top <= yy < y && yy * width + b_left < len && yy * width + b_right <= len
                            && #[trigger] (yy * width) + b_left <= i && i < yy * width + b_right;
                    assert(yy * width + width <= y * width) by (nonlinear_arith)
                        requires
                            yy < y,
                            width > 0,
                    ;
                    assert(!(row_start <= i < row_end));
                    assert(before[i] == 0xFFFF_FFFFu32 || !is_drawn(orig[i]));
                }
                if !in_row && !old_in {
                    if exists|yy: int|
                        b_top <= yy < y + 1 && yy * width + b_left < len && yy * width + b_right <= len
                            && #[trigger] (yy * width) + b_left <= i && i < yy * width + b_right {
                        let yy = choose|yy: int|
                            b_top <= yy < y + 1 && yy * width + b_left < len && yy * width + b_right <= len
                                && #[trigger] (yy * width) + b_left <= i && i < yy * width + b_right;
                        assert(yy == y);
                    }
                }
            }
        }
        y = y + 1;
    }
    proof {
        assert forall|i: int| 0 <= i < orig.len() implies #[trigger] pixels@[i] == if in_box_rows(
            i,
            r,
            width as int,
            height as int,
            orig.len() as int,
        ) && is_drawn(orig[i]) {
            0xFFFF_FFFFu32
        } else {
            orig[i]
        } by {
            let (bl, bt, br, bb) = box_bounds(r, width as int, height as int);
            assert(bl == b_left && bt == b_top && br == b_right && bb == b_bottom);
            let loop_in = exists|yy: int|
                b_top <= yy < y && yy * width + b_left < len && yy * width + b_right <= len
                    && #[trigger] (yy * width) + b_left <= i && i < yy * width + b_right;
            if loop_in {
                let yy = choose|yy: int|
                    b_top <= yy < y && yy * width + b_left < len && yy * width + b_right <= len
                        && #[trigger] (yy * width) + b_left <= i && i < yy * width + b_right;
                assert(bt <= yy < bb);
                assert(in_box_rows(i, r, width as int, height as int, orig.len() as int));
            }
            if in_box_rows(i, r, width as int, height as int, orig.len() as int) {
                let yy = choose|yy: int|
                    bt <= yy < bb && yy * width + bl < orig.len() && yy * width + br <= orig.len()
                        && #[trigger] (yy * width) + bl <= i && i < yy * width + br;
                assert(b_top <= yy < y);
                assert(loop_in);
            }
        }
    }
}

/// The pixels captured in BGRA order turned into opaque RGBA: in every
/// whole group of four bytes the first and third swap and the fourth
/// becomes 255; trailing bytes stay.
pub open spec fn spec_bgra_to_rgba(b: Seq<u8>, i: int) -> u8 {
    let q = i / 4 * 4;
    if q + 4 <= b.len() {
        if i % 4 == 0 {
            b[q + 2]
        } else if i % 4 == 2 {
            b[q]
        } else if i % 4 == 3 {
            255u8
        } else {
            b[i]
        }
    } else {
        b[i]
    }
}

/// Turn captured BGRA pixels into opaque RGBA (see [`spec_bgra_to_rgba`]).
pub fn bgra_to_rgba(buf: &mut Vec<u8>)
    ensures
        final(buf)@.len() == old(buf)@.len(),
        forall|i: int| 0 <= i < old(buf)@.len() ==> #[trigger] final(buf)@[i] == spec_bgra_to_rgba(old(buf)@, i),
{
    let ghost orig = buf@;
    let n = buf.len() / 4;
    let mut k: usize = 0;
    while k < n
        invariant
            n == orig.len() / 4,
            buf@.len() == orig.len(),
            buf.len() == orig.len(),
            k <= n,
            forall|i: int| 0 <= i < 4 * k ==> #[trigger] buf@[i] == spec_bgra_to_rgba(orig, i),
            forall|i: int| 4 * k <= i < orig.len() ==> #[trigger] buf@[i] == orig[i],
        decreases n - k,
    {
        assert(4 * k + 4 <= orig.len()) by (nonlinear_arith)
            requires
                k < n,
                n == orig.len() / 4,
        ;
        let base = 4 * k;
        let b0 = buf[base];
        let b2 = buf[base + 2];
        buf.set(base, b2);
        buf.set(base + 2, b0);
        buf.set(base + 3, 255);
        proof {
            assert forall|i: int| base <= i < base + 4 implies #[trigger] buf@[i] == spec_bgra_to_rgba(orig, i) by {
                assert(i / 4 == k);
                assert(i % 4 == i - base);
            }
        }
        k = k + 1;
    }
    proof {
        assert forall|i: int| 4 * n <= i < orig.len() implies orig[i] == spec_bgra_to_rgba(orig, i) by {
            assert(i / 4 * 4 + 4 > orig.len());
        }
    }
}

/// Size and source offset of a captured area `crop` in a screenshot of
/// the virtual screen whose top-left corner is `(vx, vy)`: (width, height,
/// x, y).
pub fn crop_geometry(crop: Rect, vx: i32, vy: i32) -> (g: (i32, i32, i32, i32))
    requires
        coord_ok(crop.left as int),
        coord_ok(crop.top as int),
        coord_ok(crop.right as int),
        coord_ok(crop.bottom as int),
        coord_ok(vx as int),
        coord_ok(vy as int),
    ensures
        g.0 == crate::layout::abs_int(crop.right - crop.left),
        g.1 == crate::layout::abs_int(crop.bottom - crop.top),
        g.2 == crop.left - vx,
        g.3 == crop.top - vy,
{
    let w = if crop.right >= crop.left { crop.right - crop.left } else { crop.left - crop.right };
    let h = if crop.bottom >= crop.top { crop.bottom - crop.top } else { crop.top - crop.bottom };
    (w, h, crop.left - vx, crop.top - vy)
}

/// The selection box a frame of the overlay draws and brightens, in
/// pixels of the overlay (whose top-left corner is the virtual screen's
/// `(vx, vy)`): only while dragging, and only when the box spanned by the
/// drag start and the cursor has a width and a height. Otherwise the frame
/// is the dimmed screen alone.
pub open spec fn spec_frame_box(dragging: bool, start: Point, cur: Point, vx: int, vy: int) -> Option<Rect> {
    if !dragging {
        None
    } else {
        let left = min_int(start.x as int, cur.x as int) - vx;
        let top = min_int(start.y as int, cur.y as int) - vy;
        let right = max_int(start.x as int, cur.x as int) - vx;
        let bottom = max_int(start.y as int, cur.y as int) - vy;
        if right - left > 0 && bottom - top > 0 {
            Some(Rect { left: left as i32, top: top as i32, right: right as i32, bottom: bottom as i32 })
        } else {
            None
        }
    }
}

pub fn frame_box(dragging: bool, start: Point, cur: Point, vx: i32, vy: i32) -> (r: Option<Rect>)
    requires
        coord_ok(start.x as int),
        coord_ok(start.y as int),
        coord_ok(cur.x as int),
        coord_ok(cur.y as int),
        coord_ok(vx as int),
        coord_ok(vy as int),
    ensures
        r == spec_frame_box(dragging, start, cur, vx as int, vy as int),
{
    if !dragging {
        return None;
    }
    let a = selection_rect(start, cur);
    let r = Rect { left: a.left - vx, top: a.top - vy, right: a.right - vx, bottom: a.bottom - vy };
    let w = if r.right - r.left >= 0 { r.right - r.left } else { r.left - r.right };
    let h = if r.bottom - r.top >= 0 { r.bottom - r.top } else { r.top - r.bottom };
    if w > 0 && h > 0 {
        Some(r)
    } else {
        None
    }
}

/// The overlay's bitmap must be made anew: there is none yet, or the
/// virtual screen changed size.
pub fn layer_cache_stale(has_bitmap: bool, cached_w: i32, cached_h: i32, width: i32, height: i32) -> (r: bool)
    ensures
        r == (!has_bitmap || cached_w != width || cached_h != height),
{
    !has_bitmap || cached_w != width || cached_h != height
}

} // verus!
