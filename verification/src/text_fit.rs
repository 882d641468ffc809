//! The font size of the plain-text result window: a binary search for the
//! largest size at which the text fits, driven by measurements that the
//! caller makes between the steps.

use vstd::prelude::*;

verus! {

/// Where a plain-text window draws its text and which font sizes it tries.
#[derive(Clone, Copy, Debug, PartialEq, Eq, Structural)]
pub struct TextBox {
    /// Left and right padding.
    pub h_padding: i32,
    pub available_w: i32,
    pub available_h: i32,
    /// Smallest font size tried (also the answer when nothing fits).
    pub min_size: i32,
    /// Largest font size tried.
    pub max_size: i32,
}

pub open spec fn spec_text_box(width: int, height: int, is_refining: bool) -> TextBox {
    let pad: int = if is_refining { 20 } else { 2 };
    let aw: int = if width - 2 * pad > 1 { width - 2 * pad } else { 1 };
    let ah: int = if height > 1 { height } else { 1 };
    let max: int = if is_refining {
        if ah < 18 { ah } else { 18 }
    } else {
        let m: int = if ah > 2 { ah } else { 2 };
        if m < 150 { m } else { 150 }
    };
    TextBox {
        h_padding: pad as i32,
        available_w: aw as i32,
        available_h: ah as i32,
        min_size: if is_refining { 8 } else { 2 },
        max_size: max as i32,
    }
}

/// The text area of a `width` x `height` window: the refining quote is
/// padded by 20 pixels and set between 8 and 18 pixels, the result text
/// padded by 2 pixels and set between 2 and 150 pixels (never taller than
/// the window).
pub fn text_box(width: i32, height: i32, is_refining: bool) -> (b: TextBox)
    requires
        width >= i32::MIN + 40,
    ensures
        b == spec_text_box(width as int, height as int, is_refining),
{
    let pad: i32 = if is_refining { 20 } else { 2 };
    let aw = if width - 2 * pad > 1 { width - 2 * pad } else { 1 };
    let ah = if height > 1 { height } else { 1 };
    let max = if is_refining {
        if ah < 18 { ah } else { 18 }
    } else {
        let m = if ah > 2 { ah } else { 2 };
        if m < 150 { m } else { 150 }
    };
    TextBox {
        h_padding: pad,
        available_w: aw,
        available_h: ah,
        min_size: if is_refining { 8 } else { 2 },
        max_size: max,
    }
}

/// The state of the search: sizes below `low` fit, sizes above `high` do
/// not, and `best` is the largest size known to fit (or the smallest size).
#[derive(Clone, Copy, Debug, PartialEq, Eq, Structural)]
pub struct FontSearch {
    pub low: i32,
    pub high: i32,
    pub best: i32,
}

/// Sizes searched are small positive numbers.
pub open spec fn search_range_ok(min_size: int, max_size: int) -> bool {
    1 <= min_size <= 0x1000 && max_size <= 0x1000
}

impl FontSearch {
    /// The search over `min_size..=max_size`.
    pub fn new(min_size: i32, max_size: i32) -> (s: FontSearch)
        ensures
            s == (FontSearch { low: min_size, high: max_size, best: min_size }),
    {
        FontSearch { low: min_size, high: max_size, best: min_size }
    }

    /// The next size to measure, or `None` when the search is over.
    pub fn next_probe(&self) -> (mid: Option<i32>)
        requires
            search_range_ok(self.low as int, self.high as int) || self.low > self.high,
            0 <= self.low,
            self.high <= 0x1000,
        ensures
            self.low > self.high ==> mid is None,
            self.low <= self.high ==> mid == Some(((self.low + self.high) / 2) as i32),
    {
        if self.low <= self.high {
            Some((self.low + self.high) / 2)
        } else {
            None
        }
    }

    /// The text measured at size `mid` fits (`fits`) or not.
    pub fn record(&mut self, mid: i32, fits: bool)
        requires
            0 <= mid <= 0x1000,
        ensures
            fits ==> *final(self) == (FontSearch { low: (mid + 1) as i32, high: old(self).high, best: mid }),
            !fits ==> *final(self) == (FontSearch { low: old(self).low, high: (mid - 1) as i32, best: old(self).best }),
    {
        if fits {
            self.best = mid;
            self.low = mid + 1;
        } else {
            self.high = mid - 1;
        }
    }
}

/// One step of the search (see [`FontSearch::record`]) as a value.
pub open spec fn search_step(s: FontSearch, fits: bool) -> FontSearch {
    let mid = (s.low + s.high) / 2;
    if fits {
        FontSearch { low: (mid + 1) as i32, high: s.high, best: mid as i32 }
    } else {
        FontSearch { low: s.low, high: (mid - 1) as i32, best: s.best }
    }
}

/// The search stays inside its range: the bounds never leave
/// `min_size..=max_size`, and the best size is one of the sizes tried (or
/// the smallest size).
pub open spec fn search_within(s: FontSearch, min_size: int, max_size: int) -> bool {
    &&& min_size <= s.low
    &&& s.high <= max_size
    &&& min_size <= s.best
    &&& s.best <= (if max_size > min_size { max_size } else { min_size })
}

/// A new search is inside its range, and every step, whatever the
/// measurement says, keeps it there.
pub proof fn lemma_font_search_stays_within(s: FontSearch, min_size: int, max_size: int, fits: bool)
    requires
        search_range_ok(min_size, max_size),
        search_within(s, min_size, max_size),
        s.low <= s.high,
    ensures
        search_within(FontSearch { low: min_size as i32, high: max_size as i32, best: min_size as i32 }, min_size, max_size),
        search_within(search_step(s, fits), min_size, max_size),
{
}

/// The size the search settles on when exactly the sizes up to `t` fit:
/// the largest fitting size in the range, or the smallest size when none
/// fits.
pub open spec fn largest_fit(min_size: int, max_size: int, t: int) -> int {
    if t < min_size { min_size } else if t < max_size { t } else { max_size }
}

/// What the search knows when the sizes up to `t` fit.
pub open spec fn search_inv(s: FontSearch, min_size: int, max_size: int, t: int) -> bool {
    &&& min_size <= s.low
    &&& s.high <= max_size
    &&& s.low <= s.high + 1
    &&& (s.low == min_size ==> s.best == min_size)
    &&& (s.low > min_size ==> s.best == s.low - 1 && s.best <= t)
    &&& (s.high < max_size ==> s.high + 1 > t)
}

/// The search starts in a state its invariant describes.
pub proof fn lemma_font_search_start(min_size: int, max_size: int, t: int)
    requires
        search_range_ok(min_size, max_size),
        min_size <= max_size + 1,
    ensures
        search_inv(FontSearch { low: min_size as i32, high: max_size as i32, best: min_size as i32 }, min_size, max_size, t),
{
}

/// A measurement that tells the truth about whether the probed size fits
/// keeps the invariant and narrows the range.
pub proof fn lemma_font_search_step(s: FontSearch, min_size: int, max_size: int, t: int)
    requires
        search_range_ok(min_size, max_size),
        search_inv(s, min_size, max_size, t),
        s.low <= s.high,
    ensures
        search_inv(search_step(s, (s.low + s.high) / 2 <= t), min_size, max_size, t),
        search_step(s, (s.low + s.high) / 2 <= t).high - search_step(s, (s.low + s.high) / 2 <= t).low
            < s.high - s.low,
{
}

/// When the range is empty the search has found the largest size that
/// fits (or the smallest size when none fits).
pub proof fn lemma_font_search_result(s: FontSearch, min_size: int, max_size: int, t: int)
    requires
        search_range_ok(min_size, max_size),
        min_size <= max_size,
        search_inv(s, min_size, max_size, t),
        s.low > s.high,
    ensures
        s.best == largest_fit(min_size, max_size, t),
{
}

/// Vertical offset that centres text of height `text_h` in a window of
/// height `height`, never above the top.
pub fn text_offset_y(height: i32, text_h: i32) -> (y: i32)
    requires
        -0x2000_0000 <= height <= 0x2000_0000,
        -0x2000_0000 <= text_h <= 0x2000_0000,
    ensures
        y == (if crate::layout::div2_trunc(height - text_h) > 0 {
            crate::layout::div2_trunc(height - text_h)
        } else {
            0
        }),
{
    let d = (height - text_h) / 2;
    if d > 0 { d } else { 0 }
}

} // verus!
