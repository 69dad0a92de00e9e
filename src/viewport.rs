//! Viewport arithmetic: which lines a scroll position shows, which cell a
//! pointer position falls in, and how a scroll offset moves to show a cell.
//!
//! All lengths are integers in device units; a caller that measures in
//! fractional pixels picks a finer unit (such as 1/64 pixel) and converts.

use vstd::prelude::*;
use vstd::arithmetic::div_mod::lemma_div_plus_one;

verus! {

/// The metrics of the editor's fixed-width font.
#[derive(Clone, Copy, Debug, PartialEq, Eq, Structural)]
pub struct FontMetrics {
    /// Distance between two baselines.
    pub height: u32,
    /// Advance of one character cell.
    pub width: u32,
    pub ascent: u32,
    pub descent: u32,
}

impl FontMetrics {
    pub open spec fn wf(self) -> bool {
        self.height > 0 && self.width > 0
    }
}

/// The highest line index a viewport range may name in a buffer of `height` lines.
pub open spec fn last_index(height: int) -> int {
    if height > 0 {
        height - 1
    } else {
        0
    }
}

pub open spec fn min_int(a: int, b: int) -> int {
    if a < b {
        a
    } else {
        b
    }
}

/// The first line shown at vertical offset `scroll_y`.
pub open spec fn first_visible(scroll_y: int, line_height: int) -> int {
    scroll_y / line_height
}

/// The end of the shown range, before clamping to the buffer; the `+ 1`
/// covers a partly shown trailing line.
pub open spec fn raw_last_visible(scroll_y: int, viewport_height: int, line_height: int) -> int {
    (scroll_y + viewport_height) / line_height + 1
}

/// The end of the shown range, clamped to the buffer.
pub open spec fn last_visible(scroll_y: int, viewport_height: int, line_height: int, height: int) -> int {
    min_int(raw_last_visible(scroll_y, viewport_height, line_height), last_index(height))
}

/// The range `[first, last)` of lines shown by a viewport of `viewport_height`
/// at vertical offset `scroll_y`, in a buffer of `height` lines.
pub fn visible_range(scroll_y: u64, viewport_height: u64, line_height: u32, height: u64) -> (r: (u64, u64))
    requires
        line_height > 0,
    ensures
        r.0 == first_visible(scroll_y as int, line_height as int),
        r.1 == last_visible(scroll_y as int, viewport_height as int, line_height as int, height as int),
{
    let first = scroll_y / line_height as u64;
    let raw: u128 = (scroll_y as u128 + viewport_height as u128) / line_height as u128 + 1;
    let hi: u64 = if height > 0 {
        height - 1
    } else {
        0
    };
    let last = if raw < hi as u128 {
        raw as u64
    } else {
        hi
    };
    (first, last)
}

/// Scrolling down by one line height moves the first shown line by one, and
/// the end of the range by one until it reaches the last line of the buffer.
pub proof fn law_scroll_by_one_line(scroll_y: int, viewport_height: int, line_height: int, height: int)
    requires
        scroll_y >= 0,
        viewport_height >= 0,
        line_height > 0,
        height >= 0,
    ensures
        first_visible(scroll_y + line_height, line_height) == first_visible(scroll_y, line_height) + 1,
        last_visible(scroll_y + line_height, viewport_height, line_height, height) == min_int(
            last_visible(scroll_y, viewport_height, line_height, height) + 1,
            last_index(height),
        ),
{
    lemma_div_plus_one(scroll_y, line_height);
    assert(line_height + scroll_y == scroll_y + line_height);
    lemma_div_plus_one(scroll_y + viewport_height, line_height);
    assert(line_height + (scroll_y + viewport_height) == scroll_y + line_height + viewport_height);
}

/// The largest `u64`, as an integer.
pub open spec fn u64_max() -> int {
    0xffff_ffff_ffff_ffff
}

/// `v` held to `[0, hi]`.
pub open spec fn clamp(v: int, hi: int) -> int {
    if v < 0 {
        0
    } else if v > hi {
        hi
    } else {
        v
    }
}

/// The column under horizontal position `x`: the nearest cell boundary.
pub open spec fn cell_column(x: int, scroll_x: int, width: int) -> int {
    let sx = x + scroll_x;
    if sx <= 0 {
        0
    } else {
        clamp((2 * sx + width) / (2 * width), u64_max())
    }
}

/// The line under vertical position `y`, held to the buffer.
pub open spec fn cell_line(y: int, scroll_y: int, descent: int, line_height: int, height: int) -> int {
    let t = y + scroll_y - descent;
    let l = if t <= 0 {
        0
    } else {
        t / line_height
    };
    min_int(l, last_index(height))
}

/// The `(column, line)` cell under the point `(x, y)` of the drawing area.
pub fn px_to_cell(x: i64, y: i64, scroll_x: u64, scroll_y: u64, m: FontMetrics, height: u64) -> (r: (u64, u64))
    requires
        m.wf(),
    ensures
        r.0 == cell_column(x as int, scroll_x as int, m.width as int),
        r.1 == cell_line(y as int, scroll_y as int, m.descent as int, m.height as int, height as int),
{
    let sx: i128 = x as i128 + scroll_x as i128;
    let col: u64 = if sx <= 0 {
        0
    } else {
        let c: i128 = (2 * sx + m.width as i128) / (2 * m.width as i128);
        if c > 0xffff_ffff_ffff_ffffi128 {
            0xffff_ffff_ffff_ffffu64
        } else {
            c as u64
        }
    };
    let t: i128 = y as i128 + scroll_y as i128 - m.descent as i128;
    let l: i128 = if t <= 0 {
        0
    } else {
        t / m.height as i128
    };
    let hi: u64 = if height > 0 {
        height - 1
    } else {
        0
    };
    let line: u64 = if l < hi as i128 {
        l as u64
    } else {
        hi
    };
    (col, line)
}

/// The offset that brings `[lo, hi)` into a page of `page` at `value`: the
/// near edge when the span starts before the page, the far edge when it
/// ends after it, else unchanged.
pub open spec fn fit(value: int, page: int, lo: int, hi: int) -> int {
    if lo < value {
        lo
    } else if hi > value + page && page != 0 {
        hi - page
    } else {
        value
    }
}

/// One scroll axis: a page of `page_size` at offset `value` over `[0, upper)`.
#[derive(Clone, Copy, Debug, PartialEq, Eq, Structural)]
pub struct Adjustment {
    pub value: u64,
    pub page_size: u64,
    pub upper: u64,
}

impl Adjustment {
    /// The largest offset at which the page still lies within `[0, upper)`.
    pub open spec fn max_value(self) -> int {
        if self.upper > self.page_size {
            self.upper - self.page_size
        } else {
            0
        }
    }

    pub open spec fn wf(self) -> bool {
        self.value <= self.max_value()
    }

    /// An axis at offset zero.
    pub fn new(page_size: u64, upper: u64) -> (r: Adjustment)
        ensures
            r == (Adjustment { value: 0, page_size, upper }),
            r.wf(),
    {
        Adjustment { value: 0, page_size, upper }
    }

    fn max_offset(&self) -> (r: u64)
        ensures
            r == self.max_value(),
    {
        if self.upper > self.page_size {
            self.upper - self.page_size
        } else {
            0
        }
    }

    /// Moves to offset `v`, held within the axis.
    pub fn set_value(&mut self, v: u64)
        ensures
            final(self).value == clamp(v as int, old(self).max_value()),
            final(self).page_size == old(self).page_size,
            final(self).upper == old(self).upper,
            final(self).wf(),
    {
        let hi = self.max_offset();
        self.value = if v > hi {
            hi
        } else {
            v
        };
    }

    /// Sets the extent of the content, pulling the offset back within it.
    pub fn set_upper(&mut self, upper: u64)
        ensures
            final(self).upper == upper,
            final(self).page_size == old(self).page_size,
            final(self).value == clamp(old(self).value as int, final(self).max_value()),
            final(self).wf(),
    {
        self.upper = upper;
        let v = self.value;
        self.set_value(v);
    }

    /// Sets the size of the page, pulling the offset back within the axis.
    pub fn set_page_size(&mut self, page_size: u64)
        ensures
            final(self).page_size == page_size,
            final(self).upper == old(self).upper,
            final(self).value == clamp(old(self).value as int, final(self).max_value()),
            final(self).wf(),
    {
        self.page_size = page_size;
        let v = self.value;
        self.set_value(v);
    }

    /// Whether the page shows less than the whole content, so that the axis
    /// needs a scrollbar.
    pub fn needs_scrollbar(&self) -> (r: bool)
        ensures
            r == !(self.value == 0 && self.value + self.page_size >= self.upper),
    {
        !(self.value == 0 && self.value as u128 + self.page_size as u128 >= self.upper as u128)
    }

    /// Moves the offset by the least amount that shows `[lo, hi)`, as `fit`
    /// says, held within the axis.
    pub fn fit_span(&mut self, lo: i128, hi: i128)
        ensures
            final(self).value == clamp(
                fit(old(self).value as int, old(self).page_size as int, lo as int, hi as int),
                old(self).max_value(),
            ),
            final(self).page_size == old(self).page_size,
            final(self).upper == old(self).upper,
            final(self).wf(),
    {
        let value = self.value as i128;
        let page = self.page_size as i128;
        let target: i128 = if lo < value {
            lo
        } else if hi > value + page && page != 0 {
            hi - page
        } else {
            value
        };
        let top = self.max_offset();
        self.value = if target < 0 {
            0
        } else if target > top as i128 {
            top
        } else {
            target as u64
        };
    }
}

} // verus!
