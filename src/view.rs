//! The state of one editor view: its line cache, font metrics and scroll
//! axes, and what it does on updates, scrolls, resizes and pointer events.

use vstd::prelude::*;
use crate::cache::LineCache;
use crate::script::{Op, ProtocolError, replay, replay_outcome};
use crate::sync::{LineRequest, recompute, sync_commands};
use crate::viewport::{
    Adjustment, FontMetrics, clamp, first_visible, last_visible, px_to_cell, cell_column, cell_line,
    fit, u64_max,
};

verus! {

/// Columns assumed for the width of the text until line widths are known.
pub const ASSUMED_TEXT_COLUMNS: u64 = 100;

/// The lines scrolled per wheel step.
pub const LINES_PER_WHEEL_STEP: u64 = 3;

/// A wheel or touchpad scroll step.
#[derive(Clone, Copy, Debug, PartialEq, Eq, Structural)]
pub enum ScrollDirection {
    Up,
    Down,
    Left,
    Right,
    Smooth,
}

/// One editor view.
pub struct EditView {
    pub view_id: String,
    pub file_name: Option<String>,
    /// Whether the buffer has no unsaved change.
    pub pristine: bool,
    pub line_cache: LineCache,
    pub metrics: FontMetrics,
    /// The vertical scroll axis.
    pub vadj: Adjustment,
    /// The horizontal scroll axis.
    pub hadj: Adjustment,
    /// The size of the drawing area.
    pub da_width: u64,
    pub da_height: u64,
}

proof fn lemma_mul_bound(a: int, b: int)
    requires
        0 <= a <= 0x1_0000_0000_0000_0000,
        0 <= b <= 0xffff_ffff,
    ensures
        0 <= a * b <= 0x1_0000_0000_0000_0000 * 0xffff_ffff,
        a * b == b * a,
{
    assert(0 <= a * b <= 0x1_0000_0000_0000_0000 * 0xffff_ffff) by (nonlinear_arith)
        requires
            0 <= a <= 0x1_0000_0000_0000_0000,
            0 <= b <= 0xffff_ffff,
    ;
    assert(a * b == b * a) by (nonlinear_arith);
}

/// The height of the content: every line, and the descent below the last,
/// but no less than the drawing area.
pub open spec fn text_height(n_lines: int, m: FontMetrics, da_height: int) -> int {
    let all = n_lines * m.height + m.descent;
    clamp(if da_height > all { da_height } else { all }, u64_max())
}

/// The width of the content, no less than the drawing area.
pub open spec fn text_width(m: FontMetrics, da_width: int) -> int {
    let all = ASSUMED_TEXT_COLUMNS * m.width;
    if da_width > all {
        da_width
    } else {
        all
    }
}

/// What follows the last `/` of a path; the whole path where it has none.
pub open spec fn last_component(p: Seq<char>) -> Seq<char>
    decreases p.len(),
{
    if p.len() == 0 {
        p
    } else if p.last() == '/' {
        Seq::empty()
    } else {
        last_component(p.drop_last()).push(p.last())
    }
}

/// The tab title: the file's name, or "Untitled", marked with `*` while
/// the buffer has unsaved changes.
pub open spec fn title_of(file_name: Option<String>, pristine: bool) -> Seq<char> {
    let base = match file_name {
        Some(f) => last_component(f@),
        None => "Untitled"@,
    };
    if pristine {
        base
    } else {
        seq!['*'] + base
    }
}

/// Relies on `str::rsplit`: its first item is the text after the last `/`,
/// or the whole text where there is none.
#[verifier::external_body]
fn after_last_slash(s: &str) -> (r: &str)
    ensures
        r@ == last_component(s@),
{
    s.rsplit('/').next().unwrap_or(s)
}

impl EditView {
    /// The title of the view's tab.
    pub fn title(&self) -> (r: String)
        ensures
            r@ == title_of(self.file_name, self.pristine),
    {
        proof {
            reveal_strlit("Untitled");
            reveal_strlit("*");
        }
        let base: &str = match &self.file_name {
            Some(f) => after_last_slash(f.as_str()),
            None => "Untitled",
        };
        if self.pristine {
            base.to_owned()
        } else {
            let star = String::from_str("*");
            let r = star.concat(base);
            assert(r@ =~= seq!['*'] + base@);
            r
        }
    }

    pub open spec fn wf(&self) -> bool {
        &&& self.metrics.wf()
        &&& self.vadj.wf()
        &&& self.hadj.wf()
    }

    /// A view with an empty cache, unit font metrics and no drawing area yet.
    pub fn new(view_id: String, file_name: Option<String>) -> (r: EditView)
        ensures
            r.wf(),
            r.view_id == view_id,
            r.file_name == file_name,
            r.pristine,
            r.line_cache.view().len() == 0,
            r.metrics == (FontMetrics { height: 1, width: 1, ascent: 1, descent: 1 }),
            r.vadj == (Adjustment { value: 0, page_size: 0, upper: 0 }),
            r.hadj == (Adjustment { value: 0, page_size: 0, upper: 0 }),
    {
        EditView {
            view_id,
            file_name,
            pristine: true,
            line_cache: LineCache::new(),
            metrics: FontMetrics { height: 1, width: 1, ascent: 1, descent: 1 },
            vadj: Adjustment::new(0, 0),
            hadj: Adjustment::new(0, 0),
            da_width: 0,
            da_height: 0,
        }
    }

    /// The view's line cache.
    pub fn line_cache(&self) -> (r: &LineCache)
        ensures
            *r == self.line_cache,
    {
        &self.line_cache
    }

    /// The view's font metrics.
    pub fn font_metrics(&self) -> (r: FontMetrics)
        ensures
            r == self.metrics,
    {
        self.metrics
    }

    /// Sets the font metrics, as measured by the drawing layer.
    pub fn set_font_metrics(&mut self, m: FontMetrics)
        requires
            old(self).wf(),
            m.wf(),
        ensures
            final(self).wf(),
            final(self).metrics == m,
            final(self).line_cache == old(self).line_cache,
            final(self).vadj == old(self).vadj,
            final(self).hadj == old(self).hadj,
            final(self).pristine == old(self).pristine,
            final(self).da_height == old(self).da_height,
    {
        self.metrics = m;
    }

    /// Records the file the view shows.
    pub fn set_file(&mut self, file_name: String)
        ensures
            final(self).file_name == Some(file_name),
            final(self).view_id == old(self).view_id,
            final(self).pristine == old(self).pristine,
            final(self).line_cache == old(self).line_cache,
            final(self).metrics == old(self).metrics,
            final(self).vadj == old(self).vadj,
            final(self).hadj == old(self).hadj,
    {
        self.file_name = Some(file_name);
    }

    /// The `(width, height)` of the content, as the scroll axes span it.
    pub fn text_size(&self) -> (r: (u64, u64))
        requires
            self.wf(),
        ensures
            r.0 == text_width(self.metrics, self.da_width as int),
            r.1 == text_height(self.line_cache.view().len() as int, self.metrics, self.da_height as int),
    {
        let n = self.line_cache.height();
        let fh = self.metrics.height;
        proof {
            lemma_mul_bound(n as int, fh as int);
        }
        let all_h: u128 = n as u128 * fh as u128 + self.metrics.descent as u128;
        let h: u128 = if self.da_height as u128 > all_h {
            self.da_height as u128
        } else {
            all_h
        };
        let height: u64 = if h > 0xffff_ffff_ffff_ffffu128 {
            0xffff_ffff_ffff_ffffu64
        } else {
            h as u64
        };
        let all_w: u64 = ASSUMED_TEXT_COLUMNS * self.metrics.width as u64;
        let width = if self.da_width > all_w {
            self.da_width
        } else {
            all_w
        };
        (width, height)
    }

    /// Applies one update from the backend: replays `ops` against the cache,
    /// stretches the scroll axes over the new content, and records the
    /// saved state where the update gives it.
    pub fn update(&mut self, ops: Vec<Op>, pristine: Option<bool>) -> (r: Result<(), ProtocolError>)
        requires
            old(self).wf(),
        ensures
            final(self).wf(),
            final(self).line_cache.view() == replay(old(self).line_cache.view(), ops@),
            r == replay_outcome(old(self).line_cache.view(), ops@),
            final(self).pristine == match pristine {
                Some(p) => p,
                None => old(self).pristine,
            },
            final(self).metrics == old(self).metrics,
            final(self).vadj.upper == text_height(
                final(self).line_cache.view().len() as int,
                old(self).metrics,
                old(self).da_height as int,
            ),
            final(self).vadj.page_size == old(self).vadj.page_size,
            final(self).vadj.value == clamp(old(self).vadj.value as int, final(self).vadj.max_value()),
            final(self).hadj.upper == text_width(old(self).metrics, old(self).da_width as int),
            final(self).hadj.page_size == old(self).hadj.page_size,
            final(self).hadj.value == clamp(old(self).hadj.value as int, final(self).hadj.max_value()),
            final(self).view_id == old(self).view_id,
            final(self).file_name == old(self).file_name,
            final(self).da_width == old(self).da_width,
            final(self).da_height == old(self).da_height,
    {
        let r = self.line_cache.apply_update(ops);
        let (w, h) = self.text_size();
        self.vadj.set_upper(h);
        self.hadj.set_upper(w);
        match pristine {
            Some(p) => {
                self.pristine = p;
            },
            None => {},
        }
        r
    }

    /// The commands for the backend after a scroll, resize or update: the
    /// shown range when a line of it is missing, then the shown range.
    pub fn handle_draw(&self) -> (r: Vec<LineRequest>)
        requires
            self.wf(),
        ensures
            r@ == sync_commands(
                self.line_cache.view(),
                first_visible(self.vadj.value as int, self.metrics.height as int),
                last_visible(
                    self.vadj.value as int,
                    self.da_height as int,
                    self.metrics.height as int,
                    self.line_cache.view().len() as int,
                ),
            ),
    {
        recompute(&self.line_cache, self.vadj.value, self.da_height, self.metrics.height)
    }

    /// Takes the new size of the drawing area; the axes' pages follow it.
    pub fn da_size_allocate(&mut self, width: u64, height: u64) -> (r: Vec<LineRequest>)
        requires
            old(self).wf(),
        ensures
            final(self).wf(),
            final(self).da_width == width,
            final(self).da_height == height,
            final(self).vadj.page_size == height,
            final(self).vadj.upper == old(self).vadj.upper,
            final(self).vadj.value == clamp(old(self).vadj.value as int, final(self).vadj.max_value()),
            final(self).hadj.page_size == width,
            final(self).hadj.upper == old(self).hadj.upper,
            final(self).hadj.value == clamp(old(self).hadj.value as int, final(self).hadj.max_value()),
            final(self).line_cache == old(self).line_cache,
            final(self).metrics == old(self).metrics,
            final(self).pristine == old(self).pristine,
            r@ == sync_commands(
                old(self).line_cache.view(),
                first_visible(final(self).vadj.value as int, old(self).metrics.height as int),
                last_visible(
                    final(self).vadj.value as int,
                    height as int,
                    old(self).metrics.height as int,
                    old(self).line_cache.view().len() as int,
                ),
            ),
    {
        self.da_width = width;
        self.da_height = height;
        self.vadj.set_page_size(height);
        self.hadj.set_page_size(width);
        self.handle_draw()
    }

    /// Moves the vertical axis to `value`, held within it.
    pub fn vscrollbar_change_value(&mut self, value: u64) -> (r: Vec<LineRequest>)
        requires
            old(self).wf(),
        ensures
            final(self).wf(),
            final(self).vadj.value == clamp(value as int, old(self).vadj.max_value()),
            final(self).vadj.page_size == old(self).vadj.page_size,
            final(self).vadj.upper == old(self).vadj.upper,
            final(self).hadj == old(self).hadj,
            final(self).line_cache == old(self).line_cache,
            final(self).metrics == old(self).metrics,
            final(self).pristine == old(self).pristine,
            final(self).da_height == old(self).da_height,
            r@ == sync_commands(
                old(self).line_cache.view(),
                first_visible(final(self).vadj.value as int, old(self).metrics.height as int),
                last_visible(
                    final(self).vadj.value as int,
                    old(self).da_height as int,
                    old(self).metrics.height as int,
                    old(self).line_cache.view().len() as int,
                ),
            ),
    {
        self.vadj.set_value(value);
        self.handle_draw()
    }

    /// Scrolls by three line heights in `dir`; a smooth scroll moves nothing.
    pub fn handle_scroll(&mut self, dir: ScrollDirection) -> (r: Vec<LineRequest>)
        requires
            old(self).wf(),
        ensures
            final(self).wf(),
            ({
                let amt = LINES_PER_WHEEL_STEP * old(self).metrics.height;
                let v = old(self).vadj.value as int;
                let h = old(self).hadj.value as int;
                &&& final(self).vadj.value == match dir {
                    ScrollDirection::Up => clamp(v - amt, old(self).vadj.max_value()),
                    ScrollDirection::Down => clamp(v + amt, old(self).vadj.max_value()),
                    _ => v,
                }
                &&& final(self).hadj.value == match dir {
                    ScrollDirection::Left => clamp(h - amt, old(self).hadj.max_value()),
                    ScrollDirection::Right => clamp(h + amt, old(self).hadj.max_value()),
                    _ => h,
                }
            }),
            final(self).vadj.page_size == old(self).vadj.page_size,
            final(self).vadj.upper == old(self).vadj.upper,
            final(self).hadj.page_size == old(self).hadj.page_size,
            final(self).hadj.upper == old(self).hadj.upper,
            final(self).line_cache == old(self).line_cache,
            final(self).metrics == old(self).metrics,
            final(self).da_height == old(self).da_height,
            r@ == sync_commands(
                old(self).line_cache.view(),
                first_visible(final(self).vadj.value as int, old(self).metrics.height as int),
                last_visible(
                    final(self).vadj.value as int,
                    old(self).da_height as int,
                    old(self).metrics.height as int,
                    old(self).line_cache.view().len() as int,
                ),
            ),
    {
        let amt: u64 = LINES_PER_WHEEL_STEP * self.metrics.height as u64;
        match dir {
            ScrollDirection::Up => {
                let v = self.vadj.value;
                self.vadj.set_value(if v > amt { v - amt } else { 0 });
            },
            ScrollDirection::Down => {
                let v = self.vadj.value;
                self.vadj.set_value(if v > u64::MAX - amt { u64::MAX } else { v + amt });
            },
            ScrollDirection::Left => {
                let h = self.hadj.value;
                self.hadj.set_value(if h > amt { h - amt } else { 0 });
            },
            ScrollDirection::Right => {
                let h = self.hadj.value;
                self.hadj.set_value(if h > u64::MAX - amt { u64::MAX } else { h + amt });
            },
            ScrollDirection::Smooth => {},
        }
        self.handle_draw()
    }

    /// Scrolls the least amount that shows the cell at `(line, col)`.
    pub fn scroll_to(&mut self, line: u64, col: u64)
        requires
            old(self).wf(),
        ensures
            final(self).wf(),
            ({
                let m = old(self).metrics;
                let top = m.height * (line + 1) - m.ascent;
                let left = m.width * col - m.ascent;
                &&& final(self).vadj.value == clamp(
                    fit(old(self).vadj.value as int, old(self).vadj.page_size as int, top, top + m.ascent + m.descent),
                    old(self).vadj.max_value(),
                )
                &&& final(self).hadj.value == clamp(
                    fit(old(self).hadj.value as int, old(self).hadj.page_size as int, left, left + 2 * m.width),
                    old(self).hadj.max_value(),
                )
            }),
            final(self).vadj.page_size == old(self).vadj.page_size,
            final(self).vadj.upper == old(self).vadj.upper,
            final(self).hadj.page_size == old(self).hadj.page_size,
            final(self).hadj.upper == old(self).hadj.upper,
            final(self).line_cache == old(self).line_cache,
            final(self).metrics == old(self).metrics,
            final(self).da_height == old(self).da_height,
    {
        let m = self.metrics;
        proof {
            lemma_mul_bound(line as int + 1, m.height as int);
            lemma_mul_bound(col as int, m.width as int);
        }
        let top: i128 = m.height as i128 * (line as i128 + 1) - m.ascent as i128;
        let bottom: i128 = top + m.ascent as i128 + m.descent as i128;
        self.vadj.fit_span(top, bottom);
        let left: i128 = m.width as i128 * col as i128 - m.ascent as i128;
        let right: i128 = left + 2 * m.width as i128;
        self.hadj.fit_span(left, right);
    }

    /// The `(column, line)` cell under the point `(x, y)` of the drawing area.
    pub fn da_px_to_cell(&self, x: i64, y: i64) -> (r: (u64, u64))
        requires
            self.wf(),
        ensures
            r.0 == cell_column(x as int, self.hadj.value as int, self.metrics.width as int),
            r.1 == cell_line(
                y as int,
                self.vadj.value as int,
                self.metrics.descent as int,
                self.metrics.height as int,
                self.line_cache.view().len() as int,
            ),
    {
        px_to_cell(x, y, self.hadj.value, self.vadj.value, self.metrics, self.line_cache.height())
    }
}

} // verus!
