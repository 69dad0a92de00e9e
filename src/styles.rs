//! Styles: the table of style definitions, and the decoding of a line's
//! delta-encoded spans into absolute ranges.

use vstd::prelude::*;
use std::collections::HashMap;
use crate::line::StyleSpan;
use crate::viewport::clamp;

verus! {

broadcast use vstd::std_specs::hash::group_hash_axioms;

/// The attributes of one style; an absent attribute keeps the default.
#[derive(Clone, Copy, Debug, PartialEq, Eq, Structural)]
pub struct LineStyle {
    /// Foreground colour as `0xAARRGGBB`.
    pub fg_color: Option<u32>,
    /// Background colour as `0xAARRGGBB`.
    pub bg_color: Option<u32>,
    pub weight: Option<u16>,
    pub italic: Option<bool>,
    pub underline: Option<bool>,
}

/// The style id reserved for the selection.
pub const SELECTION_STYLE: u64 = 0;

/// The styles the backend has defined, by id. The selection style is always
/// defined.
pub struct StyleTable {
    styles: HashMap<u64, LineStyle>,
}

impl StyleTable {
    pub closed spec fn view(&self) -> Map<u64, LineStyle> {
        self.styles@
    }

    pub open spec fn wf(&self) -> bool {
        self.view().contains_key(SELECTION_STYLE)
    }

    /// A table holding only the selection style.
    pub fn new(selection: LineStyle) -> (r: StyleTable)
        ensures
            r.view() == Map::<u64, LineStyle>::empty().insert(SELECTION_STYLE, selection),
            r.wf(),
    {
        let mut styles: HashMap<u64, LineStyle> = HashMap::new();
        styles.insert(SELECTION_STYLE, selection);
        StyleTable { styles }
    }

    /// Defines style `id`, replacing an earlier definition.
    pub fn define(&mut self, id: u64, style: LineStyle)
        requires
            old(self).wf(),
        ensures
            final(self).view() == old(self).view().insert(id, style),
            final(self).wf(),
    {
        self.styles.insert(id, style);
    }

    /// The definition of style `id`, if any.
    pub fn get(&self, id: u64) -> (r: Option<LineStyle>)
        ensures
            r == if self.view().contains_key(id) {
                Some(self.view()[id])
            } else {
                None::<LineStyle>
            },
    {
        match self.styles.get(&id) {
            Some(s) => Some(*s),
            None => None,
        }
    }
}

/// A style span as a range of columns of its line.
#[derive(Clone, Copy, Debug, PartialEq, Eq, Structural)]
pub struct AbsStyle {
    pub id: u64,
    pub start: u64,
    pub len: u64,
}

/// Where span `k` starts, before clamping, is `start` past the end of span
/// `k - 1`; every start and end is then held to `[0, line_len]`, so that a
/// malformed span list still gives ranges within the line.
pub open spec fn span_end(spans: Seq<StyleSpan>, line_len: int, k: int) -> int
    decreases k, 0int,
{
    if k <= 0 {
        0
    } else {
        let s = span_start(spans, line_len, k - 1);
        clamp(s + spans[k - 1].len, line_len)
    }
}

/// The clamped start of span `k`.
pub open spec fn span_start(spans: Seq<StyleSpan>, line_len: int, k: int) -> int
    decreases k, 1int,
{
    clamp(span_end(spans, line_len, k) + spans[k].start, line_len)
}

/// Span `k` as an absolute range.
pub open spec fn abs_span(spans: Seq<StyleSpan>, line_len: int, k: int) -> AbsStyle {
    let s = span_start(spans, line_len, k);
    AbsStyle {
        id: spans[k].id,
        start: s as u64,
        len: (clamp(s + spans[k].len, line_len) - s) as u64,
    }
}

/// The spans of a line of `line_len` columns as absolute ranges, in order.
pub fn abs_styles(spans: &Vec<StyleSpan>, line_len: u64) -> (r: Vec<AbsStyle>)
    ensures
        r@.len() == spans@.len(),
        forall|k: int| 0 <= k < spans@.len() ==> r@[k] == abs_span(spans@, line_len as int, k),
        forall|k: int| 0 <= k < spans@.len() ==> r@[k].start + r@[k].len <= line_len,
{
    let mut r: Vec<AbsStyle> = Vec::new();
    let mut pos: u64 = 0;
    let mut k: usize = 0;
    while k < spans.len()
        invariant
            k <= spans@.len(),
            r@.len() == k,
            pos <= line_len,
            pos == span_end(spans@, line_len as int, k as int),
            forall|t: int| 0 <= t < k ==> r@[t] == abs_span(spans@, line_len as int, t),
            forall|t: int| 0 <= t < k ==> r@[t].start + r@[t].len <= line_len,
        decreases spans@.len() - k,
    {
        let sp = spans[k];
        let raw: i128 = pos as i128 + sp.start as i128;
        let start: u64 = if raw < 0 {
            0
        } else if raw > line_len as i128 {
            line_len
        } else {
            raw as u64
        };
        let end_raw: u128 = start as u128 + sp.len as u128;
        let end: u64 = if end_raw > line_len as u128 {
            line_len
        } else {
            end_raw as u64
        };
        assert(start == span_start(spans@, line_len as int, k as int));
        r.push(AbsStyle { id: sp.id, start, len: end - start });
        pos = end;
        k += 1;
    }
    r
}

/// The theme's colours, as `0xAARRGGBB`.
#[derive(Clone, Copy, Debug, PartialEq, Eq, Structural)]
pub struct ThemeColors {
    pub background: u32,
    pub foreground: u32,
    pub selection: u32,
    pub selection_foreground: u32,
    pub caret: u32,
}

/// The background of a span of style `id`: the style's own where it defines
/// one, else the selection's for the selection style, else the theme's.
pub open spec fn background_of(styles: Map<u64, LineStyle>, id: u64, theme: ThemeColors) -> u32 {
    if styles.contains_key(id) && styles[id].bg_color is Some {
        styles[id].bg_color->0
    } else if id == SELECTION_STYLE {
        theme.selection
    } else {
        theme.background
    }
}

/// The foreground of a span of style `id`, chosen as its background is.
pub open spec fn foreground_of(styles: Map<u64, LineStyle>, id: u64, theme: ThemeColors) -> u32 {
    if styles.contains_key(id) && styles[id].fg_color is Some {
        styles[id].fg_color->0
    } else if id == SELECTION_STYLE {
        theme.selection_foreground
    } else {
        theme.foreground
    }
}

impl StyleTable {
    /// The `(background, foreground)` colours of a span of style `id`.
    pub fn span_colors(&self, id: u64, theme: ThemeColors) -> (r: (u32, u32))
        ensures
            r.0 == background_of(self.view(), id, theme),
            r.1 == foreground_of(self.view(), id, theme),
    {
        let style = self.get(id);
        let bg = match style {
            Some(LineStyle { bg_color: Some(c), .. }) => c,
            _ => if id == SELECTION_STYLE {
                theme.selection
            } else {
                theme.background
            },
        };
        let fg = match style {
            Some(LineStyle { fg_color: Some(c), .. }) => c,
            _ => if id == SELECTION_STYLE {
                theme.selection_foreground
            } else {
                theme.foreground
            },
        };
        (bg, fg)
    }
}

} // verus!
