//! The viewport synchronizer: on every recompute it asks the backend for the
//! shown range when some line of it is not known, and always reports the
//! shown range so that the backend can keep the lines near it.

use vstd::prelude::*;
use crate::cache::{LineCache, line_at};
use crate::viewport::{first_visible, last_visible, visible_range, u64_max};

verus! {

/// A command to the backend about the lines of one view.
#[derive(Clone, Copy, Debug, PartialEq, Eq, Structural)]
pub enum LineRequest {
    /// Send the lines `[first, last)`.
    RequestLines { first: u64, last: u64 },
    /// The lines `[first, last)` are the ones shown now.
    Scroll { first: u64, last: u64 },
}

/// Whether some line of `[first, last)` is not known in `cache`.
pub open spec fn range_has_missing(cache: Seq<crate::cache::Slot>, first: int, last: int) -> bool {
    exists|i: int| first <= i < last && #[trigger] line_at(cache, i) is None
}

/// The commands that one recompute sends for the shown range `[first, last)`.
pub open spec fn sync_commands(cache: Seq<crate::cache::Slot>, first: int, last: int) -> Seq<LineRequest> {
    let scroll = LineRequest::Scroll { first: first as u64, last: last as u64 };
    if range_has_missing(cache, first, last) {
        seq![LineRequest::RequestLines { first: first as u64, last: last as u64 }, scroll]
    } else {
        seq![scroll]
    }
}

/// Whether some line of `[first, last)` is not known.
pub fn has_missing(cache: &LineCache, first: u64, last: u64) -> (r: bool)
    ensures
        r == range_has_missing(cache.view(), first as int, last as int),
{
    let mut i = first;
    while i < last
        invariant
            first <= i,
            forall|j: int| first <= j < i ==> #[trigger] line_at(cache.view(), j) is Some,
        decreases last - i,
    {
        if cache.get_line(i).is_none() {
            return true;
        }
        i += 1;
    }
    false
}

/// The commands for a viewport of `viewport_height` at offset `scroll_y`:
/// one request for the whole shown range where a line of it is missing, then
/// the report of the shown range.
pub fn recompute(cache: &LineCache, scroll_y: u64, viewport_height: u64, line_height: u32) -> (r: Vec<LineRequest>)
    requires
        line_height > 0,
    ensures
        r@ == sync_commands(
            cache.view(),
            first_visible(scroll_y as int, line_height as int),
            last_visible(scroll_y as int, viewport_height as int, line_height as int, cache.view().len() as int),
        ),
{
    let (first, last) = visible_range(scroll_y, viewport_height, line_height, cache.height());
    let mut r: Vec<LineRequest> = Vec::new();
    if has_missing(cache, first, last) {
        r.push(LineRequest::RequestLines { first, last });
    }
    r.push(LineRequest::Scroll { first, last });
    assert(r@ =~= sync_commands(cache.view(), first as int, last as int));
    r
}

/// Where a line of the shown range is missing, one recompute sends exactly one
/// request, and it covers the whole shown range; otherwise it sends none.
pub proof fn law_one_request_for_the_whole_range(cache: Seq<crate::cache::Slot>, first: int, last: int)
    requires
        0 <= first <= u64_max(),
        0 <= last <= u64_max(),
    ensures
        ({
            let cmds = sync_commands(cache, first, last);
            let requests = cmds.filter(|c: LineRequest| c is RequestLines);
            &&& range_has_missing(cache, first, last) ==> requests == seq![
                LineRequest::RequestLines { first: first as u64, last: last as u64 },
            ]
            &&& !range_has_missing(cache, first, last) ==> requests.len() == 0
            &&& cmds.last() == (LineRequest::Scroll { first: first as u64, last: last as u64 })
        }),
{
    let cmds = sync_commands(cache, first, last);
    let f = |c: LineRequest| c is RequestLines;
    let scroll = LineRequest::Scroll { first: first as u64, last: last as u64 };
    let req = LineRequest::RequestLines { first: first as u64, last: last as u64 };
    reveal_with_fuel(Seq::filter, 3);
    if range_has_missing(cache, first, last) {
        assert(cmds.drop_last() =~= seq![req]);
        assert(seq![req].drop_last() =~= Seq::<LineRequest>::empty());
        assert(cmds.filter(f) =~= seq![req]);
    } else {
        assert(cmds.drop_last() =~= Seq::<LineRequest>::empty());
    }
}

} // verus!
