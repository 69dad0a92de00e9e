use gxi::cache::LineCache;
use gxi::line::Line;
use gxi::script::Op;
use gxi::sync::{recompute, has_missing, LineRequest};
use gxi::viewport::{visible_range, px_to_cell, Adjustment, FontMetrics};
use gxi::view::{EditView, ScrollDirection};

fn populated(n: usize) -> LineCache {
    let mut c = LineCache::new();
    let lines = (0..n).map(|i| Line::new(format!("{}", i), Vec::new(), Vec::new())).collect();
    c.apply_update(vec![Op::Insert(lines)]).unwrap();
    c
}

#[test]
fn top_of_buffer_range() {
    assert_eq!(visible_range(0, 40, 10, 100), (0, 5));
    assert_eq!(visible_range(0, 40, 10, 3), (0, 2));
}

#[test]
fn range_shifts_by_one_per_line_height() {
    let (f0, l0) = visible_range(25, 40, 10, 100);
    let (f1, l1) = visible_range(35, 40, 10, 100);
    assert_eq!((f1, l1), (f0 + 1, l0 + 1));
    // clamped at the last line of the buffer
    assert_eq!(visible_range(60, 40, 10, 10), (6, 9));
    assert_eq!(visible_range(70, 40, 10, 10), (7, 9));
}

#[test]
fn empty_buffer_range() {
    assert_eq!(visible_range(0, 40, 10, 0), (0, 0));
}

#[test]
fn missing_line_triggers_one_full_request() {
    let mut c = populated(10);
    c.apply_update(vec![Op::Copy(2), Op::Skip(1), Op::Invalidate(1), Op::Copy(7)]).unwrap();
    assert!(has_missing(&c, 0, 5));
    assert!(!has_missing(&c, 3, 5));
    let cmds = recompute(&c, 0, 40, 10);
    assert_eq!(
        cmds,
        vec![
            LineRequest::RequestLines { first: 0, last: 5 },
            LineRequest::Scroll { first: 0, last: 5 },
        ]
    );
}

#[test]
fn no_request_when_range_known() {
    let c = populated(10);
    assert_eq!(recompute(&c, 10, 20, 10), vec![LineRequest::Scroll { first: 1, last: 4 }]);
}

#[test]
fn pixel_to_cell_mapping() {
    let m = FontMetrics { height: 10, width: 8, ascent: 7, descent: 3 };
    // column rounds to the nearest boundary
    assert_eq!(px_to_cell(11, 0, 0, 0, m, 100), (1, 0));
    assert_eq!(px_to_cell(12, 0, 0, 0, m, 100), (2, 0));
    assert_eq!(px_to_cell(-20, -20, 0, 0, m, 100), (0, 0));
    // line subtracts the descent and is clamped to the buffer
    assert_eq!(px_to_cell(0, 23, 0, 0, m, 100), (0, 2));
    assert_eq!(px_to_cell(0, 13, 0, 10, m, 100), (0, 2));
    assert_eq!(px_to_cell(0, 5000, 0, 0, m, 4), (0, 3));
    assert_eq!(px_to_cell(4, 0, 16, 0, m, 4), (3, 0));
}

#[test]
fn adjustment_clamps() {
    let mut a = Adjustment::new(40, 100);
    a.set_value(500);
    assert_eq!(a.value, 60);
    a.set_upper(50);
    assert_eq!(a.value, 10);
    a.set_page_size(80);
    assert_eq!(a.value, 0);
}

#[test]
fn edit_view_update_and_scroll() {
    let mut v = EditView::new("view-id-1".to_string(), None);
    v.set_font_metrics(FontMetrics { height: 10, width: 8, ascent: 7, descent: 3 });
    let cmds = v.da_size_allocate(80, 40);
    assert_eq!(cmds, vec![LineRequest::Scroll { first: 0, last: 0 }]);
    let r = v.update(vec![Op::Invalidate(20)], Some(false));
    assert_eq!(r, Ok(()));
    assert!(!v.pristine);
    // 20 lines of 10 plus a descent of 3
    assert_eq!(v.vadj.upper, 203);
    assert_eq!(v.hadj.upper, 800);
    let cmds = v.handle_scroll(ScrollDirection::Down);
    assert_eq!(v.vadj.value, 30);
    assert_eq!(
        cmds,
        vec![
            LineRequest::RequestLines { first: 3, last: 8 },
            LineRequest::Scroll { first: 3, last: 8 },
        ]
    );
    v.handle_scroll(ScrollDirection::Up);
    v.handle_scroll(ScrollDirection::Up);
    assert_eq!(v.vadj.value, 0);
    assert_eq!(v.da_px_to_cell(9, 14), (1, 1));
}

#[test]
fn scroll_to_fits_cell() {
    let mut v = EditView::new("v".to_string(), Some("/tmp/a.txt".to_string()));
    v.set_font_metrics(FontMetrics { height: 10, width: 8, ascent: 7, descent: 3 });
    v.da_size_allocate(80, 40);
    assert_eq!(v.update(vec![Op::Invalidate(100)], None), Ok(()));
    // line 10 spans [103, 113): scrolled so its bottom meets the page's
    v.scroll_to(10, 0);
    assert_eq!(v.vadj.value, 73);
    // line 2 spans [23, 33): scrolled so its top meets the page's
    v.scroll_to(2, 0);
    assert_eq!(v.vadj.value, 23);
    // already shown: unchanged
    v.scroll_to(3, 0);
    assert_eq!(v.vadj.value, 23);
}
