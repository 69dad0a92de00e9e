use gxi::cache::{LineCache, Slot};
use gxi::line::{Line, Restyle, StyleSpan};
use gxi::script::{Op, ProtocolError};

fn line(t: &str) -> Line {
    Line::new(t.to_string(), Vec::new(), Vec::new())
}

fn texts(c: &LineCache) -> Vec<Option<String>> {
    (0..c.height()).map(|i| c.get_line(i).map(|l| l.text().to_string())).collect()
}

fn cache_of(ts: &[&str]) -> LineCache {
    let mut c = LineCache::new();
    let r = c.apply_update(vec![Op::Insert(ts.iter().map(|t| line(t)).collect())]);
    assert_eq!(r, Ok(()));
    c
}

#[test]
fn copy_insert_skip_copy_scenario() {
    let mut c = cache_of(&["a", "b", "c", "d", "e"]);
    let r = c.apply_update(vec![
        Op::Copy(2),
        Op::Insert(vec![line("X")]),
        Op::Skip(1),
        Op::Copy(2),
    ]);
    assert_eq!(r, Ok(()));
    let want: Vec<Option<String>> = ["a", "b", "X", "d", "e"].iter().map(|s| Some(s.to_string())).collect();
    assert_eq!(texts(&c), want);
}

#[test]
fn update_of_invalid_slot_stays_invalid() {
    let mut c = LineCache::new();
    assert_eq!(c.apply_update(vec![Op::Invalidate(1)]), Ok(()));
    let r = c.apply_update(vec![Op::Update(vec![Restyle { styles: Vec::new(), cursor: vec![0] }])]);
    assert_eq!(r, Err(ProtocolError::RestyleOfInvalid));
    assert_eq!(c.height(), 1);
    assert!(c.get_line(0).is_none());
    assert!(matches!(c.slots()[0], Slot::Invalid));
}

#[test]
fn copy_of_whole_cache_is_identity() {
    let mut c = cache_of(&["one\n", "two\n", "three"]);
    let before = texts(&c);
    assert_eq!(c.apply_update(vec![Op::Copy(3)]), Ok(()));
    assert_eq!(texts(&c), before);
}

#[test]
fn update_keeps_text_and_replaces_styles() {
    let mut c = cache_of(&["ab", "cd"]);
    let span = StyleSpan { id: 2, start: 0, len: 1 };
    let r = c.apply_update(vec![
        Op::Copy(1),
        Op::Update(vec![Restyle { styles: vec![span], cursor: vec![1] }]),
    ]);
    assert_eq!(r, Ok(()));
    let l = c.get_line(1).unwrap();
    assert_eq!(l.text(), "cd");
    assert_eq!(l.styles, vec![span]);
    assert_eq!(l.cursor(), &vec![1u64]);
    assert_eq!(c.get_line(0).unwrap().text(), "ab");
}

#[test]
fn underrun_is_reported_and_length_follows_script() {
    let mut c = cache_of(&["a", "b", "c"]);
    let r = c.apply_update(vec![Op::Copy(1), Op::Invalidate(4)]);
    assert_eq!(r, Err(ProtocolError::Underrun));
    assert_eq!(c.height(), 5);
    assert_eq!(c.get_line(0).unwrap().text(), "a");
    assert!(c.get_line(1).is_none());
}

#[test]
fn overrun_is_reported_and_missing_lines_are_invalid() {
    let mut c = cache_of(&["a", "b"]);
    let r = c.apply_update(vec![Op::Skip(1), Op::Copy(3)]);
    assert_eq!(r, Err(ProtocolError::Overrun));
    assert_eq!(c.height(), 3);
    assert_eq!(c.get_line(0).unwrap().text(), "b");
    assert!(c.get_line(1).is_none());
    assert!(c.get_line(2).is_none());
}

#[test]
fn empty_script_on_empty_cache_is_valid() {
    let mut c = LineCache::new();
    assert_eq!(c.apply_update(Vec::new()), Ok(()));
    assert_eq!(c.height(), 0);
    assert!(c.get_line(0).is_none());
}

#[test]
fn single_empty_line_buffer() {
    let c = cache_of(&[""]);
    assert_eq!(c.height(), 1);
    assert_eq!(c.get_line(0).unwrap().text(), "");
}

#[test]
fn skip_everything_empties_cache() {
    let mut c = cache_of(&["a", "b"]);
    assert_eq!(c.apply_update(vec![Op::Skip(2)]), Ok(()));
    assert_eq!(c.height(), 0);
}

#[test]
fn result_length_is_sum_of_non_skip_counts() {
    let mut c = cache_of(&["a", "b", "c", "d"]);
    let r = c.apply_update(vec![
        Op::Skip(1),
        Op::Copy(1),
        Op::Invalidate(2),
        Op::Insert(vec![line("x"), line("y")]),
        Op::Update(vec![
            Restyle { styles: Vec::new(), cursor: Vec::new() },
            Restyle { styles: Vec::new(), cursor: Vec::new() },
        ]),
    ]);
    assert_eq!(r, Ok(()));
    assert_eq!(c.height(), 1 + 2 + 2 + 2);
    assert_eq!(texts(&c)[6], Some("d".to_string()));
}

#[test]
fn stale_cache_keeps_its_length() {
    let mut c = cache_of(&["a", "b", "c"]);
    c.mark_stale();
    assert_eq!(c.height(), 3);
    assert_eq!(texts(&c), vec![None, None, None]);
}
