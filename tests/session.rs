use gxi::input::{key_command, modifier_mask, ClickCount, EditCommand, GestureKind, Key, Modifiers};
use gxi::pipeline::{apply_pending, Delivery, MessageQueue};
use gxi::cache::LineCache;
use gxi::line::Line;
use gxi::script::{Op, ProtocolError};
use gxi::session::{
    choose_theme, close_step, has_syntax_plugin, route, save_target, CloseStep, Method, PendingRequests, SaveAction,
    SaveTarget,
};
use gxi::styles::{abs_styles, AbsStyle, LineStyle, StyleTable, ThemeColors, SELECTION_STYLE};
use gxi::line::StyleSpan;
use gxi::view::EditView;
use gxi::viewport::FontMetrics;

const NONE: Modifiers = Modifiers { shift: false, ctrl: false, alt: false, meta: false };
const SHIFT: Modifiers = Modifiers { shift: true, ctrl: false, alt: false, meta: false };
const CTRL: Modifiers = Modifiers { shift: false, ctrl: true, alt: false, meta: false };
const CTRL_SHIFT: Modifiers = Modifiers { shift: true, ctrl: true, alt: false, meta: false };

#[test]
fn queue_preserves_order_and_closes() {
    let mut q: MessageQueue<u32> = MessageQueue::new();
    assert!(q.push(1));
    assert!(q.push(2));
    assert!(matches!(q.pop(), Delivery::Message(1)));
    assert!(matches!(q.pop(), Delivery::Message(2)));
    assert!(matches!(q.pop(), Delivery::Empty));
    assert!(q.push(3));
    q.close();
    assert!(!q.push(4));
    assert!(matches!(q.pop(), Delivery::Message(3)));
    assert!(matches!(q.pop(), Delivery::Closed));
}

#[test]
fn scripts_apply_in_queue_order() {
    let mut q: MessageQueue<Vec<Op>> = MessageQueue::new();
    q.push(vec![Op::Insert(vec![Line::new("a".to_string(), vec![], vec![])])]);
    q.push(vec![Op::Copy(1), Op::Insert(vec![Line::new("b".to_string(), vec![], vec![])])]);
    q.push(vec![Op::Skip(1), Op::Copy(1)]);
    let mut c = LineCache::new();
    let r = apply_pending(&mut q, &mut c);
    assert_eq!(r, vec![Ok(()), Ok(()), Ok(())]);
    assert_eq!(c.height(), 1);
    assert_eq!(c.get_line(0).unwrap().text(), "b");
    assert!(matches!(q.pop(), Delivery::Empty));
}

#[test]
fn swapped_scripts_are_inconsistent() {
    let mut q: MessageQueue<Vec<Op>> = MessageQueue::new();
    q.push(vec![Op::Copy(1), Op::Insert(vec![Line::new("b".to_string(), vec![], vec![])])]);
    q.push(vec![Op::Insert(vec![Line::new("a".to_string(), vec![], vec![])])]);
    let mut c = LineCache::new();
    let r = apply_pending(&mut q, &mut c);
    assert_eq!(r, vec![Err(ProtocolError::Overrun), Err(ProtocolError::Underrun)]);
}

#[test]
fn key_bindings() {
    assert_eq!(key_command(Key::Delete, None, NONE), Some(EditCommand::DeleteForward));
    assert_eq!(key_command(Key::BackSpace, None, NONE), Some(EditCommand::DeleteBackward));
    assert_eq!(key_command(Key::Return, None, CTRL), Some(EditCommand::InsertNewline));
    assert_eq!(key_command(Key::KeypadEnter, None, NONE), Some(EditCommand::InsertNewline));
    assert_eq!(key_command(Key::Tab, Some('\t'), SHIFT), None);
    assert_eq!(key_command(Key::Up, None, SHIFT), Some(EditCommand::MoveUpAndModifySelection));
    assert_eq!(key_command(Key::Up, None, CTRL), None);
    assert_eq!(key_command(Key::Left, None, CTRL), Some(EditCommand::MoveWordLeft));
    assert_eq!(key_command(Key::Right, None, CTRL_SHIFT), Some(EditCommand::MoveWordRightAndModifySelection));
    assert_eq!(key_command(Key::Home, None, CTRL), Some(EditCommand::MoveToBeginningOfDocument));
    assert_eq!(key_command(Key::End, None, SHIFT), Some(EditCommand::MoveToRightEndOfLineAndModifySelection));
    assert_eq!(key_command(Key::PageDown, None, NONE), Some(EditCommand::PageDown));
    assert_eq!(key_command(Key::Other, Some('a'), CTRL), Some(EditCommand::SelectAll));
    assert_eq!(key_command(Key::Other, Some('Z'), CTRL_SHIFT), Some(EditCommand::Redo));
    assert_eq!(key_command(Key::Other, Some('t'), CTRL), None);
    assert_eq!(key_command(Key::Other, Some('q'), NONE), Some(EditCommand::Insert('q')));
    assert_eq!(key_command(Key::Other, Some('Q'), SHIFT), Some(EditCommand::Insert('Q')));
    assert_eq!(key_command(Key::Other, Some('\u{1}'), NONE), None);
    assert_eq!(key_command(Key::Other, None, NONE), None);
}

#[test]
fn modifier_masks() {
    assert_eq!(modifier_mask(NONE), 0);
    assert_eq!(modifier_mask(CTRL_SHIFT), 6);
    assert_eq!(modifier_mask(Modifiers { shift: false, ctrl: false, alt: true, meta: true }), 8);
}

#[test]
fn button_gestures() {
    let mut v = EditView::new("v".to_string(), None);
    v.set_font_metrics(FontMetrics { height: 10, width: 8, ascent: 7, descent: 3 });
    v.update(vec![Op::Invalidate(50)], None).unwrap();
    let g = v.handle_button_press(17, 25, 1, NONE, ClickCount::Double).unwrap();
    assert_eq!((g.kind, g.line, g.col), (GestureKind::WordSelect, 2, 2));
    let g = v.handle_button_press(0, 0, 1, SHIFT, ClickCount::Triple).unwrap();
    assert_eq!(g.kind, GestureKind::RangeSelect);
    assert_eq!(v.handle_button_press(0, 0, 2, NONE, ClickCount::Single).unwrap().kind, GestureKind::PastePrimary);
    assert!(v.handle_button_press(0, 0, 3, NONE, ClickCount::Single).is_none());
    let d = v.handle_drag(40, 1000, SHIFT);
    assert_eq!((d.col, d.line, d.flags), (5, 49, 2));
}

#[test]
fn routing() {
    assert_eq!(route("update"), Method::Update);
    assert_eq!(route("def_style"), Method::DefStyle);
    assert_eq!(route("plugin_stopped"), Method::PluginStopped);
    assert_eq!(route("measure_width"), Method::MeasureWidth);
    assert_eq!(route("bogus"), Method::Unknown);
}

#[test]
fn theme_choice() {
    let themes = vec!["A".to_string(), "B".to_string()];
    assert_eq!(choose_theme(&themes, &"B".to_string()), Some("B".to_string()));
    assert_eq!(choose_theme(&themes, &"C".to_string()), Some("A".to_string()));
    assert_eq!(choose_theme(&vec![], &"C".to_string()), None);
    assert!(has_syntax_plugin(&vec!["x".to_string(), "xi-syntect-plugin".to_string()]));
    assert!(!has_syntax_plugin(&vec!["x".to_string()]));
}

#[test]
fn save_and_close_decisions() {
    assert_eq!(SaveAction::from_i32(100), Some(SaveAction::Save));
    assert_eq!(SaveAction::from_i32(101), Some(SaveAction::CloseWithoutSave));
    assert_eq!(SaveAction::from_i32(102), Some(SaveAction::Cancel));
    assert_eq!(SaveAction::from_i32(7), None);
    assert_eq!(SaveAction::Cancel.to_i32(), 102);
    assert_eq!(close_step(true), CloseStep::Close);
    assert_eq!(close_step(false), CloseStep::Ask);
    assert_eq!(save_target(&Some("f".to_string())), SaveTarget::File("f".to_string()));
    assert_eq!(save_target(&None), SaveTarget::AskForFile);
}

#[test]
fn pending_replies_once() {
    let mut p = PendingRequests::new();
    let a = p.register(Some("a.txt".to_string())).unwrap();
    let b = p.register(None).unwrap();
    assert_ne!(a, b);
    assert!(p.is_pending(a));
    assert_eq!(p.take(a), Some(Some("a.txt".to_string())));
    assert_eq!(p.take(a), None);
    assert!(!p.is_pending(a));
    assert_eq!(p.take(b), Some(None));
    assert_eq!(p.take(99), None);
}

#[test]
fn titles() {
    let mut v = EditView::new("v".to_string(), None);
    assert_eq!(v.title(), "Untitled");
    v.set_file("/home/user/notes.txt".to_string());
    assert_eq!(v.title(), "notes.txt");
    v.update(vec![], Some(false)).unwrap();
    assert_eq!(v.title(), "*notes.txt");
    v.set_file("plain".to_string());
    assert_eq!(v.title(), "*plain");
}

#[test]
fn styles_decode_and_clamp() {
    let spans = vec![
        StyleSpan { id: 1, start: 2, len: 3 },
        StyleSpan { id: 0, start: -4, len: 2 },
        StyleSpan { id: 5, start: 4, len: 10 },
    ];
    assert_eq!(
        abs_styles(&spans, 8),
        vec![
            AbsStyle { id: 1, start: 2, len: 3 },
            AbsStyle { id: 0, start: 1, len: 2 },
            AbsStyle { id: 5, start: 7, len: 1 },
        ]
    );
    assert_eq!(abs_styles(&vec![StyleSpan { id: 1, start: 20, len: 3 }], 8), vec![AbsStyle { id: 1, start: 8, len: 0 }]);
}

#[test]
fn style_table_colors() {
    let theme = ThemeColors { background: 1, foreground: 2, selection: 3, selection_foreground: 4, caret: 5 };
    let plain = LineStyle { fg_color: None, bg_color: None, weight: None, italic: None, underline: None };
    let mut t = StyleTable::new(plain);
    assert_eq!(t.span_colors(SELECTION_STYLE, theme), (3, 4));
    assert_eq!(t.span_colors(9, theme), (1, 2));
    t.define(9, LineStyle { fg_color: Some(77), ..plain });
    assert_eq!(t.get(9).unwrap().fg_color, Some(77));
    assert_eq!(t.span_colors(9, theme), (1, 77));
}

#[test]
fn scrollbar_visibility() {
    let mut a = gxi::viewport::Adjustment::new(40, 30);
    assert!(!a.needs_scrollbar());
    a.set_upper(100);
    assert!(a.needs_scrollbar());
}
