//! Input mapping: which backend command a key press, a button press or a
//! drag stands for.

use vstd::prelude::*;
use crate::view::EditView;
use crate::viewport::{cell_column, cell_line};

verus! {

/// The modifier keys held during an event.
#[derive(Clone, Copy, Debug, PartialEq, Eq, Structural)]
pub struct Modifiers {
    pub shift: bool,
    pub ctrl: bool,
    pub alt: bool,
    pub meta: bool,
}

impl Modifiers {
    /// No modifier but possibly shift.
    pub open spec fn plain(self) -> bool {
        !self.alt && !self.ctrl && !self.meta
    }
}

/// The backend's bit for shift in a modifier mask.
pub const SHIFT_KEY_MASK: u32 = 2;

/// The backend's bit for control in a modifier mask.
pub const CONTROL_KEY_MASK: u32 = 4;

/// The backend's bit for alt in a modifier mask.
pub const ALT_KEY_MASK: u32 = 8;

/// The backend's modifier mask for `m`.
pub open spec fn mask_of(m: Modifiers) -> u32 {
    ((if m.shift { SHIFT_KEY_MASK } else { 0u32 }) + (if m.ctrl { CONTROL_KEY_MASK } else { 0u32 }) + (
    if m.alt {
        ALT_KEY_MASK
    } else {
        0u32
    })) as u32
}

/// The backend's modifier mask for `m`: shift, control and alt; meta has no bit.
pub fn modifier_mask(m: Modifiers) -> (r: u32)
    ensures
        r == mask_of(m),
{
    let mut r: u32 = 0;
    if m.shift {
        r = r + SHIFT_KEY_MASK;
    }
    if m.ctrl {
        r = r + CONTROL_KEY_MASK;
    }
    if m.alt {
        r = r + ALT_KEY_MASK;
    }
    r
}

/// The keys that have bindings of their own.
#[derive(Clone, Copy, Debug, PartialEq, Eq, Structural)]
pub enum Key {
    Delete,
    BackSpace,
    Return,
    KeypadEnter,
    Tab,
    Up,
    Down,
    Left,
    Right,
    Home,
    End,
    PageUp,
    PageDown,
    /// Any other key.
    Other,
}

/// An editing command for the backend.
#[derive(Clone, Copy, Debug, PartialEq, Eq, Structural)]
pub enum EditCommand {
    DeleteForward,
    DeleteBackward,
    InsertNewline,
    InsertTab,
    MoveUp,
    MoveDown,
    MoveLeft,
    MoveRight,
    MoveUpAndModifySelection,
    MoveDownAndModifySelection,
    MoveLeftAndModifySelection,
    MoveRightAndModifySelection,
    MoveWordLeft,
    MoveWordRight,
    MoveWordLeftAndModifySelection,
    MoveWordRightAndModifySelection,
    MoveToLeftEndOfLine,
    MoveToRightEndOfLine,
    MoveToLeftEndOfLineAndModifySelection,
    MoveToRightEndOfLineAndModifySelection,
    MoveToBeginningOfDocument,
    MoveToEndOfDocument,
    MoveToBeginningOfDocumentAndModifySelection,
    MoveToEndOfDocumentAndModifySelection,
    PageUp,
    PageDown,
    PageUpAndModifySelection,
    PageDownAndModifySelection,
    SelectAll,
    Copy,
    Paste,
    Cut,
    Undo,
    Redo,
    Insert(char),
}

/// What a key denotes through the character it types: the control
/// shortcuts, and the typing of a printable character without modifiers.
pub open spec fn char_binding(ch: Option<char>, m: Modifiers) -> Option<EditCommand> {
    match ch {
        None => None,
        Some(c) => if c == 'a' && m.ctrl {
            Some(EditCommand::SelectAll)
        } else if c == 'c' && m.ctrl {
            Some(EditCommand::Copy)
        } else if c == 'v' && m.ctrl {
            Some(EditCommand::Paste)
        } else if c == 't' && m.ctrl {
            None
        } else if c == 'x' && m.ctrl {
            Some(EditCommand::Cut)
        } else if c == 'z' && m.ctrl {
            Some(EditCommand::Undo)
        } else if c == 'Z' && m.ctrl && m.shift {
            Some(EditCommand::Redo)
        } else if m.plain() && c >= ' ' {
            Some(EditCommand::Insert(c))
        } else {
            None
        },
    }
}

/// A command chosen by the plain, shifted, control and control-shifted forms.
pub open spec fn by_form(
    m: Modifiers,
    plain: EditCommand,
    shifted: EditCommand,
    ctrl: Option<EditCommand>,
    ctrl_shifted: Option<EditCommand>,
) -> Option<EditCommand> {
    if m.plain() && !m.shift {
        Some(plain)
    } else if m.plain() && m.shift {
        Some(shifted)
    } else if m.ctrl && !m.shift {
        ctrl
    } else if m.ctrl && m.shift {
        ctrl_shifted
    } else {
        None
    }
}

/// The command bound to `key` pressed with `m`, where `ch` is the character
/// the key types, if any. A key whose own binding does not apply falls back
/// to the character's binding.
pub open spec fn key_binding(key: Key, ch: Option<char>, m: Modifiers) -> Option<EditCommand> {
    let own = match key {
        Key::Delete => if m.plain() { Some(EditCommand::DeleteForward) } else { None },
        Key::BackSpace => if m.plain() { Some(EditCommand::DeleteBackward) } else { None },
        Key::Return | Key::KeypadEnter => Some(EditCommand::InsertNewline),
        Key::Tab => if m.plain() && !m.shift { Some(EditCommand::InsertTab) } else { None },
        Key::Up => by_form(m, EditCommand::MoveUp, EditCommand::MoveUpAndModifySelection, None, None),
        Key::Down => by_form(m, EditCommand::MoveDown, EditCommand::MoveDownAndModifySelection, None, None),
        Key::Left => by_form(
            m,
            EditCommand::MoveLeft,
            EditCommand::MoveLeftAndModifySelection,
            Some(EditCommand::MoveWordLeft),
            Some(EditCommand::MoveWordLeftAndModifySelection),
        ),
        Key::Right => by_form(
            m,
            EditCommand::MoveRight,
            EditCommand::MoveRightAndModifySelection,
            Some(EditCommand::MoveWordRight),
            Some(EditCommand::MoveWordRightAndModifySelection),
        ),
        Key::Home => by_form(
            m,
            EditCommand::MoveToLeftEndOfLine,
            EditCommand::MoveToLeftEndOfLineAndModifySelection,
            Some(EditCommand::MoveToBeginningOfDocument),
            Some(EditCommand::MoveToBeginningOfDocumentAndModifySelection),
        ),
        Key::End => by_form(
            m,
            EditCommand::MoveToRightEndOfLine,
            EditCommand::MoveToRightEndOfLineAndModifySelection,
            Some(EditCommand::MoveToEndOfDocument),
            Some(EditCommand::MoveToEndOfDocumentAndModifySelection),
        ),
        Key::PageUp => by_form(m, EditCommand::PageUp, EditCommand::PageUpAndModifySelection, None, None),
        Key::PageDown => by_form(m, EditCommand::PageDown, EditCommand::PageDownAndModifySelection, None, None),
        Key::Other => None,
    };
    match own {
        Some(c) => Some(c),
        None => char_binding(ch, m),
    }
}

fn pick(
    m: Modifiers,
    plain: EditCommand,
    shifted: EditCommand,
    ctrl: Option<EditCommand>,
    ctrl_shifted: Option<EditCommand>,
) -> (r: Option<EditCommand>)
    ensures
        r == by_form(m, plain, shifted, ctrl, ctrl_shifted),
{
    let norm = !m.alt && !m.ctrl && !m.meta;
    if norm && !m.shift {
        Some(plain)
    } else if norm && m.shift {
        Some(shifted)
    } else if m.ctrl && !m.shift {
        ctrl
    } else if m.ctrl && m.shift {
        ctrl_shifted
    } else {
        None
    }
}

fn char_command(ch: Option<char>, m: Modifiers) -> (r: Option<EditCommand>)
    ensures
        r == char_binding(ch, m),
{
    let norm = !m.alt && !m.ctrl && !m.meta;
    match ch {
        None => None,
        Some(c) => {
            if c == 'a' && m.ctrl {
                Some(EditCommand::SelectAll)
            } else if c == 'c' && m.ctrl {
                Some(EditCommand::Copy)
            } else if c == 'v' && m.ctrl {
                Some(EditCommand::Paste)
            } else if c == 't' && m.ctrl {
                None
            } else if c == 'x' && m.ctrl {
                Some(EditCommand::Cut)
            } else if c == 'z' && m.ctrl {
                Some(EditCommand::Undo)
            } else if c == 'Z' && m.ctrl && m.shift {
                Some(EditCommand::Redo)
            } else if norm && c >= ' ' {
                Some(EditCommand::Insert(c))
            } else {
                None
            }
        },
    }
}

/// The command for a key press: `key` with modifiers `m`, typing `ch`.
pub fn key_command(key: Key, ch: Option<char>, m: Modifiers) -> (r: Option<EditCommand>)
    ensures
        r == key_binding(key, ch, m),
{
    let norm = !m.alt && !m.ctrl && !m.meta;
    let own = match key {
        Key::Delete => if norm { Some(EditCommand::DeleteForward) } else { None },
        Key::BackSpace => if norm { Some(EditCommand::DeleteBackward) } else { None },
        Key::Return | Key::KeypadEnter => Some(EditCommand::InsertNewline),
        Key::Tab => if norm && !m.shift { Some(EditCommand::InsertTab) } else { None },
        Key::Up => pick(m, EditCommand::MoveUp, EditCommand::MoveUpAndModifySelection, None, None),
        Key::Down => pick(m, EditCommand::MoveDown, EditCommand::MoveDownAndModifySelection, None, None),
        Key::Left => pick(
            m,
            EditCommand::MoveLeft,
            EditCommand::MoveLeftAndModifySelection,
            Some(EditCommand::MoveWordLeft),
            Some(EditCommand::MoveWordLeftAndModifySelection),
        ),
        Key::Right => pick(
            m,
            EditCommand::MoveRight,
            EditCommand::MoveRightAndModifySelection,
            Some(EditCommand::MoveWordRight),
            Some(EditCommand::MoveWordRightAndModifySelection),
        ),
        Key::Home => pick(
            m,
            EditCommand::MoveToLeftEndOfLine,
            EditCommand::MoveToLeftEndOfLineAndModifySelection,
            Some(EditCommand::MoveToBeginningOfDocument),
            Some(EditCommand::MoveToBeginningOfDocumentAndModifySelection),
        ),
        Key::End => pick(
            m,
            EditCommand::MoveToRightEndOfLine,
            EditCommand::MoveToRightEndOfLineAndModifySelection,
            Some(EditCommand::MoveToEndOfDocument),
            Some(EditCommand::MoveToEndOfDocumentAndModifySelection),
        ),
        Key::PageUp => pick(m, EditCommand::PageUp, EditCommand::PageUpAndModifySelection, None, None),
        Key::PageDown => pick(m, EditCommand::PageDown, EditCommand::PageDownAndModifySelection, None, None),
        Key::Other => None,
    };
    match own {
        Some(c) => Some(c),
        None => char_command(ch, m),
    }
}

/// How many clicks a button press completes.
#[derive(Clone, Copy, Debug, PartialEq, Eq, Structural)]
pub enum ClickCount {
    Single,
    Double,
    Triple,
}

/// What a button press asks of the backend.
#[derive(Clone, Copy, Debug, PartialEq, Eq, Structural)]
pub enum GestureKind {
    PointSelect,
    RangeSelect,
    WordSelect,
    LineSelect,
    /// Move the caret here, then insert the primary selection.
    PastePrimary,
}

/// A gesture at a cell.
#[derive(Clone, Copy, Debug, PartialEq, Eq, Structural)]
pub struct Gesture {
    pub kind: GestureKind,
    pub line: u64,
    pub col: u64,
}

/// The gesture that button `button` pressed with `m` makes: the first button
/// selects (a range with shift, a word on a double click, a line on a triple
/// click, else a point); the second pastes the primary selection.
pub open spec fn gesture_kind(button: u32, m: Modifiers, clicks: ClickCount) -> Option<GestureKind> {
    if button == 1 {
        if m.shift {
            Some(GestureKind::RangeSelect)
        } else if clicks == ClickCount::Double {
            Some(GestureKind::WordSelect)
        } else if clicks == ClickCount::Triple {
            Some(GestureKind::LineSelect)
        } else {
            Some(GestureKind::PointSelect)
        }
    } else if button == 2 {
        Some(GestureKind::PastePrimary)
    } else {
        None
    }
}

/// A drag to a cell, with the backend's modifier mask.
#[derive(Clone, Copy, Debug, PartialEq, Eq, Structural)]
pub struct Drag {
    pub line: u64,
    pub col: u64,
    pub flags: u32,
}

impl EditView {
    /// The gesture for a press of `button` at `(x, y)`.
    pub fn handle_button_press(&self, x: i64, y: i64, button: u32, m: Modifiers, clicks: ClickCount) -> (r: Option<
        Gesture,
    >)
        requires
            self.wf(),
        ensures
            match gesture_kind(button, m, clicks) {
                None => r is None,
                Some(kind) => r == Some(
                    Gesture {
                        kind,
                        col: cell_column(x as int, self.hadj.value as int, self.metrics.width as int) as u64,
                        line: cell_line(
                            y as int,
                            self.vadj.value as int,
                            self.metrics.descent as int,
                            self.metrics.height as int,
                            self.line_cache.view().len() as int,
                        ) as u64,
                    },
                ),
            },
    {
        let (col, line) = self.da_px_to_cell(x, y);
        let kind = if button == 1 {
            if m.shift {
                GestureKind::RangeSelect
            } else if clicks == ClickCount::Double {
                GestureKind::WordSelect
            } else if clicks == ClickCount::Triple {
                GestureKind::LineSelect
            } else {
                GestureKind::PointSelect
            }
        } else if button == 2 {
            GestureKind::PastePrimary
        } else {
            return None;
        };
        Some(Gesture { kind, line, col })
    }

    /// The drag to the cell under `(x, y)`.
    pub fn handle_drag(&self, x: i64, y: i64, m: Modifiers) -> (r: Drag)
        requires
            self.wf(),
        ensures
            r == (Drag {
                col: cell_column(x as int, self.hadj.value as int, self.metrics.width as int) as u64,
                line: cell_line(
                    y as int,
                    self.vadj.value as int,
                    self.metrics.descent as int,
                    self.metrics.height as int,
                    self.line_cache.view().len() as int,
                ) as u64,
                flags: mask_of(m),
            }),
    {
        let (col, line) = self.da_px_to_cell(x, y);
        Drag { line, col, flags: modifier_mask(m) }
    }
}

} // verus!
