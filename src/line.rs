//! Lines as the backend sends them: text, delta-encoded style spans and carets.

use vstd::prelude::*;

verus! {

/// One style span, encoded relative to the end of the previous span.
///
/// `start` is the gap (possibly negative) between the end of the previous span
/// and the start of this one; `len` is the span's length.
#[derive(Clone, Copy, Debug, PartialEq, Eq, Structural)]
pub struct StyleSpan {
    pub id: u64,
    pub start: i64,
    pub len: u64,
}

/// The style and caret annotations of one line, without its text.
#[derive(Clone, Debug)]
pub struct Restyle {
    pub styles: Vec<StyleSpan>,
    pub cursor: Vec<u64>,
}

/// A populated line: its text (with the trailing newline, if any), its style
/// spans and the columns of its carets.
#[derive(Clone, Debug)]
pub struct Line {
    pub text: String,
    pub styles: Vec<StyleSpan>,
    pub cursor: Vec<u64>,
}

impl Line {
    pub fn new(text: String, styles: Vec<StyleSpan>, cursor: Vec<u64>) -> (r: Line)
        ensures
            r.text == text,
            r.styles == styles,
            r.cursor == cursor,
    {
        Line { text, styles, cursor }
    }

    pub fn text(&self) -> (r: &str)
        ensures
            r@ == self.text@,
    {
        self.text.as_str()
    }

    pub fn cursor(&self) -> (r: &Vec<u64>)
        ensures
            r == &self.cursor,
    {
        &self.cursor
    }

    /// The same text with the styles and carets of `r`.
    pub open spec fn restyled(self, r: Restyle) -> Line {
        Line { text: self.text, styles: r.styles, cursor: r.cursor }
    }
}

} // verus!
