//! Decoding of the backend's JSON notifications into diff scripts.
//!
//! The JSON value itself is serde_json's; what this library reads of it goes
//! through the accessors declared here. What is decided on the values read
//! (which operation a name denotes, how a flat style list groups into spans,
//! whether counts agree) is verified below with exact contracts.

use vstd::prelude::*;
use serde_json::Value;
use crate::line::{Line, Restyle, StyleSpan};
use crate::script::Op;
use crate::styles::LineStyle;
use crate::cache::take_line;

verus! {

/// serde_json's JSON value, carried through opaquely.
#[verifier::external_type_specification]
#[verifier::external_body]
pub struct ExValue(serde_json::Value);

/// Relies on `Value::as_u64`: a number that fits in `u64`, else `None`.
/// Nothing is assumed of the result.
pub assume_specification[ serde_json::Value::as_u64 ](v: &Value) -> Option<u64>;

/// Relies on `Value::as_i64`: a number that fits in `i64`, else `None`.
/// Nothing is assumed of the result.
pub assume_specification[ serde_json::Value::as_i64 ](v: &Value) -> Option<i64>;

/// Relies on `Value::as_bool`: a boolean, else `None`. Nothing is assumed of
/// the result.
pub assume_specification[ serde_json::Value::as_bool ](v: &Value) -> Option<bool>;

/// Relies on `Value::as_str`: a string, else `None`. Nothing is assumed of
/// the result.
pub assume_specification<'a>[ serde_json::Value::as_str ](v: &'a Value) -> Option<&'a str>;

/// Relies on `Value::as_array`: the members of a list, else `None`. Nothing
/// is assumed of the result.
pub assume_specification<'a>[ serde_json::Value::as_array ](v: &'a Value) -> Option<&'a Vec<Value>>;

/// Relies on serde_json's `Value::get` with a string key: the member `key`
/// of an object, or `None` for a missing key or a value that is no object.
/// Nothing is assumed of the result.
#[verifier::external_body]
fn member<'a>(v: &'a Value, key: &str) -> Option<&'a Value> {
    v.get(key)
}

/// Why a notification could not be decoded.
#[derive(Clone, Copy, Debug, PartialEq, Eq, Structural)]
pub enum DecodeError {
    /// A required member is absent.
    MissingField,
    /// A member holds a value of the wrong kind.
    WrongType,
    /// An operation name that the protocol does not define.
    UnknownOp,
    /// An operation's count disagrees with the lines it carries.
    CountMismatch,
    /// A style list whose length is not a multiple of three, or with a
    /// negative length or id.
    BadStyles,
}

/// The kinds of diff operation, by their names on the wire.
#[derive(Clone, Copy, Debug, PartialEq, Eq, Structural)]
pub enum OpKind {
    Copy,
    Skip,
    Invalidate,
    Insert,
    Update,
}

/// The operation kind that a wire name denotes.
pub open spec fn op_kind_of(name: Seq<char>) -> Option<OpKind> {
    if name == "copy"@ {
        Some(OpKind::Copy)
    } else if name == "skip"@ {
        Some(OpKind::Skip)
    } else if name == "invalidate"@ {
        Some(OpKind::Invalidate)
    } else if name == "ins"@ {
        Some(OpKind::Insert)
    } else if name == "update"@ {
        Some(OpKind::Update)
    } else {
        None
    }
}

/// Whether two strings hold the same characters.
pub(crate) fn str_eq(a: &str, b: &str) -> (r: bool)
    ensures
        r == (a@ == b@),
{
    let x = a.to_owned();
    let y = b.to_owned();
    x == y
}

/// The operation kind that `name` denotes, if any.
pub fn parse_op_kind(name: &str) -> (r: Option<OpKind>)
    ensures
        r == op_kind_of(name@),
{
    proof {
        reveal_strlit("copy");
        reveal_strlit("skip");
        reveal_strlit("invalidate");
        reveal_strlit("ins");
        reveal_strlit("update");
    }
    if str_eq(name, "copy") {
        Some(OpKind::Copy)
    } else if str_eq(name, "skip") {
        Some(OpKind::Skip)
    } else if str_eq(name, "invalidate") {
        Some(OpKind::Invalidate)
    } else if str_eq(name, "ins") {
        Some(OpKind::Insert)
    } else if str_eq(name, "update") {
        Some(OpKind::Update)
    } else {
        None
    }
}

/// Span `k` of a flat `[start, len, id, ...]` list.
pub open spec fn triple_span(raw: Seq<i64>, k: int) -> StyleSpan {
    StyleSpan { start: raw[3 * k], len: raw[3 * k + 1] as u64, id: raw[3 * k + 2] as u64 }
}

/// Whether span `k` of a flat style list has a length and an id that are
/// not negative.
pub open spec fn triple_valid(raw: Seq<i64>, k: int) -> bool {
    raw[3 * k + 1] >= 0 && raw[3 * k + 2] >= 0
}

/// Whether a flat style list groups into spans.
pub open spec fn triples_ok(raw: Seq<i64>) -> bool {
    &&& raw.len() % 3 == 0
    &&& forall|k: int| 0 <= k < raw.len() / 3 ==> #[trigger] triple_valid(raw, k)
}

/// Groups a flat `[start, len, id, ...]` list into spans.
pub fn spans_from_triples(raw: &Vec<i64>) -> (r: Result<Vec<StyleSpan>, DecodeError>)
    ensures
        triples_ok(raw@) <==> r is Ok,
        r is Err ==> r == Err::<Vec<StyleSpan>, DecodeError>(DecodeError::BadStyles),
        r matches Ok(spans) ==> spans@.len() == raw@.len() / 3 && forall|k: int|
            0 <= k < spans@.len() ==> spans@[k] == triple_span(raw@, k),
{
    if raw.len() % 3 != 0 {
        return Err(DecodeError::BadStyles);
    }
    let n = raw.len() / 3;
    let mut spans: Vec<StyleSpan> = Vec::new();
    let mut k: usize = 0;
    while k < n
        invariant
            n == raw@.len() / 3,
            raw@.len() % 3 == 0,
            k <= n,
            spans@.len() == k,
            forall|t: int| 0 <= t < k ==> #[trigger] triple_valid(raw@, t),
            forall|t: int| 0 <= t < k ==> spans@[t] == triple_span(raw@, t),
        decreases n - k,
    {
        assert(3 * k + 2 < raw@.len()) by (nonlinear_arith)
            requires
                k < n,
                n == raw@.len() / 3,
                raw@.len() % 3 == 0,
        ;
        assert(raw@.len() == raw.len());
        let start = raw[3 * k];
        let len = raw[3 * k + 1];
        let id = raw[3 * k + 2];
        if len < 0 || id < 0 {
            assert(!triples_ok(raw@)) by {
                assert(0 <= k < raw@.len() / 3);
                assert(!triple_valid(raw@, k as int));
            }
            return Err(DecodeError::BadStyles);
        }
        spans.push(StyleSpan { start, len: len as u64, id: id as u64 });
        k += 1;
    }
    Ok(spans)
}

/// The annotations of each line, without the text.
pub open spec fn restyles_of(lines: Seq<Line>) -> Seq<Restyle> {
    lines.map_values(|l: Line| Restyle { styles: l.styles, cursor: l.cursor })
}

/// The operation of `kind` with count `n`, carrying `lines` where it is an
/// insert or an update; those two must carry exactly `n` lines.
pub fn make_op(kind: OpKind, n: u64, lines: Vec<Line>) -> (r: Result<Op, DecodeError>)
    ensures
        kind == OpKind::Copy ==> r == Ok::<Op, DecodeError>(Op::Copy(n)),
        kind == OpKind::Skip ==> r == Ok::<Op, DecodeError>(Op::Skip(n)),
        kind == OpKind::Invalidate ==> r == Ok::<Op, DecodeError>(Op::Invalidate(n)),
        (kind == OpKind::Insert || kind == OpKind::Update) && lines@.len() != n ==> r == Err::<
            Op,
            DecodeError,
        >(DecodeError::CountMismatch),
        kind == OpKind::Insert && lines@.len() == n ==> (r matches Ok(Op::Insert(ls)) && ls@ == lines@),
        kind == OpKind::Update && lines@.len() == n ==> (r matches Ok(Op::Update(rs)) && rs@ == restyles_of(
            lines@,
        )),
{
    match kind {
        OpKind::Copy => Ok(Op::Copy(n)),
        OpKind::Skip => Ok(Op::Skip(n)),
        OpKind::Invalidate => Ok(Op::Invalidate(n)),
        OpKind::Insert => {
            if lines.len() as u64 != n {
                Err(DecodeError::CountMismatch)
            } else {
                Ok(Op::Insert(lines))
            }
        },
        OpKind::Update => {
            if lines.len() as u64 != n {
                Err(DecodeError::CountMismatch)
            } else {
                let ghost lines0 = lines@;
                let mut lines = lines;
                let mut rs: Vec<Restyle> = Vec::new();
                let mut k: usize = 0;
                while k < lines.len()
                    invariant
                        k <= lines0.len(),
                        lines@.len() == lines0.len(),
                        forall|t: int| k <= t < lines0.len() ==> lines@[t] == lines0[t],
                        rs@ == restyles_of(lines0.take(k as int)),
                    decreases lines0.len() - k,
                {
                    let l = take_line(&mut lines, k);
                    rs.push(Restyle { styles: l.styles, cursor: l.cursor });
                    assert(rs@ =~= restyles_of(lines0.take(k + 1)));
                    k += 1;
                }
                assert(lines0.take(lines0.len() as int) =~= lines0);
                Ok(Op::Update(rs))
            }
        },
    }
}

/// An "update" notification: the diff script and, where given, whether the
/// buffer is saved.
pub struct Update {
    pub ops: Vec<Op>,
    pub pristine: Option<bool>,
}

fn u64_list(v: &Value) -> Result<Vec<u64>, DecodeError> {
    match v.as_array() {
        None => Err(DecodeError::WrongType),
        Some(items) => {
            let mut out: Vec<u64> = Vec::new();
            let mut i: usize = 0;
            while i < items.len()
                decreases items@.len() - i,
            {
                match items[i].as_u64() {
                    Some(x) => out.push(x),
                    None => {
                        return Err(DecodeError::WrongType);
                    },
                }
                i += 1;
            }
            Ok(out)
        },
    }
}

fn i64_list(v: &Value) -> Result<Vec<i64>, DecodeError> {
    match v.as_array() {
        None => Err(DecodeError::WrongType),
        Some(items) => {
            let mut out: Vec<i64> = Vec::new();
            let mut i: usize = 0;
            while i < items.len()
                decreases items@.len() - i,
            {
                match items[i].as_i64() {
                    Some(x) => out.push(x),
                    None => {
                        return Err(DecodeError::WrongType);
                    },
                }
                i += 1;
            }
            Ok(out)
        },
    }
}

/// Decodes one line object: its `text` (required where `with_text`), its
/// `styles` as a flat list of triples and its `cursor` columns; absent
/// styles or carets are empty.
pub fn decode_line(v: &Value, with_text: bool) -> Result<Line, DecodeError> {
    let text = match member(v, "text") {
        Some(t) => match t.as_str() {
            Some(s) => s.to_owned(),
            None => {
                return Err(DecodeError::WrongType);
            },
        },
        None => {
            if with_text {
                return Err(DecodeError::MissingField);
            }
            String::new()
        },
    };
    let styles = match member(v, "styles") {
        Some(st) => match i64_list(st) {
            Ok(raw) => match spans_from_triples(&raw) {
                Ok(spans) => spans,
                Err(e) => {
                    return Err(e);
                },
            },
            Err(e) => {
                return Err(e);
            },
        },
        None => Vec::new(),
    };
    let cursor = match member(v, "cursor") {
        Some(c) => match u64_list(c) {
            Ok(cs) => cs,
            Err(e) => {
                return Err(e);
            },
        },
        None => Vec::new(),
    };
    Ok(Line { text, styles, cursor })
}

/// Decodes one operation object: its `op` name, its count `n`, and for an
/// insert or an update its `lines`.
pub fn decode_op(v: &Value) -> Result<Op, DecodeError> {
    let kind = match member(v, "op") {
        Some(o) => match o.as_str() {
            Some(name) => match parse_op_kind(name) {
                Some(k) => k,
                None => {
                    return Err(DecodeError::UnknownOp);
                },
            },
            None => {
                return Err(DecodeError::WrongType);
            },
        },
        None => {
            return Err(DecodeError::MissingField);
        },
    };
    let n = match member(v, "n") {
        Some(x) => match x.as_u64() {
            Some(n) => n,
            None => {
                return Err(DecodeError::WrongType);
            },
        },
        None => {
            return Err(DecodeError::MissingField);
        },
    };
    let mut lines: Vec<Line> = Vec::new();
    if kind == OpKind::Insert || kind == OpKind::Update {
        let items = match member(v, "lines") {
            Some(l) => match l.as_array() {
                Some(items) => items,
                None => {
                    return Err(DecodeError::WrongType);
                },
            },
            None => {
                return Err(DecodeError::MissingField);
            },
        };
        let mut i: usize = 0;
        while i < items.len()
            decreases items@.len() - i,
        {
            match decode_line(&items[i], kind == OpKind::Insert) {
                Ok(l) => lines.push(l),
                Err(e) => {
                    return Err(e);
                },
            }
            i += 1;
        }
    }
    make_op(kind, n, lines)
}

/// Decodes the `update` member of an update notification: its `ops` list
/// and its optional `pristine` flag.
pub fn decode_update(params: &Value) -> Result<Update, DecodeError> {
    let update = match member(params, "update") {
        Some(u) => u,
        None => {
            return Err(DecodeError::MissingField);
        },
    };
    let items = match member(update, "ops") {
        Some(o) => match o.as_array() {
            Some(items) => items,
            None => {
                return Err(DecodeError::WrongType);
            },
        },
        None => {
            return Err(DecodeError::MissingField);
        },
    };
    let mut ops: Vec<Op> = Vec::new();
    let mut i: usize = 0;
    while i < items.len()
        decreases items@.len() - i,
    {
        match decode_op(&items[i]) {
            Ok(op) => ops.push(op),
            Err(e) => {
                return Err(e);
            },
        }
        i += 1;
    }
    let pristine = match member(update, "pristine") {
        Some(p) => p.as_bool(),
        None => None,
    };
    Ok(Update { ops, pristine })
}

/// The strings of a JSON list, in order, skipping members that are not
/// strings; empty where the value is not a list.
pub fn string_list(v: &Value) -> Vec<String> {
    let mut out: Vec<String> = Vec::new();
    match v.as_array() {
        None => {},
        Some(items) => {
            let mut i: usize = 0;
            while i < items.len()
                decreases items@.len() - i,
            {
                match items[i].as_str() {
                    Some(s) => out.push(s.to_owned()),
                    None => {},
                }
                i += 1;
            }
        },
    }
    out
}

/// The string member `key` of `params`, if it is there and a string.
pub fn string_member(params: &Value, key: &str) -> Option<String> {
    match member(params, key) {
        Some(v) => match v.as_str() {
            Some(s) => Some(s.to_owned()),
            None => None,
        },
        None => None,
    }
}

/// The unsigned integer member `key` of `params`, if it is there and fits.
pub fn u64_member(params: &Value, key: &str) -> Option<u64> {
    match member(params, key) {
        Some(v) => v.as_u64(),
        None => None,
    }
}

/// The list member `key` of `params` as strings; see `string_list`.
pub fn string_list_member(params: &Value, key: &str) -> Vec<String> {
    match member(params, key) {
        Some(v) => string_list(v),
        None => Vec::new(),
    }
}

/// The `name` of each plugin object of the `plugins` list.
pub fn plugin_names(params: &Value) -> Vec<String> {
    let mut out: Vec<String> = Vec::new();
    match member(params, "plugins") {
        Some(list) => match list.as_array() {
            Some(items) => {
                let mut i: usize = 0;
                while i < items.len()
                    decreases items@.len() - i,
                {
                    match string_member(&items[i], "name") {
                        Some(n) => out.push(n),
                        None => {},
                    }
                    i += 1;
                }
            },
            None => {},
        },
        None => {},
    }
    out
}

fn u32_member(params: &Value, key: &str) -> Result<Option<u32>, DecodeError> {
    match member(params, key) {
        None => Ok(None),
        Some(v) => match v.as_u64() {
            Some(x) => if x <= 0xffff_ffff {
                Ok(Some(x as u32))
            } else {
                Err(DecodeError::WrongType)
            },
            None => Err(DecodeError::WrongType),
        },
    }
}

fn bool_member(params: &Value, key: &str) -> Result<Option<bool>, DecodeError> {
    match member(params, key) {
        None => Ok(None),
        Some(v) => match v.as_bool() {
            Some(b) => Ok(Some(b)),
            None => Err(DecodeError::WrongType),
        },
    }
}

/// Decodes a "def_style" notification: the style `id` and its attributes.
pub fn decode_style(params: &Value) -> Result<(u64, LineStyle), DecodeError> {
    let id = match u64_member(params, "id") {
        Some(id) => id,
        None => {
            return Err(DecodeError::MissingField);
        },
    };
    let fg_color = match u32_member(params, "fg_color") {
        Ok(c) => c,
        Err(e) => {
            return Err(e);
        },
    };
    let bg_color = match u32_member(params, "bg_color") {
        Ok(c) => c,
        Err(e) => {
            return Err(e);
        },
    };
    let weight = match u32_member(params, "weight") {
        Ok(Some(w)) => if w <= 0xffff {
            Some(w as u16)
        } else {
            return Err(DecodeError::WrongType);
        },
        Ok(None) => None,
        Err(e) => {
            return Err(e);
        },
    };
    let italic = match bool_member(params, "italic") {
        Ok(b) => b,
        Err(e) => {
            return Err(e);
        },
    };
    let underline = match bool_member(params, "underline") {
        Ok(b) => b,
        Err(e) => {
            return Err(e);
        },
    };
    Ok((id, LineStyle { fg_color, bg_color, weight, italic, underline }))
}

/// One request to measure the widths of strings.
pub struct MeasureWidth {
    pub id: u64,
    pub strings: Vec<String>,
}

/// Decodes a "measure_width" notification: a list of requests, each with an
/// `id` and its `strings`.
pub fn decode_measure_width(params: &Value) -> Result<Vec<MeasureWidth>, DecodeError> {
    let items = match params.as_array() {
        Some(items) => items,
        None => {
            return Err(DecodeError::WrongType);
        },
    };
    let mut out: Vec<MeasureWidth> = Vec::new();
    let mut i: usize = 0;
    while i < items.len()
        decreases items@.len() - i,
    {
        let id = match u64_member(&items[i], "id") {
            Some(id) => id,
            None => {
                return Err(DecodeError::MissingField);
            },
        };
        let strings = match member(&items[i], "strings") {
            Some(v) => match v.as_array() {
                Some(_) => string_list(v),
                None => {
                    return Err(DecodeError::WrongType);
                },
            },
            None => {
                return Err(DecodeError::MissingField);
            },
        };
        out.push(MeasureWidth { id, strings });
        i += 1;
    }
    Ok(out)
}

} // verus!
