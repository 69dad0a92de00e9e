//! The line cache: a partially populated mirror of the backend's buffer.

use vstd::prelude::*;
use crate::line::{Line, Restyle};
use crate::script::{Op, ProtocolError, old_at, restyle_slot, advance, consumed, emit, replay,
    restyles_invalid, any_restyles_invalid, replay_outcome};

verus! {

/// One slot of the cache: a known line, or a line whose content is not known.
#[derive(Clone, Debug)]
pub enum Slot {
    Populated(Line),
    Invalid,
}

/// The mirrored buffer. Slot `i` holds line `i`; the number of slots is the
/// line count that the backend last declared.
pub struct LineCache {
    slots: Vec<Slot>,
}

impl LineCache {
    /// The slots, in line order.
    pub closed spec fn view(&self) -> Seq<Slot> {
        self.slots@
    }

    /// The slots, in line order, to read.
    pub fn slots(&self) -> (r: &Vec<Slot>)
        ensures
            r@ == self.view(),
    {
        &self.slots
    }

    /// An empty cache.
    pub fn new() -> (r: LineCache)
        ensures
            r.view() == Seq::<Slot>::empty(),
    {
        LineCache { slots: Vec::new() }
    }

    /// The number of lines of the buffer.
    pub fn height(&self) -> (r: u64)
        ensures
            r == self.view().len(),
    {
        self.slots.len() as u64
    }

    /// Line `i`, or `None` where it is not known or past the end.
    pub fn get_line(&self, i: u64) -> (r: Option<&Line>)
        ensures
            match r {
                Some(l) => line_at(self.view(), i as int) == Some(*l),
                None => line_at(self.view(), i as int) is None,
            },
    {
        if i >= self.slots.len() as u64 {
            None
        } else {
            match &self.slots[i as usize] {
                Slot::Populated(l) => Some(l),
                Slot::Invalid => None,
            }
        }
    }

    /// Forgets the content of every line, keeping the line count: what is
    /// left when the connection to the backend is lost.
    pub fn mark_stale(&mut self)
        ensures
            final(self).view().len() == old(self).view().len(),
            forall|i: int| 0 <= i < final(self).view().len() ==> #[trigger] final(self).view()[i] is Invalid,
    {
        let mut i: usize = 0;
        while i < self.slots.len()
            invariant
                i <= self.slots@.len(),
                self.slots@.len() == old(self).view().len(),
                forall|j: int| 0 <= j < i ==> #[trigger] self.slots@[j] is Invalid,
            decreases self.slots@.len() - i,
        {
            self.slots.set(i, Slot::Invalid);
            i += 1;
        }
    }

    /// Replaces the slots by the result of replaying `ops` against them.
    ///
    /// The whole script is always replayed: a slot that cannot be known (read
    /// past the old end, or an update of an unknown slot) comes out unknown.
    /// The result says whether the script fitted the old cache.
    pub fn apply_update(&mut self, ops: Vec<Op>) -> (r: Result<(), ProtocolError>)
        ensures
            final(self).view() == replay(old(self).view(), ops@),
            r == replay_outcome(old(self).view(), ops@),
    {
        let mut prev: Vec<Slot> = Vec::new();
        std::mem::swap(&mut prev, &mut self.slots);
        let ghost old0 = prev@;
        let ghost ops0 = ops@;
        let len = prev.len();
        let mut ops = ops;
        let mut out: Vec<Slot> = Vec::new();
        let mut cur: usize = 0;
        let mut over = false;
        let mut bad = false;
        let mut i: usize = 0;
        assert(ops0.take(0) =~= Seq::<Op>::empty());
        while i < ops.len()
            invariant
                i <= ops0.len(),
                ops@.len() == ops0.len(),
                forall|j: int| i <= j < ops0.len() ==> ops@[j] == ops0[j],
                prev@.len() == len,
                len == old0.len(),
                cur <= len,
                over == (consumed(ops0.take(i as int)) > len),
                !over ==> cur == consumed(ops0.take(i as int)),
                over ==> cur == len,
                forall|j: int| cur <= j < len ==> prev@[j] == old0[j],
                out@ == replay(old0, ops0.take(i as int)),
                bad == any_restyles_invalid(old0, ops0.take(i as int)),
            decreases ops0.len() - i,
        {
            let ghost pre = ops0.take(i as int);
            let ghost pos = consumed(pre);
            let ghost out_before = out@;
            let mut op = Op::Skip(0);
            std::mem::swap(&mut op, &mut ops[i]);
            assert(ops0.take(i + 1).drop_last() =~= pre);
            assert(ops0.take(i + 1).last() == op);
            proof {
                lemma_consumed_nonneg(pre);
            }
            let n: u64 = match &op {
                Op::Copy(n) => *n,
                Op::Skip(n) => *n,
                Op::Update(rs) => rs.len() as u64,
                _ => 0,
            };
            assert(n == advance(op));
            match op {
                Op::Copy(n) => {
                    copy_run(&mut prev, &mut out, cur, n, Ghost(old0));
                    assert(emit(old0, pos, op) =~= Seq::new(n as nat, |k: int| old_at(old0, cur + k)));
                },
                Op::Skip(_) => {
                    assert(emit(old0, pos, op) =~= Seq::<Slot>::empty());
                    assert(out@ =~= out_before + emit(old0, pos, op));
                },
                Op::Invalidate(n) => {
                    invalid_run(&mut out, n);
                },
                Op::Insert(lines) => {
                    insert_run(&mut out, lines);
                },
                Op::Update(rs) => {
                    let ghost rs0 = rs@;
                    let b = restyle_run(&mut prev, &mut out, cur, rs, Ghost(old0));
                    assert(emit(old0, pos, op) =~= Seq::new(rs0.len(), |k: int| restyle_slot(old_at(old0, cur + k), rs0[k])));
                    assert(b == restyles_invalid(old0, pos, op)) by {
                        if b {
                            let k = choose|k: int| 0 <= k < rs0.len() && #[trigger] old_at(old0, cur + k) is Invalid;
                            assert(old_at(old0, pos + k) is Invalid);
                        }
                        if restyles_invalid(old0, pos, op) {
                            let k = choose|k: int| 0 <= k < rs0.len() && #[trigger] old_at(old0, pos + k) is Invalid;
                            assert(old_at(old0, cur + k) is Invalid);
                        }
                    }
                    bad = bad || b;
                },
            }
            if n as u128 > (len - cur) as u128 {
                over = true;
                cur = len;
            } else if !over {
                cur = cur + n as usize;
            }
            i += 1;
        }
        assert(ops0.take(ops0.len() as int) =~= ops0);
        self.slots = out;
        if over {
            Err(ProtocolError::Overrun)
        } else if cur < len {
            Err(ProtocolError::Underrun)
        } else if bad {
            Err(ProtocolError::RestyleOfInvalid)
        } else {
            Ok(())
        }
    }
}

/// Moves slot `j` out of `v`, leaving an unknown slot in its place.
fn take_slot(v: &mut Vec<Slot>, j: usize) -> (s: Slot)
    requires
        j < old(v).len(),
    ensures
        s == old(v)@[j as int],
        final(v)@ == old(v)@.update(j as int, Slot::Invalid),
{
    let mut s = Slot::Invalid;
    std::mem::swap(&mut s, &mut v[j]);
    s
}

/// Moves entry `j` out of `v`, leaving empty annotations in its place.
fn take_restyle(v: &mut Vec<Restyle>, j: usize) -> (r: Restyle)
    requires
        j < old(v).len(),
    ensures
        r == old(v)@[j as int],
        final(v)@.len() == old(v)@.len(),
        forall|t: int| 0 <= t < old(v)@.len() && t != j ==> final(v)@[t] == old(v)@[t],
{
    let mut r = Restyle { styles: Vec::new(), cursor: Vec::new() };
    std::mem::swap(&mut r, &mut v[j]);
    r
}

/// Moves line `j` out of `v`, leaving an empty line in its place.
pub(crate) fn take_line(v: &mut Vec<Line>, j: usize) -> (l: Line)
    requires
        j < old(v).len(),
    ensures
        l == old(v)@[j as int],
        final(v)@.len() == old(v)@.len(),
        forall|t: int| 0 <= t < old(v)@.len() && t != j ==> final(v)@[t] == old(v)@[t],
{
    let mut l = Line { text: String::new(), styles: Vec::new(), cursor: Vec::new() };
    std::mem::swap(&mut l, &mut v[j]);
    l
}

/// Appends `n` old slots from `cur` on, and unknown slots past the end.
fn copy_run(prev: &mut Vec<Slot>, out: &mut Vec<Slot>, cur: usize, n: u64, Ghost(old0): Ghost<Seq<Slot>>)
    requires
        old(prev)@.len() == old0.len(),
        cur <= old0.len(),
        forall|j: int| cur <= j < old0.len() ==> old(prev)@[j] == old0[j],
    ensures
        final(prev)@.len() == old0.len(),
        forall|j: int| cur + n <= j < old0.len() ==> final(prev)@[j] == old0[j],
        final(out)@ == old(out)@ + Seq::new(n as nat, |k: int| old_at(old0, cur + k)),
{
    let ghost out0 = out@;
    let len = prev.len();
    let mut k: u64 = 0;
    while k < n
        invariant
            k <= n,
            prev@.len() == old0.len(),
            len == old0.len(),
            cur <= len,
            forall|j: int| cur + k <= j < old0.len() ==> prev@[j] == old0[j],
            out@ == out0 + Seq::new(k as nat, |t: int| old_at(old0, cur + t)),
        decreases n - k,
    {
        if k < (len - cur) as u64 {
            let s = take_slot(prev, cur + k as usize);
            out.push(s);
        } else {
            out.push(Slot::Invalid);
        }
        assert(out@ =~= out0 + Seq::new((k + 1) as nat, |t: int| old_at(old0, cur + t)));
        k += 1;
    }
}

/// Appends `n` unknown slots.
fn invalid_run(out: &mut Vec<Slot>, n: u64)
    ensures
        final(out)@ == old(out)@ + Seq::new(n as nat, |k: int| Slot::Invalid),
{
    let ghost out0 = out@;
    let mut k: u64 = 0;
    while k < n
        invariant
            k <= n,
            out@ == out0 + Seq::new(k as nat, |t: int| Slot::Invalid),
        decreases n - k,
    {
        out.push(Slot::Invalid);
        assert(out@ =~= out0 + Seq::new((k + 1) as nat, |t: int| Slot::Invalid));
        k += 1;
    }
}

/// Appends the given lines as known slots.
fn insert_run(out: &mut Vec<Slot>, lines: Vec<Line>)
    ensures
        final(out)@ == old(out)@ + Seq::new(lines@.len(), |k: int| Slot::Populated(lines@[k])),
{
    let ghost out0 = out@;
    let ghost lines0 = lines@;
    let mut lines = lines;
    let mut k: usize = 0;
    while k < lines.len()
        invariant
            k <= lines0.len(),
            lines@.len() == lines0.len(),
            forall|t: int| k <= t < lines0.len() ==> lines@[t] == lines0[t],
            out@ == out0 + Seq::new(k as nat, |t: int| Slot::Populated(lines0[t])),
        decreases lines0.len() - k,
    {
        let l = take_line(&mut lines, k);
        out.push(Slot::Populated(l));
        assert(out@ =~= out0 + Seq::new((k + 1) as nat, |t: int| Slot::Populated(lines0[t])));
        k += 1;
    }
}

/// Appends the old slots from `cur` on, restyled by the entries of `rs`;
/// returns whether one of them was unknown.
fn restyle_run(
    prev: &mut Vec<Slot>,
    out: &mut Vec<Slot>,
    cur: usize,
    rs: Vec<Restyle>,
    Ghost(old0): Ghost<Seq<Slot>>,
) -> (bad: bool)
    requires
        old(prev)@.len() == old0.len(),
        cur <= old0.len(),
        forall|j: int| cur <= j < old0.len() ==> old(prev)@[j] == old0[j],
    ensures
        final(prev)@.len() == old0.len(),
        forall|j: int| cur + rs@.len() <= j < old0.len() ==> final(prev)@[j] == old0[j],
        final(out)@ == old(out)@ + Seq::new(rs@.len(), |k: int| restyle_slot(old_at(old0, cur + k), rs@[k])),
        bad == exists|k: int| 0 <= k < rs@.len() && #[trigger] old_at(old0, cur + k) is Invalid,
{
    let ghost out0 = out@;
    let ghost rs0 = rs@;
    let mut rs = rs;
    let len = prev.len();
    let mut bad = false;
    let mut k: usize = 0;
    while k < rs.len()
        invariant
            k <= rs0.len(),
            rs@.len() == rs0.len(),
            forall|t: int| k <= t < rs0.len() ==> rs@[t] == rs0[t],
            prev@.len() == old0.len(),
            len == old0.len(),
            cur <= len,
            forall|j: int| cur + k <= j < old0.len() ==> prev@[j] == old0[j],
            out@ == out0 + Seq::new(k as nat, |t: int| restyle_slot(old_at(old0, cur + t), rs0[t])),
            bad == exists|t: int| 0 <= t < k && #[trigger] old_at(old0, cur + t) is Invalid,
        decreases rs0.len() - k,
    {
        let r = take_restyle(&mut rs, k);
        let s = if k < len - cur {
            take_slot(prev, cur + k)
        } else {
            Slot::Invalid
        };
        assert(s == old_at(old0, cur + k));
        match s {
            Slot::Populated(l) => {
                out.push(Slot::Populated(Line { text: l.text, styles: r.styles, cursor: r.cursor }));
            },
            Slot::Invalid => {
                out.push(Slot::Invalid);
                bad = true;
            },
        }
        assert(out@ =~= out0 + Seq::new((k + 1) as nat, |t: int| restyle_slot(old_at(old0, cur + t), rs0[t])));
        k += 1;
    }
    bad
}

proof fn lemma_consumed_nonneg(ops: Seq<Op>)
    ensures
        consumed(ops) >= 0,
    decreases ops.len(),
{
    if ops.len() > 0 {
        lemma_consumed_nonneg(ops.drop_last());
    }
}

/// What `get_line` returns for index `i` of `s`.
pub open spec fn line_at(s: Seq<Slot>, i: int) -> Option<Line> {
    if 0 <= i < s.len() {
        match s[i] {
            Slot::Populated(l) => Some(l),
            Slot::Invalid => None,
        }
    } else {
        None
    }
}

} // verus!
