//! Diff scripts and the meaning of replaying one against a cache.

use vstd::prelude::*;
use crate::cache::Slot;
use crate::line::{Line, Restyle};

verus! {

/// One operation of a diff script.
#[derive(Clone, Debug)]
pub enum Op {
    /// Take the next `n` old slots unchanged.
    Copy(u64),
    /// Drop the next `n` old slots.
    Skip(u64),
    /// Append `n` slots whose content is not known.
    Invalidate(u64),
    /// Append these lines.
    Insert(Vec<Line>),
    /// Re-emit the next old slots, one for each entry, with the entry's styles
    /// and carets.
    Update(Vec<Restyle>),
}

/// Why a script did not fit the cache it was replayed against.
#[derive(Clone, Copy, Debug, PartialEq, Eq, Structural)]
pub enum ProtocolError {
    /// The script consumed more old lines than the cache held.
    Overrun,
    /// The script left old lines unconsumed.
    Underrun,
    /// An update targeted a slot whose content was not known.
    RestyleOfInvalid,
}

/// Old slot `j`, or `Invalid` past either end.
pub open spec fn old_at(old: Seq<Slot>, j: int) -> Slot {
    if 0 <= j < old.len() {
        old[j]
    } else {
        Slot::Invalid
    }
}

/// A slot with its styles and carets replaced; an unknown slot stays unknown.
pub open spec fn restyle_slot(s: Slot, r: Restyle) -> Slot {
    match s {
        Slot::Populated(l) => Slot::Populated(l.restyled(r)),
        Slot::Invalid => Slot::Invalid,
    }
}

/// How far one operation moves the old cursor.
pub open spec fn advance(op: Op) -> int {
    match op {
        Op::Copy(n) => n as int,
        Op::Skip(n) => n as int,
        Op::Update(rs) => rs@.len() as int,
        _ => 0,
    }
}

/// How many slots one operation appends.
pub open spec fn op_emits(op: Op) -> int {
    match op {
        Op::Copy(n) => n as int,
        Op::Invalidate(n) => n as int,
        Op::Insert(lines) => lines@.len() as int,
        Op::Update(rs) => rs@.len() as int,
        Op::Skip(_) => 0,
    }
}

/// The old cursor after the whole of `ops`.
pub open spec fn consumed(ops: Seq<Op>) -> int
    decreases ops.len(),
{
    if ops.len() == 0 {
        0
    } else {
        consumed(ops.drop_last()) + advance(ops.last())
    }
}

/// The number of slots that `ops` appends: every count but those of skips.
pub open spec fn emitted_count(ops: Seq<Op>) -> int
    decreases ops.len(),
{
    if ops.len() == 0 {
        0
    } else {
        emitted_count(ops.drop_last()) + op_emits(ops.last())
    }
}

/// The slots that `op` appends when the old cursor stands at `cur`.
pub open spec fn emit(old: Seq<Slot>, cur: int, op: Op) -> Seq<Slot> {
    match op {
        Op::Copy(n) => Seq::new(n as nat, |k: int| old_at(old, cur + k)),
        Op::Skip(_) => Seq::empty(),
        Op::Invalidate(n) => Seq::new(n as nat, |k: int| Slot::Invalid),
        Op::Insert(lines) => Seq::new(lines@.len(), |k: int| Slot::Populated(lines@[k])),
        Op::Update(rs) => Seq::new(rs@.len(), |k: int| restyle_slot(old_at(old, cur + k), rs@[k])),
    }
}

/// Whether `op`, at cursor `cur`, restyles a slot whose content is not known.
pub open spec fn restyles_invalid(old: Seq<Slot>, cur: int, op: Op) -> bool {
    match op {
        Op::Update(rs) => exists|k: int| 0 <= k < rs@.len() && #[trigger] old_at(old, cur + k) is Invalid,
        _ => false,
    }
}

/// The slots that replaying `ops` against `old` produces.
pub open spec fn replay(old: Seq<Slot>, ops: Seq<Op>) -> Seq<Slot>
    decreases ops.len(),
{
    if ops.len() == 0 {
        Seq::empty()
    } else {
        let pre = ops.drop_last();
        replay(old, pre) + emit(old, consumed(pre), ops.last())
    }
}

/// Whether some update of `ops` restyles a slot whose content is not known.
pub open spec fn any_restyles_invalid(old: Seq<Slot>, ops: Seq<Op>) -> bool
    decreases ops.len(),
{
    if ops.len() == 0 {
        false
    } else {
        let pre = ops.drop_last();
        any_restyles_invalid(old, pre) || restyles_invalid(old, consumed(pre), ops.last())
    }
}

/// What replaying `ops` against `old` reports.
pub open spec fn replay_outcome(old: Seq<Slot>, ops: Seq<Op>) -> Result<(), ProtocolError> {
    if consumed(ops) > old.len() {
        Err(ProtocolError::Overrun)
    } else if consumed(ops) < old.len() {
        Err(ProtocolError::Underrun)
    } else if any_restyles_invalid(old, ops) {
        Err(ProtocolError::RestyleOfInvalid)
    } else {
        Ok(())
    }
}

/// Replaying a script appends exactly the non-skip counts, and a replay is
/// reported as fitting only where the script consumed the whole old cache.
pub proof fn law_replay_accounting(old: Seq<Slot>, ops: Seq<Op>)
    ensures
        replay(old, ops).len() == emitted_count(ops),
        replay_outcome(old, ops) is Ok ==> consumed(ops) == old.len(),
        consumed(ops) != old.len() ==> replay_outcome(old, ops) is Err,
    decreases ops.len(),
{
    if ops.len() > 0 {
        law_replay_accounting(old, ops.drop_last());
    }
}

/// Copying the whole cache gives the cache back, and fits it.
pub proof fn law_copy_all_is_identity(old: Seq<Slot>)
    requires
        old.len() <= u64::MAX,
    ensures
        replay(old, seq![Op::Copy(old.len() as u64)]) == old,
        replay_outcome(old, seq![Op::Copy(old.len() as u64)]) == Ok::<(), ProtocolError>(()),
{
    let ops = seq![Op::Copy(old.len() as u64)];
    let pre = ops.drop_last();
    assert(pre =~= Seq::<Op>::empty());
    assert(ops.last() == Op::Copy(old.len() as u64));
    assert(consumed(pre) == 0);
    assert(replay(old, pre) == Seq::<Slot>::empty());
    assert(!any_restyles_invalid(old, pre));
    assert(emit(old, 0, ops.last()) =~= old);
    assert(replay(old, ops) =~= old);
    assert(!any_restyles_invalid(old, ops));
}

/// Within one script the old cursor never moves backward.
pub proof fn law_cursor_monotonic(ops: Seq<Op>, i: int, j: int)
    requires
        0 <= i <= j <= ops.len(),
    ensures
        consumed(ops.take(i)) <= consumed(ops.take(j)),
    decreases j - i,
{
    if i < j {
        law_cursor_monotonic(ops, i, j - 1);
        assert(ops.take(j).drop_last() =~= ops.take(j - 1));
    }
}

} // verus!
