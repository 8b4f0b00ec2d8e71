use vstd::prelude::*;

use crate::cursor::{Buffer, IBuffer};
use crate::view::CloneByteBuffer;

verus! {

/// One cursor operation, with its argument.
#[derive(Debug, Clone, Copy, PartialEq, Eq, Structural)]
pub enum CursorOp {
    Mark,
    Reset,
    Limit(i32),
    Position(i32),
    Clear,
    Flip,
    Rewind,
    DiscardMark,
}

/// The cursor that `op` leaves: the new one where the operation succeeds, the
/// same one where it is refused.
pub open spec fn step(b: Buffer, op: CursorOp) -> Buffer {
    match op {
        CursorOp::Mark => b.marked(),
        CursorOp::Reset => if b.mark < 0 {
            b
        } else {
            b.reset_to_mark()
        },
        CursorOp::Limit(n) => if 0 <= n <= b.cap {
            b.with_limit(n)
        } else {
            b
        },
        CursorOp::Position(n) => if 0 <= n <= b.limit {
            b.with_position(n)
        } else {
            b
        },
        CursorOp::Clear => b.cleared(),
        CursorOp::Flip => b.flipped(),
        CursorOp::Rewind => b.rewound(),
        CursorOp::DiscardMark => b.unmarked(),
    }
}

/// The cursor after the operations `ops`, in order, from `b`.
pub open spec fn run(b: Buffer, ops: Seq<CursorOp>) -> Buffer
    decreases ops.len(),
{
    if ops.len() == 0 {
        b
    } else {
        step(run(b, ops.drop_last()), ops.last())
    }
}

/// From a valid cursor, any sequence of cursor operations leaves a valid
/// cursor. Every prefix of a sequence is a sequence too, so the invariant holds
/// after each operation.
pub proof fn lemma_cursor_ops_keep_invariant(b: Buffer, ops: Seq<CursorOp>)
    requires
        b.wf(),
    ensures
        run(b, ops).wf(),
    decreases ops.len(),
{
    if ops.len() > 0 {
        lemma_cursor_ops_keep_invariant(b, ops.drop_last());
    }
}

/// Clearing twice is clearing once, and rewinding twice is rewinding once.
pub proof fn lemma_clear_rewind_idempotent(b: Buffer)
    ensures
        b.cleared().cleared() == b.cleared(),
        b.rewound().rewound() == b.rewound(),
{
}

/// The view and store contents after `put` of each of `bytes` in order, each
/// finding room.
pub open spec fn put_all(v: CloneByteBuffer, s: Seq<Seq<u8>>, bytes: Seq<u8>) -> (
    CloneByteBuffer,
    Seq<Seq<u8>>,
)
    decreases bytes.len(),
{
    if bytes.len() == 0 {
        (v, s)
    } else {
        let (w, t) = put_all(v, s, bytes.drop_last());
        (w.advanced(1), w.stored(t, w.cur().position as int, bytes.last()))
    }
}

/// The view after `n` calls of `get`, each finding a byte, and the bytes read.
pub open spec fn get_all(v: CloneByteBuffer, s: Seq<Seq<u8>>, n: nat) -> (
    CloneByteBuffer,
    Seq<u8>,
)
    decreases n,
{
    if n == 0 {
        (v, Seq::empty())
    } else {
        let (w, r) = get_all(v, s, (n - 1) as nat);
        (w.advanced(1), r.push(w.byte_at(s, w.cur().position as int)))
    }
}

proof fn lemma_put_all(v: CloneByteBuffer, s: Seq<Seq<u8>>, bytes: Seq<u8>)
    requires
        v.wf(s),
        v.cur().position + bytes.len() <= v.cur().limit,
    ensures
        put_all(v, s, bytes).0 == v.advanced(bytes.len() as int),
        put_all(v, s, bytes).0.wf(put_all(v, s, bytes).1),
        put_all(v, s, bytes).1.len() == s.len(),
        put_all(v, s, bytes).1[v.hb as int].len() == s[v.hb as int].len(),
        forall|j: int|
            0 <= j < bytes.len() ==> #[trigger] put_all(v, s, bytes).0.byte_at(
                put_all(v, s, bytes).1,
                v.cur().position + j,
            ) == bytes[j],
    decreases bytes.len(),
{
    if bytes.len() > 0 {
        let prefix = bytes.drop_last();
        lemma_put_all(v, s, prefix);
        let (w, t) = put_all(v, s, prefix);
        assert forall|j: int| 0 <= j < bytes.len() implies #[trigger] put_all(
            v,
            s,
            bytes,
        ).0.byte_at(put_all(v, s, bytes).1, v.cur().position + j) == bytes[j] by {
            if j < prefix.len() {
                assert(w.byte_at(t, v.cur().position + j) == prefix[j]);
            }
        }
    }
}

proof fn lemma_get_all(v: CloneByteBuffer, s: Seq<Seq<u8>>, n: nat)
    requires
        v.wf(s),
        v.cur().position + n <= v.cur().limit,
    ensures
        get_all(v, s, n).0 == v.advanced(n as int),
        get_all(v, s, n).1 == v.span(s, v.cur().position as int, n as int),
    decreases n,
{
    if n > 0 {
        lemma_get_all(v, s, (n - 1) as nat);
        assert(get_all(v, s, n).1 =~= v.span(s, v.cur().position as int, n as int));
    }
}

/// Writing `bytes` from position 0 and then flipping gives position 0 and
/// limit `bytes.len()`; reading that many bytes then gives back `bytes`, in
/// order.
pub proof fn lemma_flip_round_trip(v: CloneByteBuffer, s: Seq<Seq<u8>>, bytes: Seq<u8>)
    requires
        v.wf(s),
        v.cur().position == 0,
        bytes.len() <= v.cur().limit,
    ensures
        ({
            let (w, t) = put_all(v, s, bytes);
            let f = w.with_cursor(w.cur().flipped());
            &&& f.wf(t)
            &&& f.cur().position == 0
            &&& f.cur().limit == bytes.len()
            &&& get_all(f, t, bytes.len()).1 == bytes
        }),
{
    lemma_put_all(v, s, bytes);
    let (w, t) = put_all(v, s, bytes);
    let f = w.with_cursor(w.cur().flipped());
    lemma_get_all(f, t, bytes.len());
    assert forall|j: int| 0 <= j < bytes.len() implies #[trigger] f.span(t, 0, bytes.len() as int)[j]
        == bytes[j] by {
        assert(w.byte_at(t, v.cur().position + j) == bytes[j]);
    }
    assert(get_all(f, t, bytes.len()).1 =~= bytes);
}

/// A slice reaches the bytes of its parent from the parent's position `p`:
/// its index `k` reads the parent's index `p + k`, and a write through it at
/// `k` is the parent's write at `p + k`, seen by the parent with no copy.
pub proof fn lemma_slice_aliases(v: CloneByteBuffer, s: Seq<Seq<u8>>, k: int, x: u8)
    requires
        v.wf(s),
        0 <= k < v.cur().spec_remaining(),
    ensures
        v.sliced().wf(s),
        v.sliced().byte_at(s, k) == v.byte_at(s, v.cur().position + k),
        v.sliced().stored(s, k, x) == v.stored(s, v.cur().position + k, x),
        v.byte_at(v.sliced().stored(s, k, x), v.cur().position + k) == x,
{
}

/// A duplicate, wherever its cursor is moved, reaches the same bytes as the
/// view it was made from: the two read the same byte at each index, and a
/// write through either at index `i` is read by the other at `i`.
pub proof fn lemma_duplicate_shares_bytes(
    v: CloneByteBuffer,
    c: Buffer,
    s: Seq<Seq<u8>>,
    i: int,
    x: u8,
)
    requires
        v.wf(s),
        0 <= i < v.cur().cap,
    ensures
        ({
            let d = v.with_cursor(c);
            &&& d.byte_at(s, i) == v.byte_at(s, i)
            &&& v.byte_at(d.stored(s, i, x), i) == x
            &&& d.byte_at(v.stored(s, i, x), i) == x
        }),
{
}

} // verus!
