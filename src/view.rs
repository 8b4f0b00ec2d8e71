use vstd::prelude::*;

use crate::byte_buffer::ByteBuffer;
use crate::cursor::{Buffer, IBuffer};
use crate::error::BufferError;
use crate::store::{copy_into, overwrite, zeroed, Store};

verus! {

/// A view: a cursor over a window of one region of a [`Store`].
///
/// `hb` names the region and `offset` is where the window starts in it: index
/// `i` of the view is index `offset + i` of the region. Views made by `slice`
/// and `duplicate` name the same region, so bytes written through one are read
/// through the others, while each keeps its own cursor.
#[derive(Debug, Clone, Copy, PartialEq, Eq, Structural)]
pub struct CloneByteBuffer {
    pub buffer: ByteBuffer,
    pub hb: usize,
    pub offset: i32,
}

impl CloneByteBuffer {
    /// The cursor of this view.
    pub open spec fn cur(self) -> Buffer {
        self.buffer.buffer
    }

    /// What holds of a view whatever the store: a valid cursor, and a window
    /// `offset .. offset + cap` whose indices fit in an `i32`.
    pub open spec fn wf_cursor(self) -> bool {
        &&& self.cur().wf()
        &&& 0 <= self.offset
        &&& self.offset + self.cur().cap <= i32::MAX
    }

    /// A valid view over store contents `s`: its region exists and holds its window.
    pub open spec fn wf(self, s: Seq<Seq<u8>>) -> bool {
        &&& self.wf_cursor()
        &&& self.hb < s.len()
        &&& self.offset + self.cur().cap <= s[self.hb as int].len()
    }

    /// The byte at view index `i`.
    pub open spec fn byte_at(self, s: Seq<Seq<u8>>, i: int) -> u8 {
        s[self.hb as int][self.offset + i]
    }

    /// The `n` bytes from view index `i`.
    pub open spec fn span(self, s: Seq<Seq<u8>>, i: int, n: int) -> Seq<u8> {
        s[self.hb as int].subrange(self.offset + i, self.offset + i + n)
    }

    /// The store contents after writing `x` at view index `i`.
    pub open spec fn stored(self, s: Seq<Seq<u8>>, i: int, x: u8) -> Seq<Seq<u8>> {
        s.update(self.hb as int, s[self.hb as int].update(self.offset + i, x))
    }

    /// The store contents after writing `bytes` from view index `i`.
    pub open spec fn stored_span(self, s: Seq<Seq<u8>>, i: int, bytes: Seq<u8>) -> Seq<Seq<u8>> {
        s.update(self.hb as int, overwrite(s[self.hb as int], self.offset + i, bytes))
    }

    /// This view with its position moved `n` forward.
    pub open spec fn advanced(self, n: int) -> CloneByteBuffer {
        self.with_cursor(self.cur().advanced(n))
    }

    /// The view that `slice` makes: the remaining window of this one, from
    /// position 0, over the same region.
    pub open spec fn sliced(self) -> CloneByteBuffer {
        CloneByteBuffer {
            buffer: ByteBuffer {
                buffer: Buffer {
                    mark: -1i32,
                    position: 0,
                    limit: (self.cur().limit - self.cur().position) as i32,
                    cap: (self.cur().limit - self.cur().position) as i32,
                },
                read_only: false,
            },
            hb: self.hb,
            offset: (self.offset + self.cur().position) as i32,
        }
    }

    /// A view over a new region holding `buf`, with cursor
    /// `(mark, pos, limit, cap)` and its window from the start of the region.
    /// The window always starts at 0, so `_off` is not used. Fails, adding no
    /// region, when the cursor is invalid or `cap` is more than `buf` holds.
    pub fn new(
        store: &mut Store,
        buf: Vec<u8>,
        mark: i32,
        pos: i32,
        limit: i32,
        cap: i32,
        _off: i32,
    ) -> (r: Result<Self, BufferError>)
        ensures
            (Buffer { mark, position: pos, limit, cap }).wf() && cap <= buf@.len() ==> r == Ok::<
                CloneByteBuffer,
                BufferError,
            >(
                CloneByteBuffer {
                    buffer: ByteBuffer {
                        buffer: Buffer { mark, position: pos, limit, cap },
                        read_only: false,
                    },
                    hb: old(store)@.len() as usize,
                    offset: 0,
                },
            ) && final(store)@ == old(store)@.push(buf@),
            !((Buffer { mark, position: pos, limit, cap }).wf() && cap <= buf@.len()) ==> r
                == Err::<CloneByteBuffer, BufferError>(BufferError::IllegalArgument)
                && final(store)@ == old(store)@,
            r is Ok ==> r->Ok_0.wf(final(store)@),
    {
        let buffer = match ByteBuffer::new_(mark, pos, limit, cap) {
            Ok(b) => b,
            Err(e) => return Err(e),
        };
        if cap as usize > buf.len() {
            return Err(BufferError::IllegalArgument);
        }
        let hb = store.add_region(buf);
        Ok(CloneByteBuffer { buffer, hb, offset: 0 })
    }

    /// A view over a new region of `cap` zero bytes, with position 0, limit
    /// `limit` and no mark. Fails, adding no region, unless `0 <= limit <= cap`.
    pub fn new2(store: &mut Store, cap: i32, limit: i32) -> (r: Result<Self, BufferError>)
        ensures
            0 <= limit <= cap ==> r == Ok::<CloneByteBuffer, BufferError>(
                CloneByteBuffer {
                    buffer: ByteBuffer {
                        buffer: Buffer { mark: -1i32, position: 0, limit, cap },
                        read_only: false,
                    },
                    hb: old(store)@.len() as usize,
                    offset: 0,
                },
            ) && final(store)@ == old(store)@.push(Seq::new(cap as nat, |i: int| 0u8)),
            !(0 <= limit <= cap) ==> r == Err::<CloneByteBuffer, BufferError>(
                BufferError::IllegalArgument,
            ) && final(store)@ == old(store)@,
            r is Ok ==> r->Ok_0.wf(final(store)@),
    {
        let buffer = match ByteBuffer::new_(-1, 0, limit, cap) {
            Ok(b) => b,
            Err(e) => return Err(e),
        };
        let buf = zeroed(cap as usize);
        let hb = store.add_region(buf);
        Ok(CloneByteBuffer { buffer, hb, offset: 0 })
    }

    /// A view over a new region holding `buf` (moved in, not copied), whose
    /// window is the whole region and whose cursor reads `len` bytes from
    /// `off`: position `off`, limit `off + len`, no mark. Fails, adding no
    /// region, unless `0 <= off`, `0 <= len` and `off + len <= buf.len()`, or
    /// when `buf` is longer than an `i32` indexes.
    pub fn new3(store: &mut Store, buf: Vec<u8>, off: i32, len: i32) -> (r: Result<
        Self,
        BufferError,
    >)
        ensures
            (0 <= off && 0 <= len && off + len <= buf@.len() <= i32::MAX) ==> r == Ok::<
                CloneByteBuffer,
                BufferError,
            >(
                CloneByteBuffer {
                    buffer: ByteBuffer {
                        buffer: Buffer {
                            mark: -1i32,
                            position: off,
                            limit: (off + len) as i32,
                            cap: buf@.len() as i32,
                        },
                        read_only: false,
                    },
                    hb: old(store)@.len() as usize,
                    offset: 0,
                },
            ) && final(store)@ == old(store)@.push(buf@),
            !(0 <= off && 0 <= len && off + len <= buf@.len() <= i32::MAX) ==> r == Err::<
                CloneByteBuffer,
                BufferError,
            >(BufferError::IllegalArgument) && final(store)@ == old(store)@,
            r is Ok ==> r->Ok_0.wf(final(store)@),
    {
        if buf.len() > i32::MAX as usize || off < 0 || len < 0 || off > buf.len() as i32 - len {
            return Err(BufferError::IllegalArgument);
        }
        let buffer = match ByteBuffer::new_(-1, off, off + len, buf.len() as i32) {
            Ok(b) => b,
            Err(e) => return Err(e),
        };
        let hb = store.add_region(buf);
        Ok(CloneByteBuffer { buffer, hb, offset: 0 })
    }

    /// The view made of these three parts, as they are.
    pub fn new_(buffer: ByteBuffer, hb: usize, offset: i32) -> (r: Self)
        ensures
            r == (CloneByteBuffer { buffer, hb, offset }),
    {
        CloneByteBuffer { buffer, hb, offset }
    }

    /// A new view over the remaining window of this one: it starts at this
    /// view's position, has `remaining()` as limit and capacity, position 0 and
    /// no mark, and shares this view's region. Nothing is copied.
    pub fn slice(&self) -> (r: Self)
        requires
            self.wf_cursor(),
        ensures
            r == self.sliced(),
            r.wf_cursor(),
            forall|s: Seq<Seq<u8>>| self.wf(s) ==> r.wf(s),
    {
        let rem = self.buffer.remaining();
        let buffer = ByteBuffer { buffer: Buffer { mark: -1, position: 0, limit: rem, cap: rem }, read_only: false };
        CloneByteBuffer { buffer, hb: self.hb, offset: self.buffer.position() + self.offset }
    }

    /// A new view with a copy of this view's cursor, over the same window of
    /// the same region.
    pub fn duplicate(&self) -> (r: Self)
        ensures
            r == *self,
    {
        CloneByteBuffer { buffer: self.buffer, hb: self.hb, offset: self.offset }
    }

    /// The region index of view index `i`.
    pub fn ix(&self, i: i32) -> (r: i32)
        requires
            i32::MIN <= i + self.offset <= i32::MAX,
        ensures
            r == i + self.offset,
    {
        i + self.offset
    }

    /// Reads the byte at the position, which then moves one forward; fails when
    /// nothing remains.
    pub fn get(&mut self, store: &Store) -> (r: Result<u8, BufferError>)
        requires
            old(self).wf(store@),
        ensures
            old(self).cur().position >= old(self).cur().limit ==> r == Err::<u8, BufferError>(
                BufferError::BufferUnderflow,
            ) && *final(self) == *old(self),
            old(self).cur().position < old(self).cur().limit ==> r == Ok::<u8, BufferError>(
                old(self).byte_at(store@, old(self).cur().position as int),
            ) && *final(self) == old(self).advanced(1),
            final(self).wf(store@),
    {
        let idx = match self.buffer.buffer.next_get_index() {
            Ok(i) => i,
            Err(e) => return Err(e),
        };
        Ok(self.get_idx_(store, idx))
    }

    /// Reads the byte at view index `i`; fails unless `0 <= i < limit`. The
    /// cursor does not move.
    pub fn get_i(&mut self, store: &Store, i: i32) -> (r: Result<u8, BufferError>)
        requires
            old(self).wf(store@),
        ensures
            *final(self) == *old(self),
            0 <= i < old(self).cur().limit ==> r == Ok::<u8, BufferError>(
                old(self).byte_at(store@, i as int),
            ),
            !(0 <= i < old(self).cur().limit) ==> r == Err::<u8, BufferError>(
                BufferError::IndexOutOfBounds,
            ),
    {
        let idx = match self.buffer.buffer.check_index(i) {
            Ok(i) => i,
            Err(e) => return Err(e),
        };
        Ok(self.get_idx_(store, idx))
    }

    fn get_idx_(&self, store: &Store, i: i32) -> (r: u8)
        requires
            self.wf(store@),
            0 <= i < self.cur().cap,
        ensures
            r == self.byte_at(store@, i as int),
    {
        let ix = self.ix(i) as usize;
        store.read(self.hb, ix)
    }

    /// Writes `x` at the position, which then moves one forward; fails when no
    /// room remains.
    pub fn put(&mut self, store: &mut Store, x: u8) -> (r: Result<(), BufferError>)
        requires
            old(self).wf(old(store)@),
        ensures
            old(self).cur().position >= old(self).cur().limit ==> r == Err::<(), BufferError>(
                BufferError::BufferOverflow,
            ) && *final(self) == *old(self) && final(store)@ == old(store)@,
            old(self).cur().position < old(self).cur().limit ==> r == Ok::<(), BufferError>(())
                && *final(self) == old(self).advanced(1) && final(store)@ == old(self).stored(
                old(store)@,
                old(self).cur().position as int,
                x,
            ),
            final(self).wf(final(store)@),
    {
        let idx = match self.buffer.buffer.next_put_index() {
            Ok(i) => i,
            Err(e) => return Err(e),
        };
        self.put_idx_(store, x, idx);
        Ok(())
    }

    /// Writes `x` at view index `i`; fails unless `0 <= i < limit`. The cursor
    /// does not move.
    pub fn put_i(&mut self, store: &mut Store, x: u8, i: i32) -> (r: Result<(), BufferError>)
        requires
            old(self).wf(old(store)@),
        ensures
            *final(self) == *old(self),
            0 <= i < old(self).cur().limit ==> r == Ok::<(), BufferError>(()) && final(store)@
                == old(self).stored(old(store)@, i as int, x),
            !(0 <= i < old(self).cur().limit) ==> r == Err::<(), BufferError>(
                BufferError::IndexOutOfBounds,
            ) && final(store)@ == old(store)@,
            final(self).wf(final(store)@),
    {
        let idx = match self.buffer.buffer.check_index(i) {
            Ok(i) => i,
            Err(e) => return Err(e),
        };
        self.put_idx_(store, x, idx);
        Ok(())
    }

    fn put_idx_(&self, store: &mut Store, x: u8, i: i32)
        requires
            self.wf(old(store)@),
            0 <= i < self.cur().cap,
        ensures
            final(store)@ == self.stored(old(store)@, i as int, x),
            self.wf(final(store)@),
    {
        let ix = self.ix(i) as usize;
        store.write(self.hb, ix, x);
    }

    /// Copies the `length` bytes from the position into `dst` from index
    /// `offset`; the position then moves `length` forward. Fails with
    /// `IndexOutOfBounds` unless `offset .. offset + length` lies in `dst`, then
    /// with `BufferUnderflow` when `length` is more than what remains. A refused
    /// call changes nothing.
    pub fn get_buf(&mut self, store: &Store, dst: &mut Vec<u8>, offset: i32, length: i32) -> (r:
        Result<(), BufferError>)
        requires
            old(self).wf(store@),
        ensures
            !(0 <= offset && 0 <= length && offset + length <= old(dst)@.len()) ==> r == Err::<
                (),
                BufferError,
            >(BufferError::IndexOutOfBounds) && *final(self) == *old(self) && final(dst)@ == old(
                dst,
            )@,
            (0 <= offset && 0 <= length && offset + length <= old(dst)@.len()) && length > old(
                self,
            ).cur().spec_remaining() ==> r == Err::<(), BufferError>(BufferError::BufferUnderflow)
                && *final(self) == *old(self) && final(dst)@ == old(dst)@,
            (0 <= offset && 0 <= length && offset + length <= old(dst)@.len()) && length <= old(
                self,
            ).cur().spec_remaining() ==> r == Ok::<(), BufferError>(()) && *final(self) == old(
                self,
            ).advanced(length as int) && final(dst)@ == overwrite(
                old(dst)@,
                offset as int,
                old(self).span(store@, old(self).cur().position as int, length as int),
            ),
            final(self).wf(store@),
    {
        match check_range(offset, length, dst.len()) {
            Ok(()) => {},
            Err(e) => return Err(e),
        }
        let pos = match self.buffer.buffer.next_get_index_nb(length) {
            Ok(p) => p,
            Err(e) => return Err(e),
        };
        let src_start = self.ix(pos) as usize;
        let bytes = store.read_span(self.hb, src_start, length as usize);
        copy_into(dst, offset as usize, bytes.as_slice());
        Ok(())
    }

    /// Copies the `length` bytes of `src` from index `offset` into this view
    /// from the position, which then moves `length` forward. Fails with
    /// `IndexOutOfBounds` unless `offset .. offset + length` lies in `src`, then
    /// with `BufferOverflow` when `length` is more than the room that remains.
    /// A refused call changes nothing.
    pub fn put_buf(&mut self, store: &mut Store, src: &Vec<u8>, offset: i32, length: i32) -> (r:
        Result<(), BufferError>)
        requires
            old(self).wf(old(store)@),
        ensures
            !(0 <= offset && 0 <= length && offset + length <= src@.len()) ==> r == Err::<
                (),
                BufferError,
            >(BufferError::IndexOutOfBounds) && *final(self) == *old(self) && final(store)@ == old(
                store,
            )@,
            (0 <= offset && 0 <= length && offset + length <= src@.len()) && length > old(
                self,
            ).cur().spec_remaining() ==> r == Err::<(), BufferError>(BufferError::BufferOverflow)
                && *final(self) == *old(self) && final(store)@ == old(store)@,
            (0 <= offset && 0 <= length && offset + length <= src@.len()) && length <= old(
                self,
            ).cur().spec_remaining() ==> r == Ok::<(), BufferError>(()) && *final(self) == old(
                self,
            ).advanced(length as int) && final(store)@ == old(self).stored_span(
                old(store)@,
                old(self).cur().position as int,
                src@.subrange(offset as int, offset + length),
            ),
            final(self).wf(final(store)@),
    {
        match check_range(offset, length, src.len()) {
            Ok(()) => {},
            Err(e) => return Err(e),
        }
        let pos = match self.buffer.buffer.next_put_index_nb(length) {
            Ok(p) => p,
            Err(e) => return Err(e),
        };
        let dst_start = self.ix(pos) as usize;
        let bytes = src_span(src, offset as usize, length as usize);
        store.write_span(self.hb, dst_start, bytes.as_slice());
        Ok(())
    }

    /// Copies what remains of `other` into this view from the position; both
    /// positions then move forward by that many bytes. Fails with
    /// `BufferOverflow`, changing nothing, when `other` has more remaining than
    /// this view has room. The source bytes are all read before any is
    /// written, so views whose windows overlap in one region copy correctly.
    pub fn put_buffer(&mut self, store: &mut Store, other: &mut CloneByteBuffer) -> (r: Result<
        (),
        BufferError,
    >)
        requires
            old(self).wf(old(store)@),
            old(other).wf(old(store)@),
        ensures
            old(other).cur().spec_remaining() > old(self).cur().spec_remaining() ==> r == Err::<
                (),
                BufferError,
            >(BufferError::BufferOverflow) && *final(self) == *old(self) && *final(other) == *old(
                other,
            ) && final(store)@ == old(store)@,
            old(other).cur().spec_remaining() <= old(self).cur().spec_remaining() ==> r == Ok::<
                (),
                BufferError,
            >(()) && *final(self) == old(self).advanced(old(other).cur().spec_remaining())
                && *final(other) == old(other).advanced(old(other).cur().spec_remaining())
                && final(store)@ == old(self).stored_span(
                old(store)@,
                old(self).cur().position as int,
                old(other).span(
                    old(store)@,
                    old(other).cur().position as int,
                    old(other).cur().spec_remaining(),
                ),
            ),
            final(self).wf(final(store)@),
            final(other).wf(final(store)@),
    {
        let n = other.buffer.remaining();
        if n > self.buffer.remaining() {
            return Err(BufferError::BufferOverflow);
        }
        let src_start = other.ix(other.buffer.position()) as usize;
        let dst_start = self.ix(self.buffer.position()) as usize;
        let bytes = store.read_span(other.hb, src_start, n as usize);
        store.write_span(self.hb, dst_start, bytes.as_slice());
        match other.buffer.buffer.next_get_index_nb(n) {
            Ok(_) => {},
            Err(e) => return Err(e),
        }
        match self.buffer.buffer.next_put_index_nb(n) {
            Ok(_) => {},
            Err(e) => return Err(e),
        }
        Ok(())
    }
}

/// Succeeds when `off .. off + len` is a range within `0 .. size`, for a
/// `size` that may be past what an `i32` holds.
fn check_range(off: i32, len: i32, size: usize) -> (r: Result<(), BufferError>)
    ensures
        0 <= off && 0 <= len && off + len <= size ==> r == Ok::<(), BufferError>(()),
        !(0 <= off && 0 <= len && off + len <= size) ==> r == Err::<(), BufferError>(
            BufferError::IndexOutOfBounds,
        ),
{
    if size <= i32::MAX as usize {
        Buffer::check_bounds(off, len, size as i32)
    } else if off < 0 || len < 0 || off as u64 + len as u64 > size as u64 {
        Err(BufferError::IndexOutOfBounds)
    } else {
        Ok(())
    }
}

/// A copy of the `n` bytes of `src` from index `at`.
fn src_span(src: &Vec<u8>, at: usize, n: usize) -> (r: Vec<u8>)
    requires
        at + n <= src@.len(),
    ensures
        r@ == src@.subrange(at as int, at + n),
{
    let mut r: Vec<u8> = Vec::with_capacity(n);
    let mut k: usize = 0;
    while k < n
        invariant
            k <= n,
            at + n <= src.len(),
            r@ == src@.subrange(at as int, at + k),
        decreases n - k,
    {
        r.push(src[at + k]);
        k = k + 1;
        assert(r@ =~= src@.subrange(at as int, at + k));
    }
    r
}

impl IBuffer for CloneByteBuffer {
    open spec fn cursor(&self) -> Buffer {
        self.buffer.buffer
    }

    open spec fn with_cursor(&self, c: Buffer) -> CloneByteBuffer {
        CloneByteBuffer { buffer: ByteBuffer { buffer: c, ..self.buffer }, ..*self }
    }

    proof fn lemma_with_cursor(&self, c: Buffer) {
    }

    fn mark(&self) -> (r: i32) {
        self.buffer.mark()
    }

    fn cap(&self) -> (r: i32) {
        self.buffer.cap()
    }

    fn position(&self) -> (r: i32) {
        self.buffer.position()
    }

    fn limit(&self) -> (r: i32) {
        self.buffer.limit()
    }

    fn reset(&mut self) -> (r: Result<(), BufferError>) {
        self.buffer.reset()
    }

    fn limit_(&mut self, n: i32) -> (r: Result<(), BufferError>) {
        self.buffer.limit_(n)
    }

    fn position_(&mut self, n: i32) -> (r: Result<(), BufferError>) {
        self.buffer.position_(n)
    }

    fn mark_(&mut self) -> (r: &mut Self) {
        self.buffer.mark_();
        self
    }

    fn clear(&mut self) -> (r: &mut Self) {
        self.buffer.clear();
        self
    }

    /// A view keeps its window: truncating it clears it.
    fn truncate(&mut self)
        ensures
            final(self).cur() == old(self).cur().cleared(),
    {
        self.buffer.clear();
    }

    fn flip(&mut self) -> (r: &mut Self) {
        self.buffer.flip();
        self
    }

    fn rewind(&mut self) -> (r: &mut Self) {
        self.buffer.rewind();
        self
    }
}

} // verus!
