use vstd::prelude::*;

use crate::cursor::{Buffer, IBuffer};
use crate::error::BufferError;

verus! {

/// A cursor with a read-only flag, the part of a byte buffer that holds no bytes.
#[derive(Debug, Clone, Copy, PartialEq, Eq, Structural)]
pub struct ByteBuffer {
    pub buffer: Buffer,
    pub read_only: bool,
}

impl ByteBuffer {
    /// Makes the cursor `(mark, pos, limit, cap)`; fails, changing nothing, when
    /// that tuple breaks the cursor invariant.
    pub fn default(&mut self, mark: i32, pos: i32, limit: i32, cap: i32) -> (r: Result<
        (),
        BufferError,
    >)
        ensures
            (Buffer { mark, position: pos, limit, cap }).wf() ==> r == Ok::<(), BufferError>(())
                && *final(self) == (ByteBuffer {
                buffer: Buffer { mark, position: pos, limit, cap },
                read_only: old(self).read_only,
            }),
            !(Buffer { mark, position: pos, limit, cap }).wf() ==> r == Err::<(), BufferError>(
                BufferError::IllegalArgument,
            ) && *final(self) == *old(self),
    {
        self.new(mark, pos, limit, cap, 0)
    }

    /// Makes the cursor `(mark, pos, limit, cap)` as `default` does. A cursor has
    /// no bytes to be offset into, so the offset is not kept.
    pub fn new(&mut self, mark: i32, pos: i32, limit: i32, cap: i32, _offset: i32) -> (r: Result<
        (),
        BufferError,
    >)
        ensures
            (Buffer { mark, position: pos, limit, cap }).wf() ==> r == Ok::<(), BufferError>(())
                && *final(self) == (ByteBuffer {
                buffer: Buffer { mark, position: pos, limit, cap },
                read_only: old(self).read_only,
            }),
            !(Buffer { mark, position: pos, limit, cap }).wf() ==> r == Err::<(), BufferError>(
                BufferError::IllegalArgument,
            ) && *final(self) == *old(self),
    {
        let mut buffer = Buffer::default();
        match buffer.new(mark, pos, limit, cap) {
            Ok(()) => {
                self.buffer = buffer;
                Ok(())
            },
            Err(e) => Err(e),
        }
    }

    /// A writable buffer with cursor `(mark, pos, limit, cap)`; fails when that
    /// tuple breaks the cursor invariant.
    pub fn new_(mark: i32, pos: i32, limit: i32, cap: i32) -> (r: Result<Self, BufferError>)
        ensures
            (Buffer { mark, position: pos, limit, cap }).wf() ==> r == Ok::<
                ByteBuffer,
                BufferError,
            >(ByteBuffer { buffer: Buffer { mark, position: pos, limit, cap }, read_only: false }),
            !(Buffer { mark, position: pos, limit, cap }).wf() ==> r == Err::<
                ByteBuffer,
                BufferError,
            >(BufferError::IllegalArgument),
    {
        let mut buffer = match Buffer::new_(mark, pos, limit, cap) {
            Ok(b) => b,
            Err(e) => return Err(e),
        };
        match buffer.init() {
            Ok(()) => Ok(ByteBuffer { buffer, read_only: false }),
            Err(e) => Err(e),
        }
    }
}

impl IBuffer for ByteBuffer {
    open spec fn cursor(&self) -> Buffer {
        self.buffer
    }

    open spec fn with_cursor(&self, c: Buffer) -> ByteBuffer {
        ByteBuffer { buffer: c, ..*self }
    }

    proof fn lemma_with_cursor(&self, c: Buffer) {
    }

    fn mark(&self) -> (r: i32) {
        self.buffer.mark
    }

    fn cap(&self) -> (r: i32) {
        self.buffer.cap
    }

    fn position(&self) -> (r: i32) {
        self.buffer.position
    }

    fn limit(&self) -> (r: i32) {
        self.buffer.limit
    }

    fn reset(&mut self) -> (r: Result<(), BufferError>) {
        self.buffer.reset()
    }

    fn limit_(&mut self, n: i32) -> (r: Result<(), BufferError>) {
        self.buffer.limit_(n)
    }

    fn position_(&mut self, n: i32) -> (r: Result<(), BufferError>) {
        self.buffer.position_(n)
    }

    fn mark_(&mut self) -> (r: &mut Self) {
        self.buffer.mark_();
        self
    }

    fn clear(&mut self) -> (r: &mut Self) {
        self.buffer.clear();
        self
    }

    /// Drops the capacity to 0.
    fn truncate(&mut self)
        ensures
            final(self).buffer == old(self).buffer.truncated(),
    {
        self.buffer.truncate()
    }

    fn flip(&mut self) -> (r: &mut Self) {
        self.buffer.flip();
        self
    }

    fn rewind(&mut self) -> (r: &mut Self) {
        self.buffer.rewind();
        self
    }
}

} // verus!
