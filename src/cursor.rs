use vstd::prelude::*;

use crate::error::BufferError;

verus! {

/// The cursor of a buffer: `mark`, `position`, `limit` and `cap`.
///
/// A valid cursor (see [`Buffer::wf`]) has an unset mark (`-1`) or one at most
/// the position, and `0 <= position <= limit <= cap`.
#[derive(Debug, Clone, Copy, PartialEq, Eq, Structural)]
pub struct Buffer {
    pub mark: i32,
    pub position: i32,
    pub limit: i32,
    pub cap: i32,
}

impl Buffer {
    /// The cursor invariant.
    pub open spec fn wf(self) -> bool {
        &&& 0 <= self.position <= self.limit <= self.cap
        &&& (self.mark == -1 || 0 <= self.mark <= self.position)
    }

    /// `limit - position`.
    pub open spec fn spec_remaining(self) -> int {
        self.limit - self.position
    }

    /// The cursor after `mark_`: the mark saves the position.
    pub open spec fn marked(self) -> Buffer {
        Buffer { mark: self.position, ..self }
    }

    /// The cursor after a successful `reset`: the position returns to the mark.
    pub open spec fn reset_to_mark(self) -> Buffer {
        Buffer { position: self.mark, ..self }
    }

    /// The cursor after a successful `limit_(n)`.
    pub open spec fn with_limit(self, n: i32) -> Buffer {
        Buffer {
            mark: if self.mark > n { -1i32 } else { self.mark },
            position: if self.position > n { n } else { self.position },
            limit: n,
            cap: self.cap,
        }
    }

    /// The cursor after a successful `position_(n)`.
    pub open spec fn with_position(self, n: i32) -> Buffer {
        Buffer { mark: if self.mark > n { -1i32 } else { self.mark }, position: n, ..self }
    }

    /// The cursor after `clear`: the whole capacity is the window again.
    pub open spec fn cleared(self) -> Buffer {
        Buffer { mark: -1i32, position: 0, limit: self.cap, cap: self.cap }
    }

    /// The cursor after `flip`: the limit comes to the position, the position to 0.
    pub open spec fn flipped(self) -> Buffer {
        Buffer { mark: -1i32, position: 0, limit: self.position, cap: self.cap }
    }

    /// The cursor after `rewind`: the position goes back to 0.
    pub open spec fn rewound(self) -> Buffer {
        Buffer { mark: -1i32, position: 0, ..self }
    }

    /// The cursor of capacity 0.
    pub open spec fn truncated(self) -> Buffer {
        Buffer { mark: -1i32, position: 0, limit: 0, cap: 0 }
    }

    /// The cursor with its mark unset.
    pub open spec fn unmarked(self) -> Buffer {
        Buffer { mark: -1i32, ..self }
    }

    /// The cursor with its position moved `n` forward.
    pub open spec fn advanced(self, n: int) -> Buffer {
        Buffer { position: (self.position + n) as i32, ..self }
    }

    /// The empty, valid cursor.
    pub fn default() -> (r: Buffer)
        ensures
            r == (Buffer { mark: -1i32, position: 0, limit: 0, cap: 0 }),
            r.wf(),
    {
        Buffer { mark: -1, position: 0, limit: 0, cap: 0 }
    }

    /// Makes this cursor `(mark, position, limit, cap)`; fails, changing nothing,
    /// when that tuple breaks the cursor invariant.
    pub fn new(&mut self, mark: i32, position: i32, limit: i32, cap: i32) -> (r: Result<
        (),
        BufferError,
    >)
        ensures
            (Buffer { mark, position, limit, cap }).wf() ==> r == Ok::<(), BufferError>(())
                && *final(self) == (Buffer { mark, position, limit, cap }),
            !(Buffer { mark, position, limit, cap }).wf() ==> r == Err::<(), BufferError>(
                BufferError::IllegalArgument,
            ) && *final(self) == *old(self),
    {
        match Self::new_(mark, position, limit, cap) {
            Ok(b) => {
                *self = b;
                Ok(())
            },
            Err(e) => Err(e),
        }
    }

    /// Checks that this cursor holds its invariant; changes nothing.
    pub fn init(&mut self) -> (r: Result<(), BufferError>)
        ensures
            *final(self) == *old(self),
            old(self).wf() ==> r == Ok::<(), BufferError>(()),
            !old(self).wf() ==> r == Err::<(), BufferError>(BufferError::IllegalArgument),
    {
        match Self::new_(self.mark, self.position, self.limit, self.cap) {
            Ok(_) => Ok(()),
            Err(e) => Err(e),
        }
    }

    /// The cursor `(mark, position, limit, cap)`; fails when that tuple breaks the
    /// cursor invariant.
    pub fn new_(mark: i32, position: i32, limit: i32, cap: i32) -> (r: Result<Self, BufferError>)
        ensures
            (Buffer { mark, position, limit, cap }).wf() ==> r == Ok::<Buffer, BufferError>(
                Buffer { mark, position, limit, cap },
            ),
            !(Buffer { mark, position, limit, cap }).wf() ==> r == Err::<Buffer, BufferError>(
                BufferError::IllegalArgument,
            ),
    {
        if cap < 0 || limit < 0 || limit > cap || position < 0 || position > limit {
            return Err(BufferError::IllegalArgument);
        }
        if mark != -1 && (mark < 0 || mark > position) {
            return Err(BufferError::IllegalArgument);
        }
        Ok(Buffer { mark, position, limit, cap })
    }

    /// Unsets the mark.
    pub fn discard_mark(&mut self)
        requires
            old(self).wf(),
        ensures
            *final(self) == old(self).unmarked(),
            final(self).wf(),
    {
        self.mark = -1;
    }

    /// The position, which then moves one forward; fails when nothing remains.
    pub fn next_get_index(&mut self) -> (r: Result<i32, BufferError>)
        requires
            old(self).wf(),
        ensures
            old(self).position >= old(self).limit ==> r == Err::<i32, BufferError>(
                BufferError::BufferUnderflow,
            ) && *final(self) == *old(self),
            old(self).position < old(self).limit ==> r == Ok::<i32, BufferError>(
                old(self).position,
            ) && *final(self) == old(self).advanced(1),
            final(self).wf(),
    {
        if self.position >= self.limit {
            return Err(BufferError::BufferUnderflow);
        }
        let pos = self.position;
        self.position = self.position + 1;
        Ok(pos)
    }

    /// The position, which then moves `nb` forward; fails when `nb` is negative
    /// or more than what remains.
    pub fn next_get_index_nb(&mut self, nb: i32) -> (r: Result<i32, BufferError>)
        requires
            old(self).wf(),
        ensures
            nb < 0 ==> r == Err::<i32, BufferError>(BufferError::IllegalArgument) && *final(self)
                == *old(self),
            nb > old(self).spec_remaining() ==> r == Err::<i32, BufferError>(
                BufferError::BufferUnderflow,
            ) && *final(self) == *old(self),
            0 <= nb <= old(self).spec_remaining() ==> r == Ok::<i32, BufferError>(
                old(self).position,
            ) && *final(self) == old(self).advanced(nb as int),
            final(self).wf(),
    {
        if nb < 0 {
            return Err(BufferError::IllegalArgument);
        }
        if self.limit - self.position < nb {
            return Err(BufferError::BufferUnderflow);
        }
        let p = self.position;
        self.position = self.position + nb;
        Ok(p)
    }

    /// The position, which then moves one forward; fails when no room remains.
    pub fn next_put_index(&mut self) -> (r: Result<i32, BufferError>)
        requires
            old(self).wf(),
        ensures
            old(self).position >= old(self).limit ==> r == Err::<i32, BufferError>(
                BufferError::BufferOverflow,
            ) && *final(self) == *old(self),
            old(self).position < old(self).limit ==> r == Ok::<i32, BufferError>(
                old(self).position,
            ) && *final(self) == old(self).advanced(1),
            final(self).wf(),
    {
        if self.position >= self.limit {
            return Err(BufferError::BufferOverflow);
        }
        let pos = self.position;
        self.position = self.position + 1;
        Ok(pos)
    }

    /// The position, which then moves `nb` forward; fails when `nb` is negative
    /// or more than the room that remains.
    pub fn next_put_index_nb(&mut self, nb: i32) -> (r: Result<i32, BufferError>)
        requires
            old(self).wf(),
        ensures
            nb < 0 ==> r == Err::<i32, BufferError>(BufferError::IllegalArgument) && *final(self)
                == *old(self),
            nb > old(self).spec_remaining() ==> r == Err::<i32, BufferError>(
                BufferError::BufferOverflow,
            ) && *final(self) == *old(self),
            0 <= nb <= old(self).spec_remaining() ==> r == Ok::<i32, BufferError>(
                old(self).position,
            ) && *final(self) == old(self).advanced(nb as int),
            final(self).wf(),
    {
        if nb < 0 {
            return Err(BufferError::IllegalArgument);
        }
        if self.limit - self.position < nb {
            return Err(BufferError::BufferOverflow);
        }
        let p = self.position;
        self.position = self.position + nb;
        Ok(p)
    }

    /// `i` itself when `0 <= i < limit`; fails otherwise. Changes nothing.
    pub fn check_index(&mut self, i: i32) -> (r: Result<i32, BufferError>)
        ensures
            *final(self) == *old(self),
            0 <= i < old(self).limit ==> r == Ok::<i32, BufferError>(i),
            !(0 <= i < old(self).limit) ==> r == Err::<i32, BufferError>(
                BufferError::IndexOutOfBounds,
            ),
    {
        if i < 0 || i >= self.limit {
            return Err(BufferError::IndexOutOfBounds);
        }
        Ok(i)
    }

    /// `i` itself when the `nb` indices from `i` lie below the limit
    /// (`0 <= i`, `0 <= nb`, `i + nb <= limit`); fails otherwise. Changes nothing.
    pub fn check_index_nb(&mut self, i: i32, nb: i32) -> (r: Result<i32, BufferError>)
        ensures
            *final(self) == *old(self),
            0 <= i && 0 <= nb && i + nb <= old(self).limit ==> r == Ok::<i32, BufferError>(i),
            !(0 <= i && 0 <= nb && i + nb <= old(self).limit) ==> r == Err::<i32, BufferError>(
                BufferError::IndexOutOfBounds,
            ),
    {
        if i < 0 || nb < 0 || i > self.limit || nb > self.limit - i {
            return Err(BufferError::IndexOutOfBounds);
        }
        Ok(i)
    }

    /// Succeeds when `off .. off + len` is a range within `0 .. size`:
    /// `0 <= off`, `0 <= len` and `off + len <= size`, computed without overflow.
    pub fn check_bounds(off: i32, len: i32, size: i32) -> (r: Result<(), BufferError>)
        ensures
            0 <= off && 0 <= len && off + len <= size ==> r == Ok::<(), BufferError>(()),
            !(0 <= off && 0 <= len && off + len <= size) ==> r == Err::<(), BufferError>(
                BufferError::IndexOutOfBounds,
            ),
    {
        if off < 0 || len < 0 || off > size || len > size - off {
            return Err(BufferError::IndexOutOfBounds);
        }
        Ok(())
    }
}

/// A buffer whose window is governed by a [`Buffer`] cursor.
///
/// `cursor` is the cursor, `with_cursor` the same buffer with another cursor.
/// Each operation states its effect as a new cursor and keeps the rest of the
/// buffer as it was.
pub trait IBuffer: Sized {
    spec fn cursor(&self) -> Buffer;

    spec fn with_cursor(&self, c: Buffer) -> Self;

    /// Replacing the cursor gives the buffer that cursor.
    proof fn lemma_with_cursor(&self, c: Buffer)
        ensures
            self.with_cursor(c).cursor() == c,
    ;

    fn mark(&self) -> (r: i32)
        ensures
            r == self.cursor().mark,
    ;

    fn cap(&self) -> (r: i32)
        ensures
            r == self.cursor().cap,
    ;

    fn position(&self) -> (r: i32)
        ensures
            r == self.cursor().position,
    ;

    fn limit(&self) -> (r: i32)
        ensures
            r == self.cursor().limit,
    ;

    /// Moves the position back to the mark; fails when no mark is set.
    fn reset(&mut self) -> (r: Result<(), BufferError>)
        requires
            old(self).cursor().wf(),
        ensures
            old(self).cursor().mark < 0 ==> r == Err::<(), BufferError>(BufferError::InvalidMark)
                && *final(self) == *old(self),
            old(self).cursor().mark >= 0 ==> r == Ok::<(), BufferError>(()) && *final(self)
                == old(self).with_cursor(old(self).cursor().reset_to_mark()),
            final(self).cursor().wf(),
    ;

    /// Sets the limit to `n`, pulling the position and the mark inside it; fails
    /// unless `0 <= n <= cap`.
    fn limit_(&mut self, n: i32) -> (r: Result<(), BufferError>)
        requires
            old(self).cursor().wf(),
        ensures
            !(0 <= n <= old(self).cursor().cap) ==> r == Err::<(), BufferError>(
                BufferError::IllegalArgument,
            ) && *final(self) == *old(self),
            0 <= n <= old(self).cursor().cap ==> r == Ok::<(), BufferError>(()) && *final(self)
                == old(self).with_cursor(old(self).cursor().with_limit(n)),
            final(self).cursor().wf(),
    ;

    /// Sets the position to `n`, unsetting a mark beyond it; fails unless
    /// `0 <= n <= limit`.
    fn position_(&mut self, n: i32) -> (r: Result<(), BufferError>)
        requires
            old(self).cursor().wf(),
        ensures
            !(0 <= n <= old(self).cursor().limit) ==> r == Err::<(), BufferError>(
                BufferError::IllegalArgument,
            ) && *final(self) == *old(self),
            0 <= n <= old(self).cursor().limit ==> r == Ok::<(), BufferError>(()) && *final(self)
                == old(self).with_cursor(old(self).cursor().with_position(n)),
            final(self).cursor().wf(),
    ;

    /// Saves the position in the mark.
    fn mark_(&mut self) -> (r: &mut Self)
        requires
            old(self).cursor().wf(),
        ensures
            *r == old(self).with_cursor(old(self).cursor().marked()),
            *final(self) == *final(r),
            r.cursor().wf(),
    ;

    /// Makes the whole capacity the window: position 0, limit `cap`, no mark.
    fn clear(&mut self) -> (r: &mut Self)
        requires
            old(self).cursor().wf(),
        ensures
            *r == old(self).with_cursor(old(self).cursor().cleared()),
            *final(self) == *final(r),
            r.cursor().wf(),
    ;

    /// Empties the window; each buffer kind says what its cursor becomes.
    fn truncate(&mut self)
        requires
            old(self).cursor().wf(),
        ensures
            *final(self) == old(self).with_cursor(final(self).cursor()),
            final(self).cursor().wf(),
            final(self).cursor().spec_remaining() == 0 || final(self).cursor()
                == old(self).cursor().cleared(),
    ;

    /// Turns what was written into what is to be read: limit to the position,
    /// position to 0, no mark.
    fn flip(&mut self) -> (r: &mut Self)
        requires
            old(self).cursor().wf(),
        ensures
            *r == old(self).with_cursor(old(self).cursor().flipped()),
            *final(self) == *final(r),
            r.cursor().wf(),
    ;

    /// Goes back to the start of the window: position 0, no mark.
    fn rewind(&mut self) -> (r: &mut Self)
        requires
            old(self).cursor().wf(),
        ensures
            *r == old(self).with_cursor(old(self).cursor().rewound()),
            *final(self) == *final(r),
            r.cursor().wf(),
    ;

    /// `limit - position`.
    fn remaining(&self) -> (r: i32)
        requires
            self.cursor().wf(),
        ensures
            r == self.cursor().spec_remaining(),
    {
        self.limit() - self.position()
    }

    /// Whether `position < limit`.
    fn has_remaining(&self) -> (r: bool)
        ensures
            r == (self.cursor().position < self.cursor().limit),
    {
        self.position() < self.limit()
    }
}

impl IBuffer for Buffer {
    open spec fn cursor(&self) -> Buffer {
        *self
    }

    open spec fn with_cursor(&self, c: Buffer) -> Buffer {
        c
    }

    proof fn lemma_with_cursor(&self, c: Buffer) {
    }

    fn mark(&self) -> (r: i32) {
        self.mark
    }

    fn cap(&self) -> (r: i32) {
        self.cap
    }

    fn position(&self) -> (r: i32) {
        self.position
    }

    fn limit(&self) -> (r: i32) {
        self.limit
    }

    fn reset(&mut self) -> (r: Result<(), BufferError>) {
        let m = self.mark;
        if m < 0 {
            return Err(BufferError::InvalidMark);
        }
        self.position = m;
        assert(*self == old(self).with_cursor(old(self).cursor().reset_to_mark()));
        Ok(())
    }

    fn limit_(&mut self, n: i32) -> (r: Result<(), BufferError>) {
        if n > self.cap || n < 0 {
            return Err(BufferError::IllegalArgument);
        }
        self.limit = n;
        if self.position > self.limit {
            self.position = self.limit;
        }
        if self.mark > self.limit {
            self.mark = -1;
        }
        Ok(())
    }

    fn position_(&mut self, n: i32) -> (r: Result<(), BufferError>) {
        if n > self.limit || n < 0 {
            return Err(BufferError::IllegalArgument);
        }
        self.position = n;
        if self.mark > self.position {
            self.mark = -1;
        }
        Ok(())
    }

    fn mark_(&mut self) -> (r: &mut Self) {
        self.mark = self.position;
        self
    }

    fn clear(&mut self) -> (r: &mut Self) {
        self.position = 0;
        self.limit = self.cap;
        self.mark = -1;
        self
    }

    /// Drops the capacity to 0.
    fn truncate(&mut self)
        ensures
            *final(self) == old(self).truncated(),
    {
        self.mark = -1;
        self.position = 0;
        self.limit = 0;
        self.cap = 0;
    }

    fn flip(&mut self) -> (r: &mut Self) {
        self.limit = self.position;
        self.position = 0;
        self.mark = -1;
        self
    }

    fn rewind(&mut self) -> (r: &mut Self) {
        self.position = 0;
        self.mark = -1;
        self
    }
}

} // verus!
