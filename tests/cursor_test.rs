use byteview::{Buffer, BufferError, ByteBuffer, IBuffer};

fn cursor(mark: i32, position: i32, limit: i32, cap: i32) -> Buffer {
    Buffer { mark, position, limit, cap }
}

#[test]
fn cursor_sequence_keeps_invariant() {
    let mut b = Buffer::new_(-1, 0, 10, 10).unwrap();
    b.position_(4).unwrap();
    b.mark_();
    assert_eq!(b, cursor(4, 4, 10, 10));
    b.position_(7).unwrap();
    b.limit_(5).unwrap();
    assert_eq!(b, cursor(4, 5, 5, 10));
    b.limit_(3).unwrap();
    assert_eq!(b, cursor(-1, 3, 3, 10));
    assert_eq!(b.reset(), Err(BufferError::InvalidMark));
    b.flip();
    assert_eq!(b, cursor(-1, 0, 3, 10));
    b.clear();
    assert_eq!(b, cursor(-1, 0, 10, 10));
    assert!(b.init().is_ok());
}

#[test]
fn clear_and_rewind_twice_equal_once() {
    let mut once = Buffer::new_(2, 3, 6, 9).unwrap();
    let mut twice = once;
    once.clear();
    twice.clear().clear();
    assert_eq!(once, twice);
    assert_eq!(once, cursor(-1, 0, 9, 9));

    let mut once = Buffer::new_(2, 3, 6, 9).unwrap();
    let mut twice = once;
    once.rewind();
    twice.rewind().rewind();
    assert_eq!(once, twice);
    assert_eq!(once, cursor(-1, 0, 6, 9));
}

#[test]
fn reset_returns_to_mark() {
    let mut b = Buffer::new_(2, 5, 8, 8).unwrap();
    assert_eq!(b.reset(), Ok(()));
    assert_eq!(b, cursor(2, 2, 8, 8));
}

#[test]
fn reset_without_mark_is_invalid_mark() {
    let mut b = Buffer::new_(-1, 5, 8, 8).unwrap();
    assert_eq!(b.reset(), Err(BufferError::InvalidMark));
    assert_eq!(b, cursor(-1, 5, 8, 8));
}

#[test]
fn limit_out_of_range_is_illegal_argument() {
    let mut b = Buffer::new_(1, 2, 3, 4).unwrap();
    assert_eq!(b.limit_(5), Err(BufferError::IllegalArgument));
    assert_eq!(b.limit_(-1), Err(BufferError::IllegalArgument));
    assert_eq!(b, cursor(1, 2, 3, 4));
    assert_eq!(b.limit_(4), Ok(()));
    assert_eq!(b, cursor(1, 2, 4, 4));
}

#[test]
fn limit_pulls_position_and_drops_mark() {
    let mut b = Buffer::new_(6, 8, 10, 10).unwrap();
    b.limit_(5).unwrap();
    assert_eq!(b, cursor(-1, 5, 5, 10));
}

#[test]
fn position_out_of_range_is_illegal_argument() {
    let mut b = Buffer::new_(-1, 2, 3, 4).unwrap();
    assert_eq!(b.position_(4), Err(BufferError::IllegalArgument));
    assert_eq!(b.position_(-1), Err(BufferError::IllegalArgument));
    assert_eq!(b, cursor(-1, 2, 3, 4));
}

#[test]
fn position_before_mark_drops_mark() {
    let mut b = Buffer::new_(3, 4, 6, 6).unwrap();
    b.position_(2).unwrap();
    assert_eq!(b, cursor(-1, 2, 6, 6));
    let mut b = Buffer::new_(3, 4, 6, 6).unwrap();
    b.position_(5).unwrap();
    assert_eq!(b, cursor(3, 5, 6, 6));
}

#[test]
fn flip_and_remaining() {
    let mut b = Buffer::new_(-1, 7, 9, 12).unwrap();
    assert_eq!(b.remaining(), 2);
    assert!(b.has_remaining());
    b.flip();
    assert_eq!(b, cursor(-1, 0, 7, 12));
    assert_eq!(b.remaining(), 7);
    b.position_(7).unwrap();
    assert!(!b.has_remaining());
}

#[test]
fn invalid_tuples_are_refused() {
    assert_eq!(Buffer::new_(-1, 0, 0, -1), Err(BufferError::IllegalArgument));
    assert_eq!(Buffer::new_(-1, 0, 5, 4), Err(BufferError::IllegalArgument));
    assert_eq!(Buffer::new_(-1, 5, 4, 4), Err(BufferError::IllegalArgument));
    assert_eq!(Buffer::new_(3, 2, 4, 4), Err(BufferError::IllegalArgument));
    assert_eq!(Buffer::new_(-2, 2, 4, 4), Err(BufferError::IllegalArgument));
    assert_eq!(Buffer::new_(2, 2, 4, 4), Ok(cursor(2, 2, 4, 4)));
    assert!(ByteBuffer::new_(0, 0, 2, 1).is_err());
}

#[test]
fn new_on_existing_cursor() {
    let mut b = Buffer::default();
    assert_eq!(b, cursor(-1, 0, 0, 0));
    assert_eq!(b.new(1, 2, 3, 4), Ok(()));
    assert_eq!(b, cursor(1, 2, 3, 4));
    assert_eq!(b.new(1, 2, 5, 4), Err(BufferError::IllegalArgument));
    assert_eq!(b, cursor(1, 2, 3, 4));

    let mut bb = ByteBuffer::new_(-1, 0, 0, 0).unwrap();
    assert_eq!(bb.default(0, 1, 2, 3), Ok(()));
    assert_eq!(bb.buffer, cursor(0, 1, 2, 3));
    assert_eq!(bb.new(0, 1, 2, 3, 7), Ok(()));
    assert_eq!(bb.new(4, 1, 2, 3, 0), Err(BufferError::IllegalArgument));
    assert_eq!(bb.buffer, cursor(0, 1, 2, 3));
}

#[test]
fn init_checks_invariant() {
    let mut good = cursor(-1, 1, 2, 3);
    assert_eq!(good.init(), Ok(()));
    let mut bad = cursor(-1, 3, 2, 3);
    assert_eq!(bad.init(), Err(BufferError::IllegalArgument));
    assert_eq!(bad, cursor(-1, 3, 2, 3));
}

#[test]
fn next_indices_advance() {
    let mut b = Buffer::new_(-1, 1, 4, 4).unwrap();
    assert_eq!(b.next_get_index(), Ok(1));
    assert_eq!(b.next_put_index(), Ok(2));
    assert_eq!(b.next_get_index_nb(2), Err(BufferError::BufferUnderflow));
    assert_eq!(b.next_put_index_nb(2), Err(BufferError::BufferOverflow));
    assert_eq!(b.next_get_index_nb(-1), Err(BufferError::IllegalArgument));
    assert_eq!(b.next_put_index_nb(1), Ok(3));
    assert_eq!(b.position, 4);
    assert_eq!(b.next_get_index(), Err(BufferError::BufferUnderflow));
    assert_eq!(b.next_put_index(), Err(BufferError::BufferOverflow));
    assert_eq!(b.next_get_index_nb(0), Ok(4));
}

#[test]
fn check_index_bounds() {
    let mut b = Buffer::new_(-1, 0, 5, 8).unwrap();
    assert_eq!(b.check_index(4), Ok(4));
    assert_eq!(b.check_index(5), Err(BufferError::IndexOutOfBounds));
    assert_eq!(b.check_index(-1), Err(BufferError::IndexOutOfBounds));
    assert_eq!(b.check_index_nb(2, 3), Ok(2));
    assert_eq!(b.check_index_nb(2, 4), Err(BufferError::IndexOutOfBounds));
    assert_eq!(b.check_index_nb(-1, 1), Err(BufferError::IndexOutOfBounds));
    assert_eq!(b.check_index_nb(1, -1), Err(BufferError::IndexOutOfBounds));
}

#[test]
fn check_bounds_without_overflow() {
    assert_eq!(Buffer::check_bounds(2, 3, 5), Ok(()));
    assert_eq!(Buffer::check_bounds(2, 4, 5), Err(BufferError::IndexOutOfBounds));
    assert_eq!(Buffer::check_bounds(-1, 1, 5), Err(BufferError::IndexOutOfBounds));
    assert_eq!(Buffer::check_bounds(0, -1, 5), Err(BufferError::IndexOutOfBounds));
    assert_eq!(Buffer::check_bounds(i32::MAX, 1, i32::MAX), Err(BufferError::IndexOutOfBounds));
    assert_eq!(Buffer::check_bounds(i32::MAX, i32::MAX, i32::MAX), Err(BufferError::IndexOutOfBounds));
    assert_eq!(Buffer::check_bounds(1, 1, i32::MIN), Err(BufferError::IndexOutOfBounds));
    assert_eq!(Buffer::check_bounds(0, 0, 0), Ok(()));
}

#[test]
fn truncate_and_discard_mark() {
    let mut b = Buffer::new_(1, 2, 3, 4).unwrap();
    b.discard_mark();
    assert_eq!(b, cursor(-1, 2, 3, 4));
    b.truncate();
    assert_eq!(b, cursor(-1, 0, 0, 0));
    let mut bb = ByteBuffer::new_(1, 2, 3, 4).unwrap();
    bb.truncate();
    assert_eq!(bb.buffer, cursor(-1, 0, 0, 0));
    assert!(!bb.read_only);
}
