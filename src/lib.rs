//! Cursor-based byte buffers and windowed views over shared byte regions.
//!
//! A [`Buffer`] is the bare cursor (`mark <= position <= limit <= cap`).
//! A [`CloneByteBuffer`] is a view: a cursor, a handle to a region of a
//! [`Store`], and an offset into that region. Views made by `slice` and
//! `duplicate` keep their own cursors and reach the same bytes.
pub mod error;
pub mod cursor;
pub mod byte_buffer;
pub mod store;
pub mod view;
pub mod carrier;
pub mod lemmas;

pub use error::BufferError;
pub use cursor::{Buffer, IBuffer};
pub use byte_buffer::ByteBuffer;
pub use store::Store;
pub use view::CloneByteBuffer;
