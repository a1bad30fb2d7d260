//! Bounds-checked cursors over a fixed span of bytes that the caller owns:
//! [`StreamBufWriter`] encodes fixed-width values into it, [`StreamBufReader`]
//! decodes them, and a writer turns into a reader over exactly the bytes it
//! wrote. Nothing is allocated and nothing grows.
//!
//! Both cursors are viewed as a [`cursor::Cursor`], and every contract is
//! stated over that model. [`byte_order`] says what the bytes of a number
//! are, and [`round_trip`] proves that what is written is read back.

pub mod byte_order;
pub mod cursor;
pub mod round_trip;
pub mod span;
pub mod stream_buf_reader;
pub mod stream_buf_writer;

pub use stream_buf_reader::StreamBufReader;
pub use stream_buf_writer::StreamBufWriter;
