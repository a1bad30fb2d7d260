use streambuf::{StreamBufReader, StreamBufWriter};

#[test]
fn stream_buf_writer_new() {
    const BUF_SIZE: usize = 64;
    let mut data = [0u8; BUF_SIZE];
    let mut sbuf = StreamBufWriter::new(&mut data);
    sbuf.write_u16(0x1234);
    assert_eq!(sbuf[0], 0x34);
    assert_eq!(sbuf[1], 0x12);
}

#[test]
fn stream_buf_writer_stream_buf() {
    const BUF_SIZE: usize = 256;
    let mut data = [0u8; BUF_SIZE];
    let mut sbuf = StreamBufWriter::new(&mut data);

    assert_eq!(BUF_SIZE, sbuf.bytes_remaining());

    sbuf.write_u8(1);
    assert_eq!(1, sbuf.bytes_written());
    assert_eq!(BUF_SIZE - 1, sbuf.bytes_remaining());

    sbuf.write_u16(2);
    assert_eq!(3, sbuf.bytes_written());
    assert_eq!(BUF_SIZE - 3, sbuf.bytes_remaining());

    sbuf.write_u32(3);
    assert_eq!(7, sbuf.bytes_written());
    assert_eq!(BUF_SIZE - 7, sbuf.bytes_remaining());

    let mut sbuf_reader: StreamBufReader = sbuf.into();
    assert_eq!(0, sbuf_reader.bytes_read());
    assert_eq!(7, sbuf_reader.bytes_remaining());

    let v1: u8 = sbuf_reader.read_u8();
    assert_eq!(1, v1);
    assert_eq!(1, sbuf_reader.bytes_read());
    assert_eq!(6, sbuf_reader.bytes_remaining());

    let v2: u16 = sbuf_reader.read_u16();
    assert_eq!(2, v2);
    assert_eq!(3, sbuf_reader.bytes_read());
    assert_eq!(4, sbuf_reader.bytes_remaining());

    let v3: u32 = sbuf_reader.read_u32();
    assert_eq!(3, v3);
    assert_eq!(7, sbuf_reader.bytes_read());
    assert_eq!(0, sbuf_reader.bytes_remaining());
}

#[test]
fn stream_buf_big_endian() {
    const BUF_SIZE: usize = 256;
    let mut data = [0u8; BUF_SIZE];
    let mut sbuf = StreamBufWriter::new(&mut data);

    assert_eq!(BUF_SIZE, sbuf.bytes_remaining());

    sbuf.write_u8(1);
    assert_eq!(BUF_SIZE - 1, sbuf.bytes_remaining());

    sbuf.write_u16_big_endian(2);
    assert_eq!(BUF_SIZE - 3, sbuf.bytes_remaining());

    sbuf.write_u32_big_endian(3);
    assert_eq!(BUF_SIZE - 7, sbuf.bytes_remaining());

    let mut sbuf_reader: StreamBufReader = sbuf.into();
    assert_eq!(0, sbuf_reader.bytes_read());
    assert_eq!(7, sbuf_reader.bytes_remaining());

    let v1: u8 = sbuf_reader.read_u8();
    assert_eq!(1, v1);
    assert_eq!(1, sbuf_reader.bytes_read());
    assert_eq!(6, sbuf_reader.bytes_remaining());

    let v2: u16 = sbuf_reader.read_u16_big_endian();
    assert_eq!(2, v2);
    assert_eq!(3, sbuf_reader.bytes_read());
    assert_eq!(4, sbuf_reader.bytes_remaining());

    let v3: u32 = sbuf_reader.read_u32_big_endian();
    assert_eq!(3, v3);
    assert_eq!(7, sbuf_reader.bytes_read());
    assert_eq!(0, sbuf_reader.bytes_remaining());
}

#[test]
fn stream_buf_size() {
    const BUF_SIZE: usize = 2;
    let mut buf = [0u8; BUF_SIZE];
    buf.fill(0xFF);
    assert_eq!(0xFF, buf[0]);
    assert_eq!(0xFF, buf[1]);

    let mut sbuf = StreamBufWriter::new(&mut buf);

    assert_eq!(true, sbuf.is_empty());
    assert_eq!(false, sbuf.is_full());
    assert_eq!(BUF_SIZE, sbuf.bytes_remaining());
    assert_eq!(0, sbuf.bytes_written());
    assert_eq!(true, sbuf.is_available(0));
    assert_eq!(true, sbuf.is_available(1));
    assert_eq!(true, sbuf.is_available(2));
    assert_eq!(false, sbuf.is_available(3));

    sbuf.write_u16(0xABCD);

    assert_eq!(false, sbuf.is_empty());
    assert_eq!(2, sbuf.pos());
    assert_eq!(true, sbuf.is_full());
    assert_eq!(0, sbuf.bytes_remaining());
    assert_eq!(2, sbuf.bytes_written());
    assert_eq!(true, sbuf.is_available(0));
    assert_eq!(false, sbuf.is_available(1));
    assert_eq!(false, sbuf.is_available(2));
    assert_eq!(false, sbuf.is_available(3));

    assert_eq!(0xCD, sbuf[0]);
    assert_eq!(0xAB, sbuf[1]);

    sbuf.reset();
    assert_eq!(true, sbuf.is_empty());
    assert_eq!(false, sbuf.is_full());
    assert_eq!(BUF_SIZE, sbuf.bytes_remaining());
    assert_eq!(0, sbuf.bytes_written());
    assert_eq!(true, sbuf.is_available(0));
    assert_eq!(true, sbuf.is_available(1));
    assert_eq!(true, sbuf.is_available(2));
    assert_eq!(false, sbuf.is_available(3));

    // a u32 does not fit, so nothing is written
    sbuf.write_u32(0xABCD1234);
    assert_eq!(true, sbuf.is_empty());
    assert_eq!(false, sbuf.is_full());
    assert_eq!(BUF_SIZE, sbuf.bytes_remaining());
    assert_eq!(0, sbuf.bytes_written());
    assert_eq!(true, sbuf.is_available(0));
    assert_eq!(true, sbuf.is_available(1));
    assert_eq!(true, sbuf.is_available(2));
    assert_eq!(false, sbuf.is_available(3));

    sbuf.write_u8(0xAB);
    assert_eq!(false, sbuf.is_empty());
    assert_eq!(false, sbuf.is_full());
    assert_eq!(1, sbuf.bytes_remaining());
    assert_eq!(1, sbuf.bytes_written());
    assert_eq!(true, sbuf.is_available(0));
    assert_eq!(true, sbuf.is_available(1));
    assert_eq!(false, sbuf.is_available(2));
    assert_eq!(false, sbuf.is_available(3));

    // a u16 does not fit, so nothing is written
    sbuf.write_u16(0xABCD);
    assert_eq!(false, sbuf.is_empty());
    assert_eq!(false, sbuf.is_full());
    assert_eq!(1, sbuf.bytes_remaining());
    assert_eq!(1, sbuf.bytes_written());
    assert_eq!(true, sbuf.is_available(0));
    assert_eq!(true, sbuf.is_available(1));
    assert_eq!(false, sbuf.is_available(2));
    assert_eq!(false, sbuf.is_available(3));

    sbuf.write_u8(0xAB);
    assert_eq!(false, sbuf.is_empty());
    assert_eq!(true, sbuf.is_full());
    assert_eq!(0, sbuf.bytes_remaining());
    assert_eq!(2, sbuf.bytes_written());
    assert_eq!(true, sbuf.is_available(0));
    assert_eq!(false, sbuf.is_available(1));
    assert_eq!(false, sbuf.is_available(2));
    assert_eq!(false, sbuf.is_available(3));

    // a u8 does not fit, so nothing is written
    sbuf.write_u8(0xAB);
    assert_eq!(false, sbuf.is_empty());
    assert_eq!(true, sbuf.is_full());
    assert_eq!(0, sbuf.bytes_remaining());
    assert_eq!(2, sbuf.bytes_written());
    assert_eq!(true, sbuf.is_available(0));
    assert_eq!(false, sbuf.is_available(1));
    assert_eq!(false, sbuf.is_available(2));
    assert_eq!(false, sbuf.is_available(3));
}

#[test]
fn stream_buf_strings() {
    const BUF_SIZE: usize = 6;
    let mut buf = [0u8; BUF_SIZE];
    let mut sbuf = StreamBufWriter::new(&mut buf);

    assert_eq!(BUF_SIZE, sbuf.bytes_remaining());
    sbuf.fill_without_advancing(0xFF, BUF_SIZE);
    assert_eq!(BUF_SIZE, sbuf.bytes_remaining());
    assert_eq!(0xFF, sbuf[0]);
    assert_eq!(0xFF, sbuf[1]);
    assert_eq!(0xFF, sbuf[2]);
    assert_eq!(0xFF, sbuf[3]);
    assert_eq!(0xFF, sbuf[4]);
    assert_eq!(0xFF, sbuf[5]);

    sbuf.write_str("Hello");
    assert_eq!(5, sbuf.bytes_written());
    assert_eq!(BUF_SIZE - 5, sbuf.bytes_remaining());
    assert_eq!('H', sbuf[0] as char);
    assert_eq!('e', sbuf[1] as char);
    assert_eq!('l', sbuf[2] as char);
    assert_eq!('l', sbuf[3] as char);
    assert_eq!('o', sbuf[4] as char);
    assert_eq!(0xFF, sbuf[5]);

    sbuf.reset();
    assert_eq!(0, sbuf.bytes_written());
    assert_eq!(BUF_SIZE, sbuf.bytes_remaining());
    sbuf.fill_without_advancing(0xFF, BUF_SIZE);

    sbuf.write_str_with_zero_terminator("Hello");
    assert_eq!(6, sbuf.bytes_written());
    assert_eq!(BUF_SIZE - 6, sbuf.bytes_remaining());
    assert_eq!('H', sbuf[0] as char);
    assert_eq!('e', sbuf[1] as char);
    assert_eq!('l', sbuf[2] as char);
    assert_eq!('l', sbuf[3] as char);
    assert_eq!('o', sbuf[4] as char);
    assert_eq!(0, sbuf[5]);
}

#[test]
fn stream_buf_float() {
    const BUF_SIZE: usize = 256;
    let mut buf = [0u8; BUF_SIZE];
    let mut sbuf = StreamBufWriter::new(&mut buf);

    assert_eq!(0, sbuf.bytes_written());
    assert_eq!(BUF_SIZE, sbuf.bytes_remaining());
    assert_eq!(0, sbuf.bytes_written());
    assert_eq!(BUF_SIZE, sbuf.bytes_remaining());

    sbuf.write_u32(18.9f32.to_bits());
    assert_eq!(4, sbuf.bytes_written());
    assert_eq!(BUF_SIZE - 4, sbuf.bytes_remaining());

    sbuf.write_u8(7);

    sbuf.write_u16(19);

    sbuf.write_u32(3.14159f32.to_bits());
    assert_eq!(11, sbuf.bytes_written());
    assert_eq!(BUF_SIZE - 11, sbuf.bytes_remaining());
    assert_eq!(true, sbuf.is_available(BUF_SIZE - 12));
    assert_eq!(true, sbuf.is_available(BUF_SIZE - 11));
    assert_eq!(false, sbuf.is_available(BUF_SIZE - 10));

    let mut sbuf_reader: StreamBufReader = sbuf.into();
    assert_eq!(0, sbuf_reader.bytes_read());
    assert_eq!(11, sbuf_reader.bytes_remaining());

    let v1: f32 = f32::from_bits(sbuf_reader.read_u32());
    assert_eq!(18.9, v1);
    assert_eq!(7, sbuf_reader.bytes_remaining());

    let v2: u8 = sbuf_reader.read_u8();
    assert_eq!(7, v2);
    assert_eq!(6, sbuf_reader.bytes_remaining());

    let v3: u16 = sbuf_reader.read_u16();
    assert_eq!(19, v3);
    assert_eq!(4, sbuf_reader.bytes_remaining());

    let v4: f32 = f32::from_bits(sbuf_reader.read_u32());
    assert_eq!(3.14159, v4);
    assert_eq!(0, sbuf_reader.bytes_remaining());
}

#[test]
fn writer_little_endian_byte_sequence() {
    let mut buf = [0u8; 4];
    let mut writer = StreamBufWriter::new(&mut buf);
    writer.write_u32(0x0a1b2c3d);
    assert_eq!(4, writer.pos());
    assert_eq!(&[0x3du8, 0x2c, 0x1b, 0x0a][..], writer.get_data());
    drop(writer);
    assert_eq!([0x3d, 0x2c, 0x1b, 0x0a], buf);
}

#[test]
fn writer_big_endian_byte_sequence() {
    let mut buf = [0u8; 6];
    let mut writer = StreamBufWriter::new(&mut buf);
    writer.write_u32_big_endian(0x0a1b2c3d);
    writer.write_u16_big_endian(0x4e5f);
    assert_eq!(6, writer.pos());
    drop(writer);
    assert_eq!([0x0a, 0x1b, 0x2c, 0x3d, 0x4e, 0x5f], buf);
}

#[test]
fn writer_exact_capacity_boundary() {
    let mut buf = [0u8; 2];
    let mut writer = StreamBufWriter::new(&mut buf);
    assert!(writer.is_available(2));
    assert!(!writer.is_available(3));
    writer.write_u16(0x0102);
    assert_eq!(2, writer.bytes_written());
    writer.write_u8(0xff);
    assert_eq!(2, writer.bytes_written());
    assert_eq!(2, writer.pos());
    assert_eq!(0x02, writer[0]);
    assert_eq!(0x01, writer[1]);
    drop(writer);
    assert_eq!([0x02, 0x01], buf);
}

#[test]
fn writer_terminated_text_is_all_or_nothing() {
    let mut small = [0xaau8; 5];
    let mut writer = StreamBufWriter::new(&mut small);
    assert_eq!(0, writer.write_str_with_zero_terminator("Hello"));
    assert_eq!(0, writer.pos());
    drop(writer);
    assert_eq!([0xaa; 5], small);

    let mut exact = [0xaau8; 6];
    let mut writer = StreamBufWriter::new(&mut exact);
    assert_eq!(6, writer.write_str_with_zero_terminator("Hello"));
    assert_eq!(6, writer.pos());
    drop(writer);
    assert_eq!([b'H', b'e', b'l', b'l', b'o', 0], exact);
}

#[test]
fn writer_empty_text_with_terminator_is_one_zero_byte() {
    let mut buf = [0xaau8; 2];
    let mut writer = StreamBufWriter::new(&mut buf);
    assert_eq!(0, writer.write_str(""));
    assert_eq!(0, writer.pos());
    assert_eq!(1, writer.write_str_with_zero_terminator(""));
    assert_eq!(1, writer.pos());
    assert_eq!(1, writer.write_str_with_zero_terminator(""));
    assert_eq!(0, writer.write_str_with_zero_terminator(""));
    assert_eq!(2, writer.pos());
    drop(writer);
    assert_eq!([0, 0], buf);
}

#[test]
fn writer_text_is_written_as_its_bytes() {
    let mut buf = [0u8; 8];
    let mut writer = StreamBufWriter::new(&mut buf);
    assert_eq!(3, writer.write_str("h\u{e9}"));
    assert_eq!(3, writer.pos());
    assert_eq!(0, writer.write_str("too long"));
    assert_eq!(3, writer.pos());
    assert_eq!(5, writer.write_str("12345"));
    assert!(writer.is_full());
    drop(writer);
    assert_eq!([b'h', 0xc3, 0xa9, b'1', b'2', b'3', b'4', b'5'], buf);
}

#[test]
fn writer_write_is_all_or_nothing() {
    let mut buf = [0u8; 4];
    let mut writer = StreamBufWriter::new(&mut buf);
    assert_eq!(3, writer.write(&[1, 2, 3]));
    assert_eq!(3, writer.pos());
    assert_eq!(0, writer.write(&[4, 5]));
    assert_eq!(3, writer.pos());
    assert_eq!(0, writer.write(&[]));
    assert_eq!(3, writer.pos());
    assert_eq!(1, writer.write(&[9]));
    assert_eq!(4, writer.pos());
    assert_eq!(0, writer.write(&[]));
    drop(writer);
    assert_eq!([1, 2, 3, 9], buf);
}

#[test]
fn writer_fill_advances_and_fill_without_advancing_does_not() {
    let mut buf = [0u8; 5];
    let mut writer = StreamBufWriter::new(&mut buf);
    writer.write_u8(1);

    assert!(writer.fill_without_advancing(0x77, 2));
    assert_eq!(1, writer.pos());
    assert_eq!(&[1u8, 0x77, 0x77, 0, 0][..], writer.get_data());

    assert!(!writer.fill_without_advancing(0x55, 5));
    assert_eq!(1, writer.pos());
    assert_eq!(&[1u8, 0x77, 0x77, 0, 0][..], writer.get_data());

    writer.fill(0x33, 3);
    assert_eq!(4, writer.pos());
    assert_eq!(&[1u8, 0x33, 0x33, 0x33, 0][..], writer.get_data());

    writer.fill(0x22, 2);
    assert_eq!(4, writer.pos());
    assert_eq!(&[1u8, 0x33, 0x33, 0x33, 0][..], writer.get_data());

    assert!(writer.fill_without_advancing(0x11, 0));
    writer.fill(0x11, 1);
    assert_eq!(5, writer.pos());
    assert!(writer.fill_without_advancing(0x11, 0));
    assert!(!writer.fill_without_advancing(0x11, 1));
    assert!(!writer.fill_without_advancing(0x11, usize::MAX));
    drop(writer);
    assert_eq!([1, 0x33, 0x33, 0x33, 0x11], buf);
}

#[test]
fn writer_advance_stops_at_the_end_and_writes_nothing() {
    let mut buf = [7u8; 3];
    let mut writer = StreamBufWriter::new(&mut buf);
    writer.advance(2);
    assert_eq!(2, writer.pos());
    assert_eq!(1, writer.bytes_remaining());
    writer.advance(usize::MAX);
    assert_eq!(3, writer.pos());
    assert!(writer.is_full());
    assert!(!writer.is_available(usize::MAX));
    writer.reset();
    assert_eq!(0, writer.pos());
    assert_eq!(3, writer.bytes_remaining());
    drop(writer);
    assert_eq!([7, 7, 7], buf);
}

#[test]
fn writer_indexed_access_ignores_the_position() {
    let mut buf = [0u8; 3];
    let mut writer = StreamBufWriter::new(&mut buf);
    writer.set_at(2, 0x42);
    assert_eq!(0, writer.pos());
    assert_eq!(0x42, writer.at(2));
    assert_eq!(0x42, writer[2]);
    writer.write_u16(0x0201);
    assert_eq!(0x01, writer.at(0));
    assert_eq!(0x02, writer[1]);
    writer.set_at(0, 0x99);
    assert_eq!(2, writer.pos());
    drop(writer);
    assert_eq!([0x99, 0x02, 0x42], buf);
}

#[test]
fn writer_written_span_follows_the_position() {
    let mut buf = [0u8; 4];
    let mut writer = StreamBufWriter::new(&mut buf);
    assert_eq!(0, writer.get_data_slice().len());
    writer.write_u16_big_endian(0x0102);
    assert_eq!(&[1u8, 2][..], writer.get_data_slice());
    assert_eq!(&[1u8, 2][..], writer.get_ref());
    assert_eq!(&[1u8, 2, 0, 0][..], writer.get_data());
    writer.reset();
    assert_eq!(0, writer.get_ref().len());
    assert_eq!(&[1u8, 2, 0, 0][..], writer.get_data());
}

#[test]
fn writer_over_nothing_accepts_nothing() {
    let mut buf: [u8; 0] = [];
    let mut writer = StreamBufWriter::new(&mut buf);
    assert!(writer.is_empty());
    assert!(writer.is_full());
    assert!(writer.is_available(0));
    assert!(!writer.is_available(1));
    writer.write_u8(1);
    writer.write_u16(1);
    writer.write_u32(1);
    assert_eq!(0, writer.write_str("a"));
    assert_eq!(0, writer.write_str_with_zero_terminator(""));
    assert_eq!(0, writer.pos());
    let reader: StreamBufReader = writer.into();
    assert_eq!(0, reader.bytes_remaining());
}
