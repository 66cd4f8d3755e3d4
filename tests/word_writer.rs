use bitcode_writer::bitstream_writer::BitStreamWriter;

#[test]
fn bitstream_writer_write_bits() {
    let mut writer = BitStreamWriter::new();

    writer.write_bits(3, 31);
    assert_eq!(writer.bit_offset(), 31);
    assert_eq!(writer.dword_left, 1);
    assert_eq!(writer.dword_offset, 31);

    writer.write_bits(7, 4);
    assert_eq!(writer.bit_offset(), 35);
    assert_eq!(writer.dword_left, 29);
    assert_eq!(writer.dword_offset, 3);

    writer.flush();
    assert_eq!(writer.bit_offset(), 40);
    assert_eq!(writer.dword_left, 32);
    assert_eq!(writer.dword_offset, 0);
}

#[test]
fn bitstream_writer_aligned() {
    let mut writer = BitStreamWriter::new();
    writer.write_bits(3, 31);
    writer.align(32);
    assert_eq!(writer.bit_offset(), 32);
    writer.flush();
    assert_eq!(writer.bit_offset(), 32);
}

#[test]
fn word_writer_full_word_order() {
    let mut writer = BitStreamWriter::default();
    writer.write_bits(1, 32);
    assert_eq!(writer.buffer, vec![0x01, 0, 0, 0]);
    writer.write_bits(0xdead_beef, 32);
    assert_eq!(writer.buffer, vec![0x01, 0, 0, 0, 0xef, 0xbe, 0xad, 0xde]);
    writer.write_dword(0x0102_0304);
    assert_eq!(writer.buffer, vec![0x01, 0, 0, 0, 0xef, 0xbe, 0xad, 0xde, 4, 3, 2, 1]);
}

#[test]
fn word_writer_dword_follows_pending_bits() {
    let mut writer = BitStreamWriter::new();
    writer.write_bits(0xff, 8);
    writer.write_dword(0);
    writer.flush();
    assert_eq!(writer.buffer, vec![0xff, 0, 0, 0, 0]);
}

#[test]
fn word_writer_flush_order() {
    let mut writer = BitStreamWriter::new();
    writer.write_bits(0x12_3456, 24);
    writer.flush();
    assert_eq!(writer.buffer, vec![0x56, 0x34, 0x12]);

    let mut writer = BitStreamWriter::new();
    writer.write_bits(0x1234, 16);
    writer.flush();
    assert_eq!(writer.buffer, vec![0x34, 0x12]);

    let mut writer = BitStreamWriter::new();
    writer.write_bits(0x5, 3);
    writer.flush();
    assert_eq!(writer.buffer, vec![0x05]);
    writer.flush();
    assert_eq!(writer.buffer, vec![0x05]);
}
