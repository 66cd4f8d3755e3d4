use bitcode_writer::bitstream::bitstream_writer::BitStreamWriter;
use bytes::Buf;

#[test]
fn write_bits() {
    let mut writer = BitStreamWriter::new();

    writer.write_bits(3, 31);
    assert_eq!(writer.bit_offset(), 31);
    assert_eq!(writer.dword_left, 1);
    assert_eq!(writer.dword_offset, 31);

    writer.write_bits(7, 4);
    assert_eq!(writer.bit_offset(), 35);
    assert_eq!(writer.dword_left, 29);
    assert_eq!(writer.dword_offset, 3);

    writer.flush();
    assert_eq!(writer.bit_offset(), 40);
    assert_eq!(writer.dword_left, 32);
    assert_eq!(writer.dword_offset, 0);
}

#[test]
fn aligned() {
    let mut writer = BitStreamWriter::new();
    writer.write_bits(3, 31);
    writer.align(32);
    assert_eq!(writer.bit_offset(), 32);
    writer.flush();
    assert_eq!(writer.bit_offset(), 32);
}

#[test]
fn write_words_and_bytes() {
    let mut writer = BitStreamWriter::new();

    let mut i = 0;
    while i < 30_000 {
        writer.write_word(i as u16);
        writer.write_byte(i as u8);
        i += 3;
    }

    assert_eq!(writer.bit_offset(), 30_000 * 8);
    writer.flush();
    assert_eq!(writer.bit_offset(), 30_000 * 8);

    assert_eq!(writer.buffer.len(), 30_000);

    let mut i = 0;
    let mut buf = writer.buffer.as_slice();
    while i < 30_000 {
        assert_eq!(buf.get_u16_le(), i as u16, "Mismatch at {i}");
        assert_eq!(buf.get_u8(), i as u8, "Mismatch at {i}");
        i += 3;
    }
}

#[test]
fn write_dwords_and_bytes() {
    let mut writer = BitStreamWriter::new();

    let mut i = 0;
    while i < 30_000 {
        writer.write_dword(i);
        writer.write_byte(i as u8);
        i += 5;
    }

    assert_eq!(writer.bit_offset(), 30_000 * 8);
    writer.flush();
    assert_eq!(writer.bit_offset(), 30_000 * 8);

    assert_eq!(writer.buffer.len(), 30_000);

    let mut i = 0;
    let mut buf = writer.buffer.as_slice();
    while i < 30_000 {
        assert_eq!(buf.get_u32_le(), i as u32, "Mismatch at {i}");
        assert_eq!(buf.get_u8(), i as u8, "Mismatch at {i}");
        i += 5;
    }
}

/// Reads `width` bits from `bytes` starting at bit `at`, least significant
/// bit first.
fn read_bits(bytes: &[u8], at: usize, width: usize) -> u64 {
    let mut v = 0u64;
    for k in 0..width {
        let bit = at + k;
        if bytes[bit / 8] >> (bit % 8) & 1 == 1 {
            v |= 1 << k;
        }
    }
    v
}

#[test]
fn write_bits_advances_and_reads_back() {
    let mut writer = BitStreamWriter::new();
    let cases: [(u32, u32); 6] = [(5, 3), (0xffff_ffff, 32), (0x1234, 7), (1, 1), (0xabcd_ef01, 29), (9, 0)];
    let mut starts = Vec::new();
    for (v, w) in cases {
        let before = writer.bit_offset();
        writer.write_bits(v, w);
        assert_eq!(writer.bit_offset(), before + w as usize);
        starts.push(before);
    }
    writer.flush();
    for (k, (v, w)) in cases.iter().enumerate() {
        let mask: u64 = if *w == 32 { 0xffff_ffff } else { (1u64 << w) - 1 };
        assert_eq!(read_bits(&writer.buffer, starts[k], *w as usize), *v as u64 & mask);
    }
}

#[test]
fn write_bits_masks_high_bits() {
    let mut writer = BitStreamWriter::new();
    writer.write_bits(0xff, 4);
    writer.flush();
    assert_eq!(writer.buffer, vec![0x0f]);
}

#[test]
fn align_then_flush_fills_whole_words() {
    let mut writer = BitStreamWriter::new();
    writer.write_bits(0x1f, 5);
    writer.align(32);
    writer.flush();
    assert_eq!(writer.buffer.len() * 8, writer.bit_offset());
    assert_eq!(writer.buffer.len() % 4, 0);
    assert_eq!(writer.buffer, vec![0x1f, 0, 0, 0]);

    let mut empty = BitStreamWriter::new();
    empty.align(32);
    empty.flush();
    assert_eq!(empty.buffer.len(), 0);
    assert_eq!(empty.bit_offset(), 0);
}

#[test]
fn align_pads_against_the_staging_word() {
    let mut writer = BitStreamWriter::new();
    writer.write_bits(1, 3);
    writer.align(8);
    assert_eq!(writer.bit_offset(), 8);
    writer.write_bits(1, 1);
    writer.align(4);
    assert_eq!(writer.bit_offset(), 12);
}

#[test]
fn flush_emits_pending_bytes_little_endian() {
    let mut writer = BitStreamWriter::new();
    writer.write_bits(0x12_3456, 24);
    writer.flush();
    assert_eq!(writer.buffer, vec![0x56, 0x34, 0x12]);

    let mut writer = BitStreamWriter::new();
    writer.write_word(0xbeef);
    writer.flush();
    assert_eq!(writer.buffer, vec![0xef, 0xbe]);
    writer.flush();
    assert_eq!(writer.buffer, vec![0xef, 0xbe]);
}

#[test]
fn write_dword_is_little_endian() {
    let mut writer = BitStreamWriter::default();
    writer.write_dword(0xdead_beef);
    assert_eq!(writer.buffer, vec![0xef, 0xbe, 0xad, 0xde]);
    writer.write_bits(1, 4);
    writer.write_dword(0x1234_5678);
    writer.flush();
    assert_eq!(writer.buffer, vec![0xef, 0xbe, 0xad, 0xde, 0x81, 0x67, 0x45, 0x23, 0x01]);
}
