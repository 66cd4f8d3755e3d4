use bitcode_writer::bitstream::abbrv::Abbr;
use bitcode_writer::bitstream::operand::{FixedValue, OperandDef, OperandValue, VBRValue};
use bitcode_writer::bitstream::{BitStream, BlockInfoMap};

fn after_magic(writer: &mut BitStream) -> String {
    writer.writer.flush();
    hex::encode(&writer.writer.buffer[4..])
}

#[test]
pub fn write_vbt() {
    let mut writer = BitStream::new(0xdeadbeef);
    writer.write_vbr(0x1e, 4);
    writer.writer.flush();
    let content = hex::encode(&writer.writer.buffer[4..]);
    assert_eq!(content, "3e");
}

#[test]
pub fn write_vbt_32bit() {
    let mut writer = BitStream::new(0xdeadbeef);
    writer.write_vbr(0x3, 6);
    writer.writer.flush();
    let content = hex::encode(&writer.writer.buffer[4..]);
    assert_eq!(content, "03");

    let mut writer = BitStream::new(0xdeadbeef);
    writer.write_vbr(0xabba, 6);
    writer.writer.flush();
    let content = hex::encode(&writer.writer.buffer[4..]);
    assert_eq!(content, "7aaf06");
}

#[test]
pub fn write_vbt_64bit() {
    let mut writer = BitStream::new(0xdeadbeef);
    writer.write_vbr_u64(0, 0x3, 6);
    writer.writer.flush();
    let content = hex::encode(&writer.writer.buffer[4..]);
    assert_eq!(content, "03");

    let mut writer = BitStream::new(0xdeadbeef);
    writer.write_vbr_u64(0xabbaabba, 0xc0dec0de, 6);
    writer.writer.flush();
    let content = hex::encode(&writer.writer.buffer[4..]);
    // The stream holds these bytes first; the rest of the value follows.
    assert!(content.starts_with("be09f72db8de"), "{content}");
}

#[test]
pub fn write_block() {
    let mut writer = BitStream::new(0xdeadbeef);
    writer.enter_block(8, 2);
    writer.end_block(8);
    writer.writer.flush();

    let content = hex::encode(&writer.writer.buffer[4..]);
    assert_eq!(content, "210800000100000000000000");
}

#[test]
pub fn write_block_subblocks() {
    let mut writer = BitStream::new(0xdeadbeef);
    writer.enter_block(8, 4);
    writer.enter_block(9, 6);
    writer.end_block(9);
    writer.end_block(8);
    writer.writer.flush();

    let content = hex::encode(&writer.writer.buffer[4..]);
    assert_eq!(content, "211000000400000091600000010000000000000000000000");
}

#[test]
pub fn write_record_without_abbrv() {
    let mut writer = BitStream::new(0xdeadbeef);
    writer.enter_block(8, 4);

    writer.write_unabrr_record(16, &[1, 2, 3, 4, 5]);

    writer.end_block(8);
    writer.writer.flush();

    let content = hex::encode(&writer.writer.buffer[4..]);
    assert_eq!(content, "21100000020000000315813010050000");
}

#[test]
pub fn define_and_use_abbr() {
    let mut writer = BitStream::new(0xdeadbeef);

    let abbr = Abbr::new(
        "source",
        &[
            OperandDef::Literal(16),
            OperandDef::Array(OperandDef::Char6.into()),
        ],
    );

    writer.enter_block(8, 4);

    writer.define_abbr(&abbr);

    writer.write_record("source", &["hello_world".into()]);

    writer.end_block(8);
    writer.writer.flush();

    let content = hex::encode(&writer.writer.buffer[4..]);
    assert_eq!(content, "2110000004000000324218d27210cbe2fc96132d03000000");
}

#[test]
pub fn write_block_info() {
    let mut writer = BitStream::new(0xdeadbeef);

    let abbr = Abbr::new(
        "source",
        &[
            OperandDef::Literal(16),
            OperandDef::Array(OperandDef::Char6.into()),
        ],
    );

    let mut map = BlockInfoMap::new();
    map.insert(17, vec![abbr]);

    writer.enter_block(8, 4);

    writer.write_block_info(&map);

    writer.end_block(8);
    writer.writer.flush();

    let content = hex::encode(&writer.writer.buffer[4..]);
    assert_eq!(
        content,
        "211000000500000001200000020000000741e4086108000000000000"
    );
}

#[test]
fn magic_comes_first_little_endian() {
    let mut writer = BitStream::new(0xdeadbeef);
    writer.writer.flush();
    assert_eq!(writer.writer.buffer, vec![0xef, 0xbe, 0xad, 0xde]);
}

#[test]
fn write_vbr_u64_writes_every_chunk() {
    let mut writer = BitStream::new(0xdeadbeef);
    writer.write_vbr_u64(0xabbaabba, 0xc0dec0de, 6);
    assert_eq!(after_magic(&mut writer), "be09f72db8de6bedde0a");

    let mut writer = BitStream::new(0xdeadbeef);
    writer.write_vbr_u64(0x8000_0000, 0, 6);
    assert_eq!(after_magic(&mut writer), "20088220088220088208");

    let mut writer = BitStream::new(0xdeadbeef);
    writer.write_vbr_u64(1, 0, 8);
    assert_eq!(after_magic(&mut writer), "8080808010");
}

#[test]
fn write_vbr_widest_chunks() {
    let mut writer = BitStream::new(0xdeadbeef);
    writer.write_vbr(0xffff_ffff, 32);
    assert_eq!(after_magic(&mut writer), "ffffffff01000000");
}

/// Reads one variable bit rate number of chunk width `width` from `bytes` at
/// bit `at`; returns it with the position after it.
fn read_vbr(bytes: &[u8], mut at: usize, width: usize) -> (u64, usize) {
    let mut value = 0u64;
    let mut shift = 0;
    loop {
        let mut chunk = 0u64;
        for k in 0..width {
            let bit = at + k;
            if bytes[bit / 8] >> (bit % 8) & 1 == 1 {
                chunk |= 1 << k;
            }
        }
        at += width;
        let high = 1u64 << (width - 1);
        value |= (chunk & (high - 1)) << shift;
        if chunk & high == 0 {
            return (value, at);
        }
        shift += width - 1;
    }
}

#[test]
fn vbr_round_trip() {
    let values: [u32; 7] = [0, 1, 2, 31, 0xabba, 0x8000_0000, 0xffff_ffff];
    for width in 2..=32u32 {
        let mut writer = BitStream::new(0);
        for v in values {
            writer.write_vbr(v, width);
        }
        writer.writer.flush();
        let mut at = 32;
        for v in values {
            let (read, next) = read_vbr(&writer.writer.buffer, at, width as usize);
            assert_eq!(read, v as u64, "width {width}");
            at = next;
        }
    }
}

#[test]
fn vbr_u64_round_trip() {
    let values: [u64; 6] = [0, 3, 0x1_0000_0000, 0xabba_abba_c0de_c0de, 1 << 63, u64::MAX];
    for width in 2..=64u32 {
        let mut writer = BitStream::new(0);
        for v in values {
            writer.write_vbr_u64((v >> 32) as u32, v as u32, width);
        }
        writer.writer.flush();
        let mut at = 32;
        for v in values {
            let (read, next) = read_vbr(&writer.writer.buffer, at, width as usize);
            assert_eq!(read, v, "width {width}");
            at = next;
        }
    }
}

#[test]
fn block_length_counts_words_after_header() {
    let mut writer = BitStream::new(0xdeadbeef);
    writer.enter_block(8, 4);
    writer.write_unabrr_record(1, &[0x7fff_ffff, 0x7fff_ffff, 0x7fff_ffff]);
    writer.end_block(8);
    writer.writer.flush();
    let buffer = &writer.writer.buffer;
    let length = u32::from_le_bytes([buffer[8], buffer[9], buffer[10], buffer[11]]);
    assert_eq!(length as usize, (buffer.len() - 12) / 4);
    assert_eq!(buffer.len() % 4, 0);
}

#[test]
fn nested_block_lengths() {
    let mut writer = BitStream::new(0xdeadbeef);
    writer.enter_block(8, 3);
    writer.write_unabrr_record(2, &[7]);
    writer.enter_block(9, 5);
    writer.write_unabrr_record(3, &[1, 2]);
    writer.end_block(9);
    writer.end_block(8);
    writer.writer.flush();
    let buffer = &writer.writer.buffer;
    let outer = u32::from_le_bytes([buffer[8], buffer[9], buffer[10], buffer[11]]) as usize;
    assert_eq!(outer, (buffer.len() - 12) / 4);
    assert!(writer.stack.is_empty());
}

#[test]
fn abbreviation_ids_start_at_four() {
    let mut writer = BitStream::new(0xdeadbeef);
    writer.enter_block(8, 4);
    writer.define_abbr(&Abbr::new("a", &[OperandDef::Literal(1)]));
    writer.define_abbr(&Abbr::new("b", &[OperandDef::Fixed(3)]));
    assert_eq!(writer.stack[0].block.abbr_map[0].index, 4);
    assert_eq!(writer.stack[0].block.abbr_map[1].index, 5);
    writer.write_record(
        "b",
        &[OperandValue::Fixed(FixedValue { value: 5, width: 3 })],
    );
    writer.end_block(8);
    assert_eq!(after_magic(&mut writer), "21100000020000001206489051050000");
}

#[test]
fn encode_blob_char6_fixed_and_vbr() {
    let mut writer = BitStream::new(0xdeadbeef);
    OperandValue::Blob(vec![1, 2, 3]).encode(&mut writer);
    assert_eq!(after_magic(&mut writer), "0300000001020300");

    let mut writer = BitStream::new(0xdeadbeef);
    for ch in ['a', 'Z', '9', '.', '_'] {
        OperandValue::Char6(ch).encode(&mut writer);
    }
    assert_eq!(after_magic(&mut writer), "c0dcfb3f");

    let mut writer = BitStream::new(0xdeadbeef);
    OperandValue::Fixed(FixedValue { value: 5, width: 3 }).encode(&mut writer);
    OperandValue::Vbr(VBRValue { value: 0x100, width: 4 }).encode(&mut writer);
    OperandValue::Literal.encode(&mut writer);
    assert_eq!(after_magic(&mut writer), "4524");
}

#[test]
fn empty_block_info_writes_nothing() {
    let mut writer = BitStream::new(0xdeadbeef);
    writer.write_block_info(&BlockInfoMap::new());
    assert_eq!(writer.writer.buffer.len(), 4);
    assert_eq!(writer.writer.dword_offset, 0);
    assert!(writer.block_info.is_empty());
}

#[test]
fn blocks_inherit_block_info_abbreviations() {
    let mut writer = BitStream::new(0xdeadbeef);
    let abbr = Abbr::new("source", &[OperandDef::Literal(16), OperandDef::Array(OperandDef::Char6.into())]);
    let mut map = BlockInfoMap::new();
    map.insert(17, vec![abbr]);
    writer.write_block_info(&map);
    writer.enter_block(17, 4);
    assert_eq!(writer.stack[0].block.abbr_map.len(), 1);
    assert_eq!(writer.stack[0].block.abbr_map[0].index, 4);
    assert_eq!(writer.stack[0].block.abbr_map[0].abbr.name, "source");
    writer.end_block(17);
}

#[test]
fn operand_counts() {
    let abbr = Abbr::new(
        "x",
        &[
            OperandDef::Literal(1),
            OperandDef::Array(Box::new(OperandDef::Array(OperandDef::Vbr(6).into()))),
            OperandDef::Blob,
        ],
    );
    assert_eq!(abbr.operand_count, 5);
    assert_eq!(OperandDef::Array(OperandDef::Char6.into()).count(), 2);
    assert_eq!(OperandDef::Fixed(3).count(), 1);
}

#[test]
fn string_into_char6_array() {
    let v: OperandValue = "ab".into();
    match v {
        OperandValue::Array(es) => {
            assert_eq!(es.len(), 2);
            assert!(matches!(es[0], OperandValue::Char6('a')));
            assert!(matches!(es[1], OperandValue::Char6('b')));
        }
        _ => panic!("not an array"),
    }
}

#[test]
fn finish_hands_out_bytes_of_balanced_stream() {
    let mut writer = BitStream::new(0xdeadbeef);
    writer.enter_block(8, 2);
    writer.end_block(8);
    writer.write_vbr(0x1e, 4);
    let bytes = writer.finish().unwrap();
    assert_eq!(hex::encode(&bytes[4..]), "2108000001000000000000003e");
}

#[test]
fn finish_refuses_open_block() {
    let mut writer = BitStream::new(0xdeadbeef);
    writer.enter_block(8, 2);
    assert!(writer.finish().is_none());
}

#[test]
fn write_vbr_u64_chunks_wider_than_a_word() {
    let cases: [(u64, u32, &str); 4] = [
        (1 << 63, 40, "00000000800000000100"),
        (0xabba_abba_c0de_c0de, 64, "dec0dec0baabbaab0100000000000000"),
        (3, 48, "030000000000"),
        (u64::MAX, 33, "ffffffffffffffff01"),
    ];
    for (v, width, expected) in cases {
        let mut writer = BitStream::new(0xdeadbeef);
        writer.write_vbr_u64((v >> 32) as u32, v as u32, width);
        assert_eq!(after_magic(&mut writer), expected, "width {width}");
    }

    let mut writer = BitStream::new(0xdeadbeef);
    OperandValue::Vbr(VBRValue { value: 3, width: 48 }).encode(&mut writer);
    assert_eq!(after_magic(&mut writer), "030000000000");
}
