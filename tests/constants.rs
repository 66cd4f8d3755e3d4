use bitcode_writer::bitcode::blocks::ConstantBlock;
use bitcode_writer::bitcode::constants::{
    vbr_widths, AttributeKindCode, BlockId, ConstantsCode, FastMathMap, FunctionCide, MetadataCode,
    CURRENT_EPOCH,
};
use bitcode_writer::bitstream::operand::OperandDef;
use bitcode_writer::bitstream::{BitStream, BlockInfoMap};

#[test]
fn codes_match_the_format() {
    assert_eq!(BlockId::Module.code(), 8);
    assert_eq!(BlockId::Constants.code(), 11);
    assert_eq!(BlockId::SyncScopeNames.code(), 26);
    assert_eq!(ConstantsCode::Aggregate.code(), 7);
    assert_eq!(ConstantsCode::PtrAuth.code(), 33);
    assert_eq!(FunctionCide::INST_CALL.code(), 34);
    assert_eq!(AttributeKindCode::HYBRID_PATCHABLE.code(), 95);
    assert_eq!(FastMathMap::AllowReassoc.code(), 128);
    assert_eq!(MetadataCode::ASSIGN_ID.code(), 47);
    assert_eq!(CURRENT_EPOCH, 0);
    assert_eq!(vbr_widths::VALUE_INDEX, 8);
}

#[test]
fn constant_block_abbreviations() {
    let mut info = BlockInfoMap::new();
    ConstantBlock::build_info(&mut info);
    assert_eq!(info.entries.len(), 1);
    assert_eq!(info.entries[0].0, 11);
    let abbrs = &info.entries[0].1;
    let names: Vec<&str> = abbrs.iter().map(|a| a.name.as_str()).collect();
    assert_eq!(names, vec!["settype", "int", "null", "undef", "aggr"]);
    let counts: Vec<u32> = abbrs.iter().map(|a| a.operand_count).collect();
    assert_eq!(counts, vec![2, 2, 1, 1, 3]);
    assert!(matches!(abbrs[0].operands[0], OperandDef::Literal(1)));
    assert!(matches!(abbrs[1].operands[1], OperandDef::Vbr(8)));
    assert!(matches!(abbrs[4].operands[1], OperandDef::Array(_)));

    ConstantBlock::build_info(&mut info);
    assert_eq!(info.entries.len(), 1);
}

#[test]
fn constant_block_info_written_and_inherited() {
    let mut info = BlockInfoMap::new();
    ConstantBlock::build_info(&mut info);
    let mut writer = BitStream::new(0xdeadbeef);
    writer.write_block_info(&info);
    writer.enter_block(BlockId::Constants.code(), 4);
    assert_eq!(writer.stack[0].block.abbr_map.len(), 5);
    assert_eq!(writer.stack[0].block.abbr_map[4].index, 8);
    writer.end_block(BlockId::Constants.code());
    writer.writer.flush();
    assert_eq!(writer.writer.buffer.len() % 4, 0);
}
