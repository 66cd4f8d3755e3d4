//! The abbreviations that blocks of a kind inherit through BLOCKINFO.
use super::constants::{vbr_widths, BlockId, ConstantsCode};
use crate::bitstream::abbrv::{Abbr, AbbrView};
use crate::bitstream::block::abbrs_view;
use crate::bitstream::operand::{def_count, defs_count, OperandDef};
use crate::bitstream::BlockInfoMap;
use vstd::prelude::*;

verus! {

pub struct ConstantBlock {}

/// The abbreviations of the constants block, as LLVM's bitcode writer
/// defines them.
pub open spec fn constant_abbrs() -> Seq<AbbrView> {
    seq![
        (
            "settype"@,
            seq![
                OperandDef::Literal(ConstantsCode::SetType.spec_code()),
                OperandDef::Vbr(vbr_widths::TYPE_INDEX),
            ],
            2u32,
        ),
        (
            "int"@,
            seq![
                OperandDef::Literal(ConstantsCode::Integer.spec_code()),
                OperandDef::Vbr(vbr_widths::INTEGER),
            ],
            2u32,
        ),
        ("null"@, seq![OperandDef::Literal(ConstantsCode::Null.spec_code())], 1u32),
        ("undef"@, seq![OperandDef::Literal(ConstantsCode::Undef.spec_code())], 1u32),
        (
            "aggr"@,
            seq![
                OperandDef::Literal(ConstantsCode::Aggregate.spec_code()),
                OperandDef::Array(Box::new(OperandDef::Vbr(vbr_widths::VALUE_INDEX))),
            ],
            3u32,
        ),
    ]
}

impl ConstantBlock {
    // https://github.com/llvm/llvm-project/blob/cd708029e0b2869e80abe31ddb175f7c35361f90/llvm/lib/Bitcode/Writer/BitcodeWriter.cpp#L3714
    /// Registers the abbreviations of the constants block in `info`.
    pub fn build_info(info: &mut BlockInfoMap)
        requires
            old(info).wf(),
        ensures
            final(info).wf(),
            (exists|i: int|
                0 <= i < old(info)@.len() && old(info)@[i].0 == BlockId::Constants.spec_code()
                    && final(info)@ == old(info)@.update(
                    i,
                    (BlockId::Constants.spec_code(), constant_abbrs()),
                )) || (!old(info).ids().contains(BlockId::Constants.spec_code()) && final(info)@
                == old(info)@.push((BlockId::Constants.spec_code(), constant_abbrs()))),
    {
        proof {
            reveal_with_fuel(defs_count, 3);
            reveal_with_fuel(def_count, 2);
        }
        let settype = vec![
            OperandDef::Literal(ConstantsCode::SetType.code()),
            OperandDef::Vbr(vbr_widths::TYPE_INDEX),
        ];
        assert(settype@.drop_last().drop_last() =~= Seq::<OperandDef>::empty());
        let integer = vec![
            OperandDef::Literal(ConstantsCode::Integer.code()),
            OperandDef::Vbr(vbr_widths::INTEGER),
        ];
        assert(integer@.drop_last().drop_last() =~= Seq::<OperandDef>::empty());
        let null = vec![OperandDef::Literal(ConstantsCode::Null.code())];
        assert(null@.drop_last() =~= Seq::<OperandDef>::empty());
        let undef = vec![OperandDef::Literal(ConstantsCode::Undef.code())];
        assert(undef@.drop_last() =~= Seq::<OperandDef>::empty());
        let aggr = vec![
            OperandDef::Literal(ConstantsCode::Aggregate.code()),
            OperandDef::Array(Box::new(OperandDef::Vbr(vbr_widths::VALUE_INDEX))),
        ];
        assert(aggr@.drop_last().drop_last() =~= Seq::<OperandDef>::empty());
        let abbrs = vec![
            Abbr::new("settype", settype.as_slice()),
            Abbr::new("int", integer.as_slice()),
            Abbr::new("null", null.as_slice()),
            Abbr::new("undef", undef.as_slice()),
            Abbr::new("aggr", aggr.as_slice()),
        ];
        proof {
            let c = constant_abbrs();
            assert(defs_count(settype@) == 2);
            assert(defs_count(aggr@) == 3);
            assert(settype@ =~= c[0].1);
            assert(integer@ =~= c[1].1);
            assert(null@ =~= c[2].1);
            assert(undef@ =~= c[3].1);
            assert(aggr@ =~= c[4].1);
            assert(abbrs@[0]@ == c[0]);
            assert(abbrs@[4]@ == c[4]);
            assert(abbrs_view(abbrs@) =~= constant_abbrs());
        }
        let ghost before = *info;
        info.insert(BlockId::Constants.code(), abbrs);
        proof {
            let id = BlockId::Constants.spec_code();
            if exists|i: int|
                0 <= i < before.entries@.len() && before.entries@[i].0 == id
                    && info.entries@ == before.entries@.update(i, (id, abbrs)) {
                let i = choose|i: int|
                    0 <= i < before.entries@.len() && before.entries@[i].0 == id
                        && info.entries@ == before.entries@.update(i, (id, abbrs));
                assert(info@ =~= before@.update(i, (id, constant_abbrs())));
            } else {
                assert(info@ =~= before@.push((id, constant_abbrs())));
            }
        }
    }
}

} // verus!
