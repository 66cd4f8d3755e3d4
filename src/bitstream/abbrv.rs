//! Abbreviations: named lists of operand definitions, which write their own
//! definition into the stream and then encode records of that shape.
use super::operand::{
    def_count, defs_count, encode_all_onto, encode_prefix_onto, value_ok, OperandDef,
    OperandValue,
};
use super::BitStream;
use crate::bits::{bits_of, vbr_bits};
use vstd::prelude::*;

verus! {

pub const IS_LITERAL_WIDTH: u32 = 1;
pub const LITERAL_VALUE_WIDTH: u32 = 8;
pub const ENC_WIDTH: u32 = 3;
pub const VALUE_WIDTH: u32 = 5;
pub const OPERAND_COUNT_WIDTH: u32 = 5;

pub const LITERAL: u32 = 1;
pub const NOT_LITERAL: u32 = 0;

pub const FIXED_ENC: u32 = 1;
pub const VBR_ENC: u32 = 2;
pub const ARRAY_ENC: u32 = 3;
pub const CHAR6_ENC: u32 = 4;
pub const BLOB_ENC: u32 = 5;

#[derive(Debug)]
pub struct Abbr {
    pub name: String,
    pub operands: Vec<OperandDef>,
    pub operand_count: u32,
}

/// An abbreviation as a value: its name, its operand definitions and its
/// operand count.
pub type AbbrView = (Seq<char>, Seq<OperandDef>, u32);

impl View for Abbr {
    type V = AbbrView;

    open spec fn view(&self) -> AbbrView {
        (self.name@, self.operands@, self.operand_count)
    }
}

impl Clone for Abbr {
    fn clone(&self) -> (r: Self)
        ensures
            r@ == self@,
    {
        let mut operands: Vec<OperandDef> = Vec::new();
        let mut i: usize = 0;
        while i < self.operands.len()
            invariant
                i <= self.operands@.len(),
                operands@ == self.operands@.take(i as int),
            decreases self.operands@.len() - i,
        {
            operands.push(self.operands[i].clone());
            i = i + 1;
            assert(operands@ =~= self.operands@.take(i as int));
        }
        assert(operands@ =~= self.operands@);
        Abbr { name: self.name.clone(), operands, operand_count: self.operand_count }
    }
}

/// The definition of one operand: a literal flag, then the literal's value or
/// the encoding tag with its width or element definition.
pub open spec fn def_bits(d: OperandDef) -> Seq<bool>
    decreases d,
{
    let lit = bits_of(LITERAL as nat, IS_LITERAL_WIDTH as nat);
    let not_lit = bits_of(NOT_LITERAL as nat, IS_LITERAL_WIDTH as nat);
    match d {
        OperandDef::Literal(v) => lit + vbr_bits(v as nat, LITERAL_VALUE_WIDTH as nat),
        OperandDef::Vbr(w) => not_lit + bits_of(VBR_ENC as nat, ENC_WIDTH as nat) + vbr_bits(
            w as nat,
            VALUE_WIDTH as nat,
        ),
        OperandDef::Fixed(w) => not_lit + bits_of(FIXED_ENC as nat, ENC_WIDTH as nat) + vbr_bits(
            w as nat,
            VALUE_WIDTH as nat,
        ),
        OperandDef::Array(inner) => not_lit + bits_of(ARRAY_ENC as nat, ENC_WIDTH as nat)
            + def_bits(*inner),
        OperandDef::Blob => not_lit + bits_of(BLOB_ENC as nat, ENC_WIDTH as nat),
        OperandDef::Char6 => not_lit + bits_of(CHAR6_ENC as nat, ENC_WIDTH as nat),
    }
}

/// The definitions of a sequence of operands, in order.
pub open spec fn defs_bits(s: Seq<OperandDef>) -> Seq<bool>
    decreases s.len(),
{
    if s.len() == 0 {
        Seq::empty()
    } else {
        defs_bits(s.drop_last()) + def_bits(s.last())
    }
}

/// The definition of an abbreviation: its operand count, then its operands.
pub open spec fn abbr_def_bits(a: AbbrView) -> Seq<bool> {
    vbr_bits(a.2 as nat, OPERAND_COUNT_WIDTH as nat) + defs_bits(a.1)
}

impl Abbr {
    pub fn new(name: &str, operands: &[OperandDef]) -> (r: Self)
        requires
            defs_count(operands@) <= u32::MAX,
        ensures
            r.name@ == name@,
            r.operands@ == operands@,
            r.operand_count == defs_count(operands@),
    {
        let mut count: usize = 0;
        let mut ops: Vec<OperandDef> = Vec::new();
        let mut i: usize = 0;
        while i < operands.len()
            invariant
                i <= operands@.len(),
                defs_count(operands@) <= u32::MAX,
                count == defs_count(operands@.take(i as int)),
                ops@ == operands@.take(i as int),
            decreases operands@.len() - i,
        {
            proof {
                lemma_defs_count_prefix(operands@, i as int);
                assert(operands@.take(i as int + 1).drop_last() =~= operands@.take(i as int));
            }
            count = count + operands[i].count();
            ops.push(operands[i].clone());
            i = i + 1;
            assert(ops@ =~= operands@.take(i as int));
        }
        assert(operands@.take(i as int) =~= operands@);
        Self { name: name.to_owned(), operands: ops, operand_count: count as u32 }
    }

    /// Writes the definition of the abbreviation: its operand count, then each
    /// operand's definition.
    pub fn write_definition(&self, writer: &mut BitStream)
        requires
            old(writer).wf(),
        ensures
            final(writer).wf(),
            old(writer).writes_only(&*final(writer)),
            final(writer).writer.bits() == old(writer).writer.bits() + abbr_def_bits(self@),
    {
        writer.write_vbr(self.operand_count, OPERAND_COUNT_WIDTH);

        Self::define_operands(writer, self.operands.as_slice());
    }

    /// Writes the definitions of `operands`, in order.
    #[verifier::rlimit(40)]
    pub fn define_operands(writer: &mut BitStream, operands: &[OperandDef])
        requires
            old(writer).wf(),
        ensures
            final(writer).wf(),
            old(writer).writes_only(&*final(writer)),
            final(writer).writer.bits() == old(writer).writer.bits() + defs_bits(operands@),
        decreases defs_count(operands@),
    {
        let ghost start = writer.writer.bits();
        let mut i: usize = 0;
        while i < operands.len()
            invariant
                writer.wf(),
                old(writer).wf(),
                old(writer).writes_only(&*writer),
                i <= operands@.len(),
                writer.writer.bits() == start + defs_bits(operands@.take(i as int)),
            decreases operands@.len() - i,
        {
            let ghost pre = *writer;
            match &operands[i] {
                OperandDef::Literal(value) => {
                    writer.writer.write_bits(LITERAL, IS_LITERAL_WIDTH);
                    proof {
                        pre.lemma_wf_after_write(writer);
                    }
                    writer.write_vbr(*value, LITERAL_VALUE_WIDTH);
                },
                OperandDef::Vbr(width) => {
                    writer.writer.write_bits(NOT_LITERAL, IS_LITERAL_WIDTH);
                    writer.writer.write_bits(VBR_ENC, ENC_WIDTH);
                    proof {
                        pre.lemma_wf_after_write(writer);
                    }
                    writer.write_vbr(*width, VALUE_WIDTH);
                },
                OperandDef::Fixed(width) => {
                    writer.writer.write_bits(NOT_LITERAL, IS_LITERAL_WIDTH);
                    writer.writer.write_bits(FIXED_ENC, ENC_WIDTH);
                    proof {
                        pre.lemma_wf_after_write(writer);
                    }
                    writer.write_vbr(*width, VALUE_WIDTH);
                },
                OperandDef::Array(element) => {
                    writer.writer.write_bits(NOT_LITERAL, IS_LITERAL_WIDTH);
                    writer.writer.write_bits(ARRAY_ENC, ENC_WIDTH);
                    proof {
                        pre.lemma_wf_after_write(writer);
                    }
                    let inner = vec![(**element).clone()];
                    proof {
                        lemma_defs_count_prefix(operands@, i as int);
                        assert(inner@.len() == 1);
                        assert(inner@.last() == **element);
                        assert(inner@.drop_last() =~= Seq::<OperandDef>::empty());
                        assert(defs_count(Seq::<OperandDef>::empty()) == 0);
                        assert(defs_bits(Seq::<OperandDef>::empty()) =~= Seq::<bool>::empty());
                        assert(defs_count(inner@) == def_count(**element));
                        assert(defs_bits(inner@) =~= def_bits(**element));
                    }
                    Self::define_operands(writer, inner.as_slice());
                },
                OperandDef::Blob => {
                    writer.writer.write_bits(NOT_LITERAL, IS_LITERAL_WIDTH);
                    writer.writer.write_bits(BLOB_ENC, ENC_WIDTH);
                    proof {
                        pre.lemma_wf_after_write(writer);
                    }
                },
                OperandDef::Char6 => {
                    writer.writer.write_bits(NOT_LITERAL, IS_LITERAL_WIDTH);
                    writer.writer.write_bits(CHAR6_ENC, ENC_WIDTH);
                    proof {
                        pre.lemma_wf_after_write(writer);
                    }
                },
            }
            proof {
                assert(operands@.take(i + 1).drop_last() =~= operands@.take(i as int));
                assert(writer.writer.bits() =~= start + defs_bits(operands@.take(i + 1)));
            }
            i = i + 1;
        }
        assert(operands@.take(i as int) =~= operands@);
    }

    /// Encodes the values of a record, in order.
    pub fn write(&self, writer: &mut BitStream, values: &[OperandValue])
        requires
            old(writer).wf(),
            forall|k: int| 0 <= k < values@.len() ==> value_ok(#[trigger] values@[k]),
        ensures
            final(writer).wf(),
            old(writer).writes_only(&*final(writer)),
            final(writer).writer.bits() == encode_all_onto(old(writer).writer.bits(), values@),
    {
        let mut i: usize = 0;
        while i < values.len()
            invariant
                writer.wf(),
                old(writer).writes_only(&*writer),
                i <= values@.len(),
                forall|k: int| 0 <= k < values@.len() ==> value_ok(#[trigger] values@[k]),
                writer.writer.bits() == encode_prefix_onto(
                    old(writer).writer.bits(),
                    values@,
                    i as nat,
                ),
            decreases values@.len() - i,
        {
            values[i].encode(writer);
            i = i + 1;
        }
    }
}

/// A prefix with one more definition counts that definition too, and no prefix
/// counts more than the whole.
proof fn lemma_defs_count_prefix(s: Seq<OperandDef>, i: int)
    requires
        0 <= i < s.len(),
    ensures
        defs_count(s.take(i + 1)) == defs_count(s.take(i)) + def_count(s[i]),
        defs_count(s.take(i + 1)) <= defs_count(s),
    decreases s.len(),
{
    assert(s.take(i + 1).drop_last() =~= s.take(i));
    if i + 1 < s.len() {
        lemma_defs_count_prefix(s.drop_last(), i);
        assert(s.drop_last().take(i + 1) =~= s.take(i + 1));
        assert(s.drop_last().take(i) =~= s.take(i));
    } else {
        assert(s.take(i + 1) =~= s);
    }
}

} // verus!
