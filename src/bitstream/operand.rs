//! Operand definitions (the slots of an abbreviation) and operand values (the
//! data of a record), with the encoding of each value.
use crate::bits::{bits_of, bytes_bits, lemma_bytes_bits_append, vbr_bits};
use crate::bitstream::{align32, BitStream};
use vstd::prelude::*;
use vstd::string::StrSliceExecFns;

verus! {

/// Width of the length that precedes an array or a blob.
pub const LEN_WIDTH: u32 = 6;

#[derive(Debug, Clone, Copy)]
pub struct FixedValue {
    pub value: u32,
    pub width: u32,
}

#[derive(Debug, Clone, Copy)]
pub struct VBRValue {
    pub value: u64,
    pub width: u32,
}

#[derive(Debug)]
pub enum OperandDef {
    Literal(u32),
    Vbr(u32),
    Fixed(u32),
    Array(Box<OperandDef>),
    Blob,
    Char6,
}

#[derive(Debug)]
pub enum OperandValue {
    Literal,
    Vbr(VBRValue),
    Fixed(FixedValue),
    Array(Vec<OperandValue>),
    Blob(Vec<u8>),
    Char6(char),
}

impl Clone for OperandDef {
    fn clone(&self) -> (r: Self)
        ensures
            r == *self,
        decreases self,
    {
        match self {
            OperandDef::Literal(v) => OperandDef::Literal(*v),
            OperandDef::Vbr(w) => OperandDef::Vbr(*w),
            OperandDef::Fixed(w) => OperandDef::Fixed(*w),
            OperandDef::Array(inner) => OperandDef::Array(Box::new((**inner).clone())),
            OperandDef::Blob => OperandDef::Blob,
            OperandDef::Char6 => OperandDef::Char6,
        }
    }
}

/// The number of operand slots that a definition takes.
pub open spec fn def_count(d: OperandDef) -> nat
    decreases d,
{
    match d {
        OperandDef::Array(inner) => 1 + def_count(*inner),
        _ => 1,
    }
}

/// The number of operand slots that a sequence of definitions takes.
pub open spec fn defs_count(s: Seq<OperandDef>) -> nat
    decreases s.len(),
{
    if s.len() == 0 {
        0
    } else {
        defs_count(s.drop_last()) + def_count(s.last())
    }
}

impl OperandDef {
    pub fn count(&self) -> (r: usize)
        requires
            def_count(*self) <= usize::MAX,
        ensures
            r == def_count(*self),
        decreases self,
    {
        match self {
            OperandDef::Literal(_) => 1,
            OperandDef::Vbr(_vbrvalue) => 1,
            OperandDef::Fixed(_fixed_value) => 1,
            OperandDef::Array(operand) => 1 + operand.count(),
            OperandDef::Blob => 1,
            OperandDef::Char6 => 1,
        }
    }
}

/// The characters of the 6-bit alphabet: `a-z`, `A-Z`, `0-9`, `.` and `_`.
pub open spec fn is_char6(c: char) -> bool {
    let x = c as u32;
    (0x61 <= x <= 0x7a) || (0x41 <= x <= 0x5a) || (0x30 <= x <= 0x39) || x == 0x2e || x == 0x5f
}

/// The 6-bit code of a character of the alphabet: `a-z` are 0 to 25, `A-Z`
/// are 26 to 51, `0-9` are 52 to 61, `.` is 62 and `_` is 63.
pub open spec fn char6_code(c: char) -> nat {
    let x = c as u32;
    if 0x61 <= x <= 0x7a {
        (x - 0x61) as nat
    } else if 0x41 <= x <= 0x5a {
        (x - 0x41 + 26) as nat
    } else if 0x30 <= x <= 0x39 {
        (x - 0x30 + 52) as nat
    } else if x == 0x2e {
        62
    } else {
        63
    }
}

/// A value that can be encoded: widths that the bit writer takes, characters
/// of the 6-bit alphabet, and lengths that fit in 32 bits.
pub open spec fn value_ok(v: OperandValue) -> bool
    decreases v, 0nat,
{
    match v {
        OperandValue::Literal => true,
        OperandValue::Vbr(x) => 2 <= x.width <= 64,
        OperandValue::Fixed(x) => x.width <= 32,
        OperandValue::Array(es) => es@.len() <= u32::MAX && prefix_ok(es@, es@.len()),
        OperandValue::Blob(bs) => bs@.len() <= u32::MAX,
        OperandValue::Char6(c) => is_char6(c),
    }
}

/// The first `n` values of `vs` can be encoded.
pub open spec fn prefix_ok(vs: Seq<OperandValue>, n: nat) -> bool
    decreases vs, n,
{
    if n == 0 {
        true
    } else if n > vs.len() {
        false
    } else {
        prefix_ok(vs, (n - 1) as nat) && value_ok(vs[n - 1])
    }
}

/// The number of values in `v`, nested ones included.
pub open spec fn value_size(v: OperandValue) -> nat
    decreases v, 0nat,
{
    match v {
        OperandValue::Array(es) => 1 + prefix_size(es@, es@.len()),
        _ => 1,
    }
}

/// The number of values in the first `n` values of `vs`, nested ones included.
pub open spec fn prefix_size(vs: Seq<OperandValue>, n: nat) -> nat
    decreases vs, n,
{
    if n == 0 || n > vs.len() {
        0
    } else {
        prefix_size(vs, (n - 1) as nat) + value_size(vs[n - 1])
    }
}

proof fn lemma_prefix_size(vs: Seq<OperandValue>, n: nat, i: int)
    requires
        n <= vs.len(),
        0 <= i < n,
    ensures
        value_size(vs[i]) <= prefix_size(vs, n),
    decreases n,
{
    if i < n - 1 {
        lemma_prefix_size(vs, (n - 1) as nat, i);
    }
}

proof fn lemma_prefix_ok(vs: Seq<OperandValue>, n: nat, i: int)
    requires
        prefix_ok(vs, n),
        0 <= i < n,
    ensures
        value_ok(vs[i]),
    decreases n,
{
    if i < n - 1 {
        lemma_prefix_ok(vs, (n - 1) as nat, i);
    }
}

/// Every value of the sequence can be encoded.
pub open spec fn values_ok(vs: Seq<OperandValue>) -> bool {
    forall|i: int| 0 <= i < vs.len() ==> #[trigger] value_ok(vs[i])
}

/// The stream `b` followed by the encoding of `v`. A blob is aligned to 32
/// bits before and after its bytes, so the encoding depends on where it
/// starts.
pub open spec fn encode_onto(b: Seq<bool>, v: OperandValue) -> Seq<bool>
    decreases v, 0nat,
{
    match v {
        OperandValue::Literal => b,
        OperandValue::Vbr(x) => b + vbr_bits(x.value as nat, x.width as nat),
        OperandValue::Fixed(x) => b + bits_of(x.value as nat, x.width as nat),
        OperandValue::Array(es) => encode_prefix_onto(
            b + vbr_bits(es@.len(), LEN_WIDTH as nat),
            es@,
            es@.len(),
        ),
        OperandValue::Blob(bs) => align32(
            align32(b + vbr_bits(bs@.len(), LEN_WIDTH as nat)) + bytes_bits(bs@),
        ),
        OperandValue::Char6(c) => b + bits_of(char6_code(c), 6),
    }
}

/// The stream `b` followed by the encodings of the first `n` values of `vs`,
/// in order.
pub open spec fn encode_prefix_onto(b: Seq<bool>, vs: Seq<OperandValue>, n: nat) -> Seq<bool>
    decreases vs, n,
{
    if n == 0 || n > vs.len() {
        b
    } else {
        encode_onto(encode_prefix_onto(b, vs, (n - 1) as nat), vs[n - 1])
    }
}

/// The stream `b` followed by the encodings of all the values of `vs`.
pub open spec fn encode_all_onto(b: Seq<bool>, vs: Seq<OperandValue>) -> Seq<bool> {
    encode_prefix_onto(b, vs, vs.len())
}

impl<'a> From<&'a str> for OperandValue {
    /// An array of 6-bit characters, one for each character of `value`.
    fn from(value: &'a str) -> (r: Self)
        ensures
            r matches OperandValue::Array(es) && es@.len() == value@.len() && forall|i: int|
                0 <= i < es@.len() ==> es@[i] == OperandValue::Char6(value@[i]),
    {
        let mut arr: Vec<OperandValue> = Vec::new();
        let n = value.unicode_len();
        let mut i: usize = 0;
        while i < n
            invariant
                n == value@.len(),
                i <= n,
                arr@.len() == i,
                forall|j: int| 0 <= j < i ==> arr@[j] == OperandValue::Char6(value@[j]),
            decreases n - i,
        {
            arr.push(Self::Char6(value.get_char(i)));
            i = i + 1;
        }

        OperandValue::Array(arr)
    }
}

impl<'a> vstd::std_specs::convert::FromSpecImpl<&'a str> for OperandValue {
    /// The result holds a vector, which a spec function cannot build: `from`
    /// states it in its own `ensures`.
    open spec fn obeys_from_spec() -> bool {
        false
    }

    open spec fn from_spec(v: &'a str) -> Self {
        OperandValue::Literal
    }
}

proof fn lemma_u64_recombine(v: u64)
    by (bit_vector)
    ensures
        ((v >> 32u64) as u32) as u64 * 0x1_0000_0000u64 + (v as u32) as u64 == v,
{
}

impl OperandValue {
    /// Encodes the value: a literal writes nothing, a fixed or variable bit
    /// rate value writes its bits, an array its length and then each element,
    /// a blob its length and its bytes between two alignments to 32 bits, and
    /// a character its 6-bit code.
    pub fn encode(&self, stream: &mut BitStream)
        requires
            old(stream).wf(),
            value_ok(*self),
        ensures
            final(stream).wf(),
            old(stream).writes_only(&*final(stream)),
            final(stream).writer.bits() == encode_onto(old(stream).writer.bits(), *self),
        decreases value_size(*self),
    {
        match self {
            OperandValue::Literal => {},
            OperandValue::Vbr(vbrvalue) => {
                proof {
                    lemma_u64_recombine(vbrvalue.value);
                }
                stream.write_vbr_u64(
                    #[verifier::truncate]
                    ((vbrvalue.value >> 32) as u32),
                    #[verifier::truncate]
                    (vbrvalue.value as u32),
                    vbrvalue.width,
                );
            },
            OperandValue::Fixed(fixed_value) => {
                stream.writer.write_bits(fixed_value.value, fixed_value.width);
                proof {
                    old(stream).lemma_wf_after_write(stream);
                }
            },
            OperandValue::Array(operands) => {
                stream.write_vbr(operands.len() as u32, LEN_WIDTH);
                let ghost head = stream.writer.bits();
                let mut i: usize = 0;
                assert(*self == OperandValue::Array(*operands));
                assert(value_ok(OperandValue::Array(*operands)));
                assert forall|k: int| 0 <= k < operands@.len() implies value_ok(
                    #[trigger] operands@[k],
                ) by {
                    lemma_prefix_ok(operands@, operands@.len(), k);
                }
                while i < operands.len()
                    invariant
                        stream.wf(),
                        old(stream).writes_only(&*stream),
                        i <= operands@.len(),
                        *self == OperandValue::Array(*operands),
                        forall|k: int| 0 <= k < operands@.len() ==> value_ok(#[trigger] operands@[k]),
                        stream.writer.bits() == encode_prefix_onto(head, operands@, i as nat),
                    decreases operands@.len() - i,
                {
                    proof {
                        lemma_prefix_size(operands@, operands@.len(), i as int);
                    }
                    operands[i].encode(stream);
                    i = i + 1;
                }
            },
            OperandValue::Blob(blob_value) => {
                stream.write_vbr(blob_value.len() as u32, LEN_WIDTH);
                stream.align(32);
                let ghost head = stream.writer.bits();
                let mut i: usize = 0;
                while i < blob_value.len()
                    invariant
                        stream.wf(),
                        old(stream).wf(),
                        old(stream).writes_only(&*stream),
                        i <= blob_value@.len(),
                        stream.writer.bits() == head + bytes_bits(blob_value@.take(i as int)),
                    decreases blob_value@.len() - i,
                {
                    let ghost pre = stream.writer.bits();
                    stream.writer.write_bits(blob_value[i] as u32, 8);
                    proof {
                        old(stream).lemma_wf_after_write(stream);
                        let t = blob_value@.take(i as int);
                        let one = seq![blob_value@[i as int]];
                        assert(blob_value@.take(i + 1) =~= t + one);
                        lemma_bytes_bits_append(t, one);
                        assert(one.skip(1) =~= Seq::<u8>::empty());
                        assert(bytes_bits(Seq::<u8>::empty()) =~= Seq::<bool>::empty());
                        assert(bytes_bits(one) =~= bits_of(blob_value@[i as int] as nat, 8));
                        assert(stream.writer.bits() =~= head + bytes_bits(blob_value@.take(i + 1)));
                    }
                    i = i + 1;
                }
                assert(blob_value@.take(i as int) =~= blob_value@);
                stream.align(32);
            },
            OperandValue::Char6(ch) => {
                let mut code: u32 = (*ch) as u32;
                // 'a' - 'z'
                if 0x61 <= code && code <= 0x7a {
                    code = code - 0x61;
                }
                // 'A' - 'Z'
                else if 0x41 <= code && code <= 0x5a {
                    code = code - 0x41 + 26;
                // '0' - '9'
                } else if 0x30 <= code && code <= 0x39 {
                    code = code - 0x30 + 52;
                // '.'
                } else if code == 0x2e {
                    code = 62;
                // '_'
                } else {
                    code = 63;
                }
                stream.writer.write_bits(code, 6);
                proof {
                    old(stream).lemma_wf_after_write(stream);
                }
            },
        }
    }
}

} // verus!
