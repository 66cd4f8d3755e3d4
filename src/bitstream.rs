//! The bitstream: a magic number, then nested blocks whose lengths are patched
//! in when they end, abbreviation definitions, and records.
pub mod abbrv;
pub mod bitstream_writer;
pub mod block;
pub mod operand;

use crate::bits::{
    bits_of, bytes_bits, le_bytes, lemma_bits_len, lemma_bytes_bits_append,
    lemma_bytes_bits_len, lemma_le_bytes_bits, lemma_u32_mask_is_mod,
    lemma_u32_or_disjoint, lemma_u64_join, lemma_u64_halves, lemma_bits_mod_wider,
    lemma_bits_split, lemma_u64_mask_is_mod, lemma_u64_or_disjoint,
    lemma_vbr_round_trip, vbr_bits, vbr_decode,
};
use abbrv::{abbr_def_bits, Abbr, AbbrView};
use operand::{encode_all_onto, value_ok, OperandValue};
use bitstream_writer::BitStreamWriter;
use block::{abbrs_view, distinct_names, Block, ABBR_INDEX_OFF};
use vstd::arithmetic::power2::{lemma2_to64, lemma_pow2_pos, pow2};
use vstd::bits::{lemma_u32_shr_is_div, lemma_u64_shr_is_div};
use vstd::prelude::*;

verus! {

pub const ROOT_ABBR_ID_WIDTH: u32 = 2;
pub const BLOCK_ID_WIDTH: u32 = 8;
pub const NEW_ABBR_ID_WIDTH_WIDTH: u32 = 4;
pub const CODE_WIDTH: u32 = 6;
pub const NUM_OPS_WIDTH: u32 = 6;
pub const OP_WIDTH: u32 = 6;

pub const END_BLOCK: u32 = 0;
pub const ENTER_SUBBLOCK: u32 = 1;
pub const DEFINE_ABBREV: u32 = 2;
pub const UNABBREV_RECORD: u32 = 3;

pub const BLOCKINFO: u32 = 0;
pub const SETBID: u32 = 1;

/// `b` padded with zero bits to a multiple of 32 bits.
pub open spec fn align32(b: Seq<bool>) -> Seq<bool> {
    b + bits_of(0, ((32 - b.len() % 32) % 32) as nat)
}

/// The variable bit rate encodings of the values of `s`, in order.
pub open spec fn vbrs_bits(s: Seq<u32>, w: nat) -> Seq<bool>
    decreases s.len(),
{
    if s.len() == 0 {
        Seq::empty()
    } else {
        vbrs_bits(s.drop_last(), w) + vbr_bits(s.last() as nat, w)
    }
}

/// The stream `b` followed by the header of a block: the abbreviation id
/// ENTER_SUBBLOCK at width `aw`, the block id, the block's abbreviation id
/// width, and zero bits up to a multiple of 32 bits.
pub open spec fn block_header(b: Seq<bool>, aw: nat, id: u32, abbr_id_width: u32) -> Seq<bool> {
    align32(
        b + bits_of(ENTER_SUBBLOCK as nat, aw) + vbr_bits(id as nat, BLOCK_ID_WIDTH as nat)
            + vbr_bits(abbr_id_width as nat, NEW_ABBR_ID_WIDTH_WIDTH as nat),
    )
}

/// The stream `b` followed by END_BLOCK at width `aw` and zero bits up to a
/// multiple of 32 bits.
pub open spec fn block_end(b: Seq<bool>, aw: nat) -> Seq<bool> {
    align32(b + bits_of(END_BLOCK as nat, aw))
}

/// The 32 bits of `b` from byte `at` on replaced by the bits of `n`.
pub open spec fn patch32(b: Seq<bool>, at: nat, n: u32) -> Seq<bool> {
    b.take(8 * at as int) + bits_of(n as nat, 32) + b.skip(8 * at as int + 32)
}

/// An unabbreviated record: UNABBREV_RECORD at width `aw`, the code, the
/// number of values, and the values.
pub open spec fn unabbrev_bits(aw: nat, code: u32, values: Seq<u32>) -> Seq<bool> {
    bits_of(UNABBREV_RECORD as nat, aw) + vbr_bits(code as nat, CODE_WIDTH as nat) + vbr_bits(
        values.len(),
        NUM_OPS_WIDTH as nat,
    ) + vbrs_bits(values, OP_WIDTH as nat)
}

/// All the abbreviations of a list of entries, in order.
pub open spec fn all_abbrs(entries: Seq<(u32, Seq<AbbrView>)>) -> Seq<AbbrView>
    decreases entries.len(),
{
    if entries.len() == 0 {
        Seq::empty()
    } else {
        all_abbrs(entries.drop_last()) + entries.last().1
    }
}

/// Each abbreviation's definition, DEFINE_ABBREV at width `aw` first, in
/// order.
pub open spec fn defines_bits(abbrs: Seq<AbbrView>, aw: nat) -> Seq<bool>
    decreases abbrs.len(),
{
    if abbrs.len() == 0 {
        Seq::empty()
    } else {
        defines_bits(abbrs.drop_last(), aw) + bits_of(DEFINE_ABBREV as nat, aw) + abbr_def_bits(
            abbrs.last(),
        )
    }
}

/// The contents of a BLOCKINFO block: for each entry, a SETBID record with
/// the block id, then the definitions of its abbreviations.
pub open spec fn block_info_bits(entries: Seq<(u32, Seq<AbbrView>)>, aw: nat) -> Seq<bool>
    decreases entries.len(),
{
    if entries.len() == 0 {
        Seq::empty()
    } else {
        block_info_bits(entries.drop_last(), aw) + unabbrev_bits(aw, SETBID, seq![entries.last().0])
            + defines_bits(entries.last().1, aw)
    }
}

/// The stream `b` followed by the header of a BLOCKINFO block entered at
/// abbreviation id width `aw`, with its length field.
pub open spec fn block_info_start(b: Seq<bool>, aw: nat) -> Seq<bool> {
    block_header(b, aw, BLOCKINFO, ROOT_ABBR_ID_WIDTH) + bits_of(0, 32)
}

proof fn lemma_all_abbrs_append(a: Seq<(u32, Seq<AbbrView>)>, b: Seq<(u32, Seq<AbbrView>)>)
    ensures
        all_abbrs(a + b) == all_abbrs(a) + all_abbrs(b),
    decreases b.len(),
{
    if b.len() == 0 {
        assert(a + b =~= a);
        assert(all_abbrs(a) + all_abbrs(b) =~= all_abbrs(a));
    } else {
        lemma_all_abbrs_append(a, b.drop_last());
        assert((a + b).drop_last() =~= a + b.drop_last());
        assert(all_abbrs(a + b) =~= all_abbrs(a) + all_abbrs(b));
    }
}

proof fn lemma_distinct_prefix(a: Seq<AbbrView>, b: Seq<AbbrView>)
    requires
        distinct_names(a + b),
    ensures
        distinct_names(a),
{
    assert forall|i: int, j: int| 0 <= i < j < a.len() implies a[i].0 != a[j].0 by {
        assert((a + b)[i] == a[i]);
        assert((a + b)[j] == a[j]);
    }
}

/// The first abbreviations registered for `id` in a list of entries.
pub open spec fn lookup(s: Seq<(u32, Seq<AbbrView>)>, id: u32) -> Seq<AbbrView>
    decreases s.len(),
{
    if s.len() == 0 {
        Seq::empty()
    } else if s[0].0 == id {
        s[0].1
    } else {
        lookup(s.skip(1), id)
    }
}

/// The abbreviations that every block of an id inherits, by block id, in the
/// order the ids were first inserted.
#[derive(Debug)]
pub struct BlockInfoMap {
    pub entries: Vec<(u32, Vec<Abbr>)>,
}

impl View for BlockInfoMap {
    type V = Seq<(u32, Seq<AbbrView>)>;

    open spec fn view(&self) -> Seq<(u32, Seq<AbbrView>)> {
        self.entries@.map_values(|e: (u32, Vec<Abbr>)| (e.0, abbrs_view(e.1@)))
    }
}

impl BlockInfoMap {
    /// The block ids, in order.
    pub open spec fn ids(&self) -> Seq<u32> {
        self.entries@.map_values(|e: (u32, Vec<Abbr>)| e.0)
    }

    /// Each block id has one entry.
    pub open spec fn wf(&self) -> bool {
        forall|i: int, j: int| 0 <= i < j < self@.len() ==> self@[i].0 != self@[j].0
    }

    /// The abbreviations registered for `id`; none if it has no entry.
    pub open spec fn abbrs_for(&self, id: u32) -> Seq<AbbrView> {
        lookup(self@, id)
    }

    pub fn new() -> (r: Self)
        ensures
            r.wf(),
            r.entries@.len() == 0,
    {
        BlockInfoMap { entries: Vec::new() }
    }

    pub fn is_empty(&self) -> (r: bool)
        ensures
            r == (self.entries@.len() == 0),
    {
        self.entries.len() == 0
    }

    /// Registers `abbrs` for `id`, in place of what it had.
    pub fn insert(&mut self, id: u32, abbrs: Vec<Abbr>)
        requires
            old(self).wf(),
        ensures
            final(self).wf(),
            (exists|i: int|
                0 <= i < old(self).entries@.len() && old(self).entries@[i].0 == id
                    && final(self).entries@ == old(self).entries@.update(i, (id, abbrs))) || (
            !old(self).ids().contains(id) && final(self).entries@ == old(self).entries@.push(
                (id, abbrs),
            )),
    {
        let mut i: usize = 0;
        while i < self.entries.len()
            invariant
                i <= self.entries@.len(),
                old(self).wf(),
                self.entries@ == old(self).entries@,
                forall|j: int| 0 <= j < i ==> self.entries@[j].0 != id,
            decreases self.entries@.len() - i,
        {
            if self.entries[i].0 == id {
                self.entries.set(i, (id, abbrs));
                proof {
                    assert forall|a: int, b: int| 0 <= a < b < self@.len() implies self@[a].0
                        != self@[b].0 by {
                        assert(self@[a].0 == old(self)@[a].0);
                        assert(self@[b].0 == old(self)@[b].0);
                    }
                }
                return;
            }
            i = i + 1;
        }
        proof {
            assert forall|j: int| 0 <= j < old(self).entries@.len() implies old(self).ids()[j]
                != id by {}
        }
        self.entries.push((id, abbrs));
        proof {
            assert forall|a: int, b: int| 0 <= a < b < self@.len() implies self@[a].0
                != self@[b].0 by {
                if b < old(self)@.len() {
                    assert(self@[a].0 == old(self)@[a].0);
                    assert(self@[b].0 == old(self)@[b].0);
                } else {
                    assert(self@[a].0 == old(self).entries@[a].0);
                }
            }
        }
    }

    /// A copy of the abbreviations registered for `id`.
    pub fn get(&self, id: u32) -> (r: Vec<Abbr>)
        ensures
            abbrs_view(r@) == self.abbrs_for(id),
    {
        let mut i: usize = 0;
        assert(self@.skip(0) =~= self@);
        while i < self.entries.len()
            invariant
                i <= self.entries@.len(),
                lookup(self@, id) == lookup(self@.skip(i as int), id),
            decreases self.entries@.len() - i,
        {
            assert(self@.skip(i as int).skip(1) =~= self@.skip(i as int + 1));
            if self.entries[i].0 == id {
                let r = self.entries[i].1.clone();
                proof {
                    let s = self.entries@[i as int].1@;
                    assert forall|k: int| 0 <= k < r@.len() implies r@[k]@ == s[k]@ by {
                        assert(vstd::pervasive::cloned(s[k], r@[k]));
                    }
                    assert(abbrs_view(r@) =~= abbrs_view(s));
                }
                return r;
            }
            i = i + 1;
        }
        proof {
            assert(abbrs_view(Seq::<Abbr>::empty()) =~= Seq::<AbbrView>::empty());
        }
        Vec::new()
    }
}

impl Clone for BlockInfoMap {
    fn clone(&self) -> (r: Self)
        ensures
            r@ == self@,
            r.wf() == self.wf(),
    {
        let mut entries: Vec<(u32, Vec<Abbr>)> = Vec::new();
        let mut i: usize = 0;
        while i < self.entries.len()
            invariant
                i <= self.entries@.len(),
                entries@.len() == i,
                forall|k: int| 0 <= k < i ==> (#[trigger] entries@[k]).0 == self.entries@[k].0,
                forall|k: int|
                    0 <= k < i ==> abbrs_view((#[trigger] entries@[k]).1@) == abbrs_view(
                        self.entries@[k].1@,
                    ),
            decreases self.entries@.len() - i,
        {
            let abbrs = self.entries[i].1.clone();
            proof {
                let s = self.entries@[i as int].1@;
                assert forall|k: int| 0 <= k < abbrs@.len() implies abbrs@[k]@ == s[k]@ by {
                    assert(vstd::pervasive::cloned(s[k], abbrs@[k]));
                }
                assert(abbrs_view(abbrs@) =~= abbrs_view(s));
            }
            entries.push((self.entries[i].0, abbrs));
            i = i + 1;
        }
        let r = BlockInfoMap { entries };
        assert(r@ =~= self@);
        r
    }
}

#[derive(Debug)]
pub struct StackElem {
    pub block: Block,
    /// Offset in bytes of the block's length, written when the block ends.
    pub length_offset: usize,
    /// Offset in bytes of the block's contents, after its header.
    pub offset: usize,
}

impl StackElem {
    /// The block is well formed, its ids fit the bit writer, and its
    /// word-aligned length field and contents lie in a buffer of `len` bytes.
    pub open spec fn wf_within(&self, len: nat) -> bool {
        &&& self.block.wf()
        &&& self.block.abbr_id_width <= 32
        &&& self.offset == self.length_offset + 4
        &&& self.length_offset % 4 == 0
        &&& self.offset <= len
    }
}

pub struct BitStream {
    pub writer: BitStreamWriter,
    /// The open blocks, innermost last.
    pub stack: Vec<StackElem>,
    pub block_info: BlockInfoMap,
}

impl BitStream {
    /// The buffer holds whole 32-bit words, and every open block lies in it.
    pub open spec fn wf(&self) -> bool {
        &&& self.writer.wf()
        &&& self.writer.buffer@.len() % 4 == 0
        &&& self.block_info.wf()
        &&& forall|i: int|
            0 <= i < self.stack@.len() ==> #[trigger] self.stack@[i].wf_within(
                self.writer.buffer@.len() as nat,
            )
    }

    /// The width at which abbreviation ids are written where the stream stands.
    pub open spec fn abbr_width(&self) -> nat {
        if self.stack@.len() == 0 {
            ROOT_ABBR_ID_WIDTH as nat
        } else {
            self.stack@.last().block.abbr_id_width as nat
        }
    }

    /// The innermost open block.
    pub open spec fn top(&self) -> Block {
        self.stack@.last().block
    }

    /// Only the writer changed, and it only appended to its buffer.
    pub open spec fn writes_only(&self, next: &BitStream) -> bool {
        &&& next.stack == self.stack
        &&& next.block_info == self.block_info
        &&& self.writer.buffer@.is_prefix_of(next.writer.buffer@)
    }

    pub proof fn lemma_wf_after_write(&self, next: &BitStream)
        requires
            self.wf(),
            next.writer.wf(),
            next.writer.buffer@.len() % 4 == 0,
            self.writes_only(next),
        ensures
            next.wf(),
    {
        assert forall|i: int| 0 <= i < next.stack@.len() implies #[trigger] next.stack@[i].wf_within(
            next.writer.buffer@.len() as nat,
        ) by {
            assert(self.stack@[i].wf_within(self.writer.buffer@.len() as nat));
        }
    }

    proof fn lemma_abbr_width(&self)
        requires
            self.wf(),
        ensures
            2 <= self.abbr_width() <= 32,
    {
        if self.stack@.len() > 0 {
            assert(self.stack@[self.stack@.len() - 1].wf_within(self.writer.buffer@.len() as nat));
        }
    }

    /// The pending bits are the tail of the stream past its last whole word.
    proof fn lemma_pending(&self)
        requires
            self.wf(),
        ensures
            self.writer.bits().len() % 32 == self.writer.dword_offset,
            self.writer.bits().len() == 8 * self.writer.buffer@.len() + self.writer.dword_offset,
    {
        self.writer.lemma_bits_len();
        let k = self.writer.buffer@.len() / 4;
        assert(8 * self.writer.buffer@.len() == 32 * k);
        vstd::arithmetic::div_mod::lemma_mod_multiples_vanish(
            k as int,
            self.writer.dword_offset as int,
            32,
        );
        vstd::arithmetic::div_mod::lemma_small_mod(self.writer.dword_offset as nat, 32);
    }

    /// Creates a new `BitStream` with the given magic number.
    pub fn new(magic: u32) -> (r: Self)
        ensures
            r.wf(),
            r.stack@.len() == 0,
            r.block_info.entries@.len() == 0,
            r.writer.bits() == bits_of(magic as nat, 32),
    {
        let mut s = Self {
            writer: BitStreamWriter::new(),
            stack: Vec::new(),
            block_info: BlockInfoMap::new(),
        };

        s.writer.write_dword(magic);
        assert(s.writer.bits() =~= bits_of(magic as nat, 32));
        s
    }

    /// Pads the stream with zero bits to a whole byte and hands out its bytes;
    /// `None` while a block is open, as its length was never written.
    pub fn finish(self) -> (r: Option<Vec<u8>>)
        requires
            self.wf(),
        ensures
            r is Some <==> self.stack@.len() == 0,
            r matches Some(bytes) ==> bytes_bits(bytes@) == self.writer.bits() + bits_of(
                0,
                (self.writer.dword_left % 8) as nat,
            ),
    {
        if self.stack.len() != 0 {
            return None;
        }
        let mut writer = self.writer;
        writer.flush();
        assert(writer.pending() =~= Seq::<bool>::empty());
        assert(bytes_bits(writer.buffer@) =~= writer.bits());
        Some(writer.buffer)
    }

    /// Writes `id` at the abbreviation id width of the innermost open block.
    pub fn write_abbr_id(&mut self, id: u32)
        requires
            old(self).wf(),
        ensures
            final(self).wf(),
            old(self).writes_only(&*final(self)),
            final(self).writer.bits() == old(self).writer.bits() + bits_of(
                id as nat,
                old(self).abbr_width(),
            ),
    {
        proof {
            self.lemma_abbr_width();
        }
        let len = self.stack.len();
        let width = if len == 0 {
            ROOT_ABBR_ID_WIDTH
        } else {
            self.stack[len - 1].block.abbr_id_width
        };

        self.writer.write_bits(id, width);
        proof {
            old(self).lemma_wf_after_write(self);
        }
    }

    /// Writes `value` in chunks of `width` bits: each chunk carries the next
    /// `width - 1` bits of the value, and its top bit is set when another
    /// chunk follows.
    pub fn write_vbr(&mut self, value: u32, width: u32)
        requires
            old(self).wf(),
            2 <= width <= 32,
        ensures
            final(self).wf(),
            old(self).writes_only(&*final(self)),
            final(self).writer.bits() == old(self).writer.bits() + vbr_bits(
                value as nat,
                width as nat,
            ),
            vbr_decode(final(self).writer.bits().skip(old(self).writer.bits().len() as int), width as nat)
                == value,
    {
        let ghost start = self.writer.bits();
        let ghost orig = value as nat;
        let value_bits = width - 1;
        proof {
            lemma_u32_mask_is_mod(value, value_bits);
            lemma_pow2_pos(value_bits as nat);
        }
        let mask: u32 = (1 << value_bits) - 1;
        let vbr: u32 = 1 << value_bits;
        let mut value = value;

        while value > mask
            invariant
                self.wf(),
                old(self).wf(),
                old(self).writes_only(&*self),
                2 <= width <= 32,
                value_bits == width - 1,
                vbr == (1u32 << value_bits),
                vbr as nat == pow2(value_bits as nat),
                mask as nat == pow2(value_bits as nat) - 1,
                mask == ((1u32 << value_bits) - 1) as u32,
                self.writer.bits() + vbr_bits(value as nat, width as nat) == start + vbr_bits(
                    orig,
                    width as nat,
                ),
            decreases value,
        {
            let left = value >> value_bits;
            let ghost pre = self.writer.bits();
            proof {
                lemma_u32_mask_is_mod(value, value_bits);
                lemma_u32_shr_is_div(value, value_bits);
                lemma_u32_or_disjoint(value & mask, 1, value_bits);
            }
            self.writer.write_bits(vbr | (value & mask), width);
            proof {
                old(self).lemma_wf_after_write(self);
                assert(self.writer.bits() + vbr_bits(left as nat, width as nat) =~= pre + vbr_bits(
                    value as nat,
                    width as nat,
                ));
            }
            value = left;
        }
        let ghost pre = self.writer.bits();
        self.writer.write_bits(value, width);
        proof {
            old(self).lemma_wf_after_write(self);
            assert(self.writer.bits() =~= pre + vbr_bits(value as nat, width as nat));
            assert(self.writer.bits() =~= start + vbr_bits(orig, width as nat));
            lemma_vbr_round_trip(orig, width as nat, Seq::empty());
            assert(self.writer.bits().skip(start.len() as int) =~= vbr_bits(orig, width as nat)
                + Seq::<bool>::empty());
        }
    }

    /// Writes the low `width` bits of `chunk`, in two writes when they are
    /// more than 32.
    fn write_chunk(&mut self, chunk: u64, width: u32)
        requires
            old(self).wf(),
            width <= 64,
        ensures
            final(self).wf(),
            old(self).writes_only(&*final(self)),
            final(self).writer.bits() == old(self).writer.bits() + bits_of(
                chunk as nat,
                width as nat,
            ),
    {
        proof {
            lemma2_to64();
            lemma_u64_halves(chunk);
            lemma_bits_mod_wider(chunk as nat, 32, if width <= 32 {
                width as nat
            } else {
                32
            });
        }
        if width <= 32 {
            self.writer.write_bits(chunk as u32, width);
            proof {
                old(self).lemma_wf_after_write(self);
            }
        } else {
            self.writer.write_bits(chunk as u32, 32);
            let ghost mid = *self;
            proof {
                old(self).lemma_wf_after_write(self);
            }
            self.writer.write_bits((chunk >> 32) as u32, width - 32);
            proof {
                mid.lemma_wf_after_write(self);
                lemma_bits_split(chunk as nat, 32, (width - 32) as nat);
                assert(self.writer.bits() =~= old(self).writer.bits() + bits_of(
                    chunk as nat,
                    width as nat,
                ));
            }
        }
    }

    /// Writes the 64-bit value `hi:lo` in chunks of `width` bits, as
    /// `write_vbr` does; chunks wider than 32 bits are written in two parts.
    pub fn write_vbr_u64(&mut self, hi: u32, lo: u32, width: u32)
        requires
            old(self).wf(),
            2 <= width <= 64,
        ensures
            final(self).wf(),
            old(self).writes_only(&*final(self)),
            final(self).writer.bits() == old(self).writer.bits() + vbr_bits(
                hi as nat * 0x1_0000_0000 + lo as nat,
                width as nat,
            ),
            vbr_decode(final(self).writer.bits().skip(old(self).writer.bits().len() as int), width as nat)
                == hi as nat * 0x1_0000_0000 + lo as nat,
    {
        if hi == 0 && width <= 32 {
            self.write_vbr(lo, width);
            return;
        }
        let ghost start = self.writer.bits();
        let ghost orig = hi as nat * 0x1_0000_0000 + lo as nat;
        let value_bits: u64 = (width - 1) as u64;
        proof {
            lemma_u64_mask_is_mod(0, value_bits);
            lemma_pow2_pos(value_bits as nat);
            lemma_u64_join(hi, lo);
            lemma2_to64();
        }
        let mask: u64 = (1 << value_bits) - 1;
        let vbr: u64 = 1 << value_bits;
        let mut value: u64 = ((hi as u64) << 32) | (lo as u64);

        while value > mask
            invariant
                self.wf(),
                old(self).wf(),
                old(self).writes_only(&*self),
                2 <= width <= 64,
                value_bits == width - 1,
                vbr == (1u64 << value_bits),
                vbr as nat == pow2(value_bits as nat),
                mask as nat == pow2(value_bits as nat) - 1,
                mask == ((1u64 << value_bits) - 1) as u64,
                self.writer.bits() + vbr_bits(value as nat, width as nat) == start + vbr_bits(
                    orig,
                    width as nat,
                ),
            decreases value,
        {
            let left = value >> value_bits;
            let ghost pre = self.writer.bits();
            proof {
                lemma_u64_mask_is_mod(value, value_bits);
                lemma_u64_shr_is_div(value, value_bits);
                lemma_u64_or_disjoint(value & mask, 1, value_bits);
            }
            self.write_chunk(vbr | (value & mask), width);
            proof {
                assert(self.writer.bits() + vbr_bits(left as nat, width as nat) =~= pre + vbr_bits(
                    value as nat,
                    width as nat,
                ));
            }
            value = left;
        }
        let ghost pre = self.writer.bits();
        self.write_chunk(value, width);
        proof {
            assert(self.writer.bits() =~= pre + vbr_bits(value as nat, width as nat));
            assert(self.writer.bits() =~= start + vbr_bits(orig, width as nat));
            lemma_vbr_round_trip(orig, width as nat, Seq::empty());
            assert(self.writer.bits().skip(start.len() as int) =~= vbr_bits(orig, width as nat)
                + Seq::<bool>::empty());
        }
    }

    /// Pads with zero bits until the bits left in the staging word are a
    /// multiple of `align`; `align(32)` pads the stream to a whole word.
    pub fn align(&mut self, align: u32)
        requires
            old(self).wf(),
            align > 0,
        ensures
            final(self).wf(),
            old(self).writes_only(&*final(self)),
            final(self).writer.bits() == old(self).writer.bits() + bits_of(
                0,
                (old(self).writer.dword_left % align) as nat,
            ),
            align == 32 ==> final(self).writer.bits() == align32(old(self).writer.bits()),
            align == 32 ==> final(self).writer.dword_offset == 0,
    {
        proof {
            self.lemma_pending();
        }
        self.writer.align(align);
        proof {
            old(self).lemma_wf_after_write(self);
        }
    }

    /// Writes a record without an abbreviation: UNABBREV_RECORD, the code,
    /// the number of values, and each value.
    pub fn write_unabrr_record(&mut self, code: u32, values: &[u32])
        requires
            old(self).wf(),
            values@.len() <= u32::MAX,
        ensures
            final(self).wf(),
            old(self).writes_only(&*final(self)),
            final(self).writer.bits() == old(self).writer.bits() + unabbrev_bits(
                old(self).abbr_width(),
                code,
                values@,
            ),
    {
        self.write_abbr_id(UNABBREV_RECORD);
        self.write_vbr(code, CODE_WIDTH);
        self.write_vbr(values.len() as u32, NUM_OPS_WIDTH);
        let ghost head = self.writer.bits();
        let mut i: usize = 0;
        while i < values.len()
            invariant
                self.wf(),
                old(self).writes_only(&*self),
                i <= values@.len(),
                self.writer.bits() == head + vbrs_bits(values@.take(i as int), OP_WIDTH as nat),
            decreases values@.len() - i,
        {
            self.write_vbr(values[i], OP_WIDTH);
            proof {
                assert(values@.take(i + 1).drop_last() =~= values@.take(i as int));
            }
            i = i + 1;
        }
        assert(values@.take(i as int) =~= values@);
    }

    /// Enters a block, should call `end_block` with the same id later.
    pub fn enter_block(&mut self, id: u32, abbr_id_width: u32)
        requires
            old(self).wf(),
            2 <= abbr_id_width <= 32,
            distinct_names(old(self).block_info.abbrs_for(id)),
            old(self).block_info.abbrs_for(id).len() + ABBR_INDEX_OFF <= u32::MAX,
        ensures
            final(self).wf(),
            final(self).block_info == old(self).block_info,
            final(self).stack@.len() == old(self).stack@.len() + 1,
            final(self).stack@.drop_last() == old(self).stack@,
            final(self).top().id == id,
            final(self).top().abbr_id_width == abbr_id_width,
            final(self).top().abbrs() == old(self).block_info.abbrs_for(id),
            final(self).writer.bits() == block_header(
                old(self).writer.bits(),
                old(self).abbr_width(),
                id,
                abbr_id_width,
            ) + bits_of(0, 32),
            8 * final(self).stack@.last().length_offset == block_header(
                old(self).writer.bits(),
                old(self).abbr_width(),
                id,
                abbr_id_width,
            ).len(),
            final(self).stack@.last().offset == final(self).stack@.last().length_offset + 4,
            final(self).writer.buffer@.len() == final(self).stack@.last().offset,
            final(self).writer.dword_offset == 0,
            old(self).writer.buffer@.is_prefix_of(final(self).writer.buffer@),
    {
        self.write_abbr_id(ENTER_SUBBLOCK);
        self.write_vbr(id, BLOCK_ID_WIDTH);
        self.write_vbr(abbr_id_width, NEW_ABBR_ID_WIDTH_WIDTH);
        self.align(32);
        proof {
            self.lemma_pending();
        }
        let length_offset = self.writer.buffer.len();
        self.writer.write_dword(0);
        let offset = self.writer.buffer.len();

        let global_abbrs = self.block_info.get(id);
        let ghost before = self.stack@;
        self.stack.push(
            StackElem { block: Block::new(id, abbr_id_width, global_abbrs), length_offset, offset },
        );
        proof {
            assert(self.stack@.drop_last() =~= before);
            assert forall|i: int| 0 <= i < self.stack@.len() implies #[trigger] self.stack@[i].wf_within(
                self.writer.buffer@.len() as nat,
            ) by {
                if i < before.len() {
                    assert(before[i].wf_within(old(self).writer.buffer@.len() as nat));
                }
            }
            assert(self.writer.bits() =~= block_header(
                old(self).writer.bits(),
                old(self).abbr_width(),
                id,
                abbr_id_width,
            ) + bits_of(0, 32));
        }
    }

    /// Writes the definition of `abbr` and adds it to the innermost open
    /// block, under the next free id.
    pub fn define_abbr(&mut self, abbr: &Abbr)
        requires
            old(self).wf(),
            old(self).stack@.len() > 0,
            !old(self).top().has_abbr(abbr.name@),
            old(self).top().abbr_map@.len() + ABBR_INDEX_OFF <= u32::MAX,
        ensures
            final(self).wf(),
            final(self).block_info == old(self).block_info,
            final(self).stack@.len() == old(self).stack@.len(),
            final(self).stack@.drop_last() == old(self).stack@.drop_last(),
            final(self).top().id == old(self).top().id,
            final(self).top().abbr_id_width == old(self).top().abbr_id_width,
            final(self).top().abbrs() == old(self).top().abbrs().push(abbr@),
            final(self).top().has_abbr(abbr.name@),
            final(self).top().abbr_map@.last().index == old(self).top().abbr_map@.len()
                + ABBR_INDEX_OFF,
            final(self).stack@.last().length_offset == old(self).stack@.last().length_offset,
            final(self).stack@.last().offset == old(self).stack@.last().offset,
            final(self).writer.bits() == old(self).writer.bits() + bits_of(
                DEFINE_ABBREV as nat,
                old(self).abbr_width(),
            ) + abbr_def_bits(abbr@),
            old(self).writer.buffer@.is_prefix_of(final(self).writer.buffer@),
    {
        self.write_abbr_id(DEFINE_ABBREV);
        abbr.write_definition(self);
        let ghost before = self.stack@;
        let mut elem = self.stack.pop().unwrap();
        proof {
            assert(before[before.len() - 1].wf_within(self.writer.buffer@.len() as nat));
        }
        elem.block.add_abbr(abbr.clone());
        self.stack.push(elem);
        proof {
            assert(self.stack@.drop_last() =~= before.drop_last());
            assert(self.top().abbrs() =~= old(self).top().abbrs().push(abbr@));
            assert(self.top().abbrs()[self.top().abbrs().len() - 1].0 == abbr.name@);
            assert forall|i: int| 0 <= i < self.stack@.len() implies #[trigger] self.stack@[i].wf_within(
                self.writer.buffer@.len() as nat,
            ) by {
                if i < self.stack@.len() - 1 {
                    assert(before[i].wf_within(self.writer.buffer@.len() as nat));
                }
            }
            assert(self.writer.bits() =~= old(self).writer.bits() + bits_of(
                DEFINE_ABBREV as nat,
                old(self).abbr_width(),
            ) + abbr_def_bits(abbr@));
        }
    }

    /// Writes a record with the abbreviation named `abbr_name` of the
    /// innermost open block: its id, then the values.
    pub fn write_record(&mut self, abbr_name: &str, operands: &[OperandValue])
        requires
            old(self).wf(),
            old(self).stack@.len() > 0,
            old(self).top().has_abbr(abbr_name@),
            forall|k: int| 0 <= k < operands@.len() ==> value_ok(#[trigger] operands@[k]),
        ensures
            final(self).wf(),
            old(self).writes_only(&*final(self)),
            final(self).writer.bits() == encode_all_onto(
                old(self).writer.bits() + bits_of(
                    (old(self).top().position_of(abbr_name@) + ABBR_INDEX_OFF) as nat,
                    old(self).abbr_width(),
                ),
                operands@,
            ),
    {
        let len = self.stack.len();
        let name = abbr_name.to_owned();
        let ghost b = self.top();
        proof {
            assert(self.stack@[len - 1].wf_within(self.writer.buffer@.len() as nat));
        }
        let n = self.stack[len - 1].block.abbr_map.len();
        let mut i: usize = 0;
        loop
            invariant
                self.stack@.len() == len,
                len > 0,
                b == self.top(),
                n == b.abbr_map@.len(),
                i < n,
                name@ == abbr_name@,
                exists|k: int| i <= k < n && #[trigger] b.abbr_map@[k].abbr.name@ == name@,
            ensures
                i < n,
                b.abbr_map@[i as int].abbr.name@ == name@,
            decreases n - i,
        {
            if self.stack[len - 1].block.abbr_map[i].abbr.name == name {
                break;
            }
            i = i + 1;
        }
        proof {
            let p = b.position_of(abbr_name@);
            assert(0 <= p < n && b.abbr_map@[p].abbr.name@ == abbr_name@);
            assert(b.abbrs()[p].0 == b.abbrs()[i as int].0);
            if p != i as int {
                assert(p < i || i < p);
            }
            assert(p == i as int);
        }
        let index = self.stack[len - 1].block.abbr_map[i].index;
        let abbr = self.stack[len - 1].block.abbr_map[i].abbr.clone();
        self.write_abbr_id(index);
        abbr.write(self, operands);
    }

    /// Installs `map` as the stream's block info and writes it in a BLOCKINFO
    /// block: for each block id, a SETBID record with the id, then the
    /// definitions of its abbreviations. An empty map writes nothing.
    pub fn write_block_info(&mut self, map: &BlockInfoMap)
        requires
            old(self).wf(),
            map.wf(),
            map@.len() == 0 || old(self).block_info@.len() == 0,
            map@.len() > 0 ==> distinct_names(lookup(map@, BLOCKINFO) + all_abbrs(map@)),
            map@.len() > 0 ==> lookup(map@, BLOCKINFO).len() + all_abbrs(map@).len()
                + ABBR_INDEX_OFF <= u32::MAX,
        ensures
            final(self).wf(),
            final(self).stack@ == old(self).stack@,
            map@.len() == 0 ==> *final(self) == *old(self),
            old(self).writer.buffer@.is_prefix_of(final(self).writer.buffer@),
            map@.len() > 0 ==> final(self).block_info@ == map@,
            map@.len() > 0 ==> final(self).writer.bits() == patch32(
                block_end(
                    block_info_start(old(self).writer.bits(), old(self).abbr_width())
                        + block_info_bits(map@, ROOT_ABBR_ID_WIDTH as nat),
                    ROOT_ABBR_ID_WIDTH as nat,
                ),
                (block_info_start(old(self).writer.bits(), old(self).abbr_width()).len() / 8
                    - 4) as nat,
                ((final(self).writer.buffer@.len() - block_info_start(
                    old(self).writer.bits(),
                    old(self).abbr_width(),
                ).len() / 8) / 4) as u32,
            ),
    {
        if map.is_empty() {
            return;
        }
        let ghost w = lookup(map@, BLOCKINFO) + all_abbrs(map@);
        let ghost l0 = lookup(map@, BLOCKINFO);
        self.block_info = map.clone();
        proof {
            lemma_distinct_prefix(l0, all_abbrs(map@));
            assert forall|k: int| 0 <= k < self.stack@.len() implies #[trigger] self.stack@[k].wf_within(
                self.writer.buffer@.len() as nat,
            ) by {
                assert(old(self).stack@[k].wf_within(old(self).writer.buffer@.len() as nat));
            }
        }
        self.enter_block(BLOCKINFO, ROOT_ABBR_ID_WIDTH);
        let ghost h = self.writer.bits();
        let ghost lo = self.stack@.last().length_offset;
        let ghost off = self.stack@.last().offset;
        proof {
            let hdr = block_header(old(self).writer.bits(), old(self).abbr_width(), BLOCKINFO, ROOT_ABBR_ID_WIDTH);
            lemma_bits_len(0, 32);
            assert(h == block_info_start(old(self).writer.bits(), old(self).abbr_width()));
            assert(8 * lo == hdr.len());
            assert(h.len() == hdr.len() + 32);
            assert(h.len() / 8 - 4 == lo);
            assert(h.len() / 8 == off);
            old(self).writer.lemma_bits_len();
            assert(hdr.len() >= old(self).writer.bits().len());
            assert(old(self).writer.buffer@.len() <= lo);
            assert(map@.take(0) =~= Seq::<(u32, Seq<AbbrView>)>::empty());
            assert(l0 + all_abbrs(map@.take(0)) =~= l0);
            assert(h + block_info_bits(map@.take(0), ROOT_ABBR_ID_WIDTH as nat) =~= h);
        }
        let mut i: usize = 0;
        while i < map.entries.len()
            invariant
                self.wf(),
                map.wf(),
                map@.len() > 0,
                w == l0 + all_abbrs(map@),
                distinct_names(w),
                w.len() + ABBR_INDEX_OFF <= u32::MAX,
                self.block_info@ == map@,
                self.stack@.len() == old(self).stack@.len() + 1,
                self.stack@.drop_last() == old(self).stack@,
                self.top().id == BLOCKINFO,
                self.top().abbr_id_width == ROOT_ABBR_ID_WIDTH,
                self.stack@.last().length_offset == lo,
                self.stack@.last().offset == off,
                lo >= old(self).writer.buffer@.len(),
                old(self).writer.buffer@.is_prefix_of(self.writer.buffer@),
                i <= map@.len(),
                self.top().abbrs() == l0 + all_abbrs(map@.take(i as int)),
                self.writer.bits() == h + block_info_bits(
                    map@.take(i as int),
                    ROOT_ABBR_ID_WIDTH as nat,
                ),
            decreases map@.len() - i,
        {
            let id = map.entries[i].0;
            let ids = [id];
            let ghost before = self.writer.bits();
            self.write_unabrr_record(SETBID, &ids);
            let ghost mid = self.writer.bits();
            let ghost e = map@[i as int].1;
            let ghost a_i = all_abbrs(map@.take(i as int));
            proof {
                assert(ids@ =~= seq![id]);
                assert(map@.take(i + 1).drop_last() =~= map@.take(i as int));
                let rest = map@.skip(i + 1);
                assert(map@ =~= map@.take(i + 1) + rest);
                lemma_all_abbrs_append(map@.take(i + 1), rest);
                assert(w =~= l0 + a_i + e + all_abbrs(rest));
                assert(e.take(0) =~= Seq::<AbbrView>::empty());
                assert(l0 + a_i + e.take(0) =~= l0 + a_i);
                assert(mid + defines_bits(e.take(0), ROOT_ABBR_ID_WIDTH as nat) =~= mid);
            }
            let mut j: usize = 0;
            while j < map.entries[i].1.len()
                invariant
                    self.wf(),
                    i < map@.len(),
                    e == map@[i as int].1,
                    e == abbrs_view(map.entries@[i as int].1@),
                    w == l0 + a_i + e + all_abbrs(map@.skip(i + 1)),
                    distinct_names(w),
                    w.len() + ABBR_INDEX_OFF <= u32::MAX,
                    self.block_info@ == map@,
                    self.stack@.len() == old(self).stack@.len() + 1,
                    self.stack@.drop_last() == old(self).stack@,
                    self.top().id == BLOCKINFO,
                    self.top().abbr_id_width == ROOT_ABBR_ID_WIDTH,
                    self.stack@.last().length_offset == lo,
                    self.stack@.last().offset == off,
                    lo >= old(self).writer.buffer@.len(),
                    old(self).writer.buffer@.is_prefix_of(self.writer.buffer@),
                    j <= e.len(),
                    self.top().abbrs() == l0 + a_i + e.take(j as int),
                    self.writer.bits() == mid + defines_bits(
                        e.take(j as int),
                        ROOT_ABBR_ID_WIDTH as nat,
                    ),
                decreases e.len() - j,
            {
                let ghost r = self.top().abbrs();
                proof {
                    let tail = e.skip(j as int) + all_abbrs(map@.skip(i + 1));
                    assert(w =~= r + tail);
                    assert(w[r.len() as int] == e[j as int]);
                    assert(e[j as int] == map.entries@[i as int].1@[j as int]@);
                    assert forall|k: int|
                        0 <= k < self.top().abbr_map@.len() implies #[trigger] self.top().abbr_map@[k].abbr.name@
                        != map.entries@[i as int].1@[j as int].name@ by {
                        assert(r[k] == self.top().abbr_map@[k].abbr@);
                        assert(w[k] == r[k]);
                    }
                }
                self.define_abbr(&map.entries[i].1[j]);
                proof {
                    assert(e.take(j + 1).drop_last() =~= e.take(j as int));
                    assert(l0 + a_i + e.take(j + 1) =~= r.push(e[j as int]));
                }
                j = j + 1;
            }
            proof {
                assert(e.take(j as int) =~= e);
                assert(self.writer.bits() =~= h + block_info_bits(
                    map@.take(i + 1),
                    ROOT_ABBR_ID_WIDTH as nat,
                ));
                assert(all_abbrs(map@.take(i + 1)) =~= a_i + e);
            }
            i = i + 1;
        }
        assert(map@.take(i as int) =~= map@);
        assert(self.abbr_width() == ROOT_ABBR_ID_WIDTH);
        let ghost before_end = self.writer.buffer@;
        self.end_block(BLOCKINFO);
        assert(old(self).writer.buffer@ =~= self.writer.buffer@.subrange(
            0,
            old(self).writer.buffer@.len() as int,
        )) by {
            assert forall|k: int| 0 <= k < old(self).writer.buffer@.len() implies self.writer.buffer@[k]
                == old(self).writer.buffer@[k] by {
                assert(before_end[k] == old(self).writer.buffer@[k]);
            }
        }
    }

    /// Ends the block with the given id.
    pub fn end_block(&mut self, id: u32)
        requires
            old(self).wf(),
            old(self).stack@.len() > 0,
            old(self).top().id == id,
        ensures
            final(self).wf(),
            final(self).block_info == old(self).block_info,
            final(self).stack@ == old(self).stack@.drop_last(),
            final(self).writer.dword_offset == 0,
            8 * final(self).writer.buffer@.len() == block_end(
                old(self).writer.bits(),
                old(self).abbr_width(),
            ).len(),
            final(self).writer.bits() == patch32(
                block_end(old(self).writer.bits(), old(self).abbr_width()),
                old(self).stack@.last().length_offset as nat,
                ((final(self).writer.buffer@.len() - old(self).stack@.last().offset) / 4) as u32,
            ),
            final(self).writer.buffer@.subrange(
                old(self).stack@.last().length_offset as int,
                old(self).stack@.last().length_offset + 4,
            ) == le_bytes(
                ((final(self).writer.buffer@.len() - old(self).stack@.last().offset) / 4) as u32 as nat,
                4,
            ),
            final(self).writer.buffer@.len() >= old(self).writer.buffer@.len(),
            (final(self).writer.buffer@.len() - old(self).stack@.last().offset) % 4 == 0,
            forall|k: int|
                0 <= k < old(self).writer.buffer@.len() && !(old(self).stack@.last().length_offset
                    <= k < old(self).stack@.last().length_offset + 4)
                    ==> #[trigger] final(self).writer.buffer@[k] == old(self).writer.buffer@[k],
    {
        proof {
            assert(self.stack@[self.stack@.len() - 1].wf_within(self.writer.buffer@.len() as nat));
        }
        self.write_abbr_id(END_BLOCK);
        self.align(32);
        proof {
            self.lemma_pending();
        }
        let ghost a = self.writer.bits();
        let ghost buf = self.writer.buffer@;
        let ghost before = self.stack@;
        let elem = self.stack.pop().unwrap();
        let lo = elem.length_offset;
        let computed_len: u32 = ((self.writer.buffer.len() - elem.offset) / 4) as u32;
        self.writer.buffer.set(lo, (computed_len % 256) as u8);
        self.writer.buffer.set(lo + 1, ((computed_len / 256) % 256) as u8);
        self.writer.buffer.set(lo + 2, ((computed_len / 256 / 256) % 256) as u8);
        self.writer.buffer.set(lo + 3, ((computed_len / 256 / 256 / 256) % 256) as u8);
        proof {
            let n = computed_len as nat;
            let le = le_bytes(n, 4);
            reveal_with_fuel(le_bytes, 5);
            assert(le_bytes(n / 256 / 256 / 256 / 256, 0) =~= Seq::<u8>::empty());
            assert(le =~= seq![
                (n % 256) as u8,
                ((n / 256) % 256) as u8,
                ((n / 256 / 256) % 256) as u8,
                ((n / 256 / 256 / 256) % 256) as u8,
            ]);
            let nb = self.writer.buffer@;
            assert(nb =~= buf.take(lo as int) + le + buf.skip(lo + 4));
            assert(buf =~= buf.take(lo as int) + buf.subrange(lo as int, lo + 4) + buf.skip(lo + 4));
            lemma_bytes_bits_append(buf.take(lo as int), le);
            lemma_bytes_bits_append(buf.take(lo as int) + le, buf.skip(lo + 4));
            lemma_bytes_bits_append(buf.take(lo as int), buf.subrange(lo as int, lo + 4));
            lemma_bytes_bits_append(
                buf.take(lo as int) + buf.subrange(lo as int, lo + 4),
                buf.skip(lo + 4),
            );
            lemma_bytes_bits_len(buf.take(lo as int));
            lemma_bytes_bits_len(buf.subrange(lo as int, lo + 4));
            lemma_le_bytes_bits(n, 4);
            lemma_bits_len(self.writer.dword as nat, 0);
            assert(self.writer.pending() =~= Seq::<bool>::empty());
            assert(a =~= bytes_bits(buf));
            assert(a.take(8 * lo as int) =~= bytes_bits(buf.take(lo as int)));
            assert(a.skip(8 * lo as int + 32) =~= bytes_bits(buf.skip(lo + 4)));
            assert(self.writer.bits() =~= patch32(a, lo as nat, computed_len));
            assert(self.stack@ =~= before.drop_last());
            assert forall|i: int| 0 <= i < self.stack@.len() implies #[trigger] self.stack@[i].wf_within(
                self.writer.buffer@.len() as nat,
            ) by {
                assert(before[i].wf_within(buf.len() as nat));
            }
            assert(self.writer.buffer@.subrange(lo as int, lo + 4) =~= le);
        }
    }
}

} // verus!
