//! Bit packing over a byte buffer: values of 1 to 32 bits are packed least
//! significant bit first into a 32-bit staging word, and each full word is
//! appended to the buffer in little-endian byte order.
use crate::bits::{
    bits_of, bytes_bits, le_bytes, lemma_bits_len, lemma_bits_mod, lemma_bits_split,
    lemma_bits_stack, lemma_bytes_bits_append, lemma_bytes_bits_len, lemma_le_bytes_bits, lemma_le_bytes_len,
    lemma_u32_full_mask, lemma_u32_low_bits, lemma_u32_mask_is_mod, lemma_u32_or_disjoint,
    lemma_u32_shl_positive, lemma_u32_byte_split, lemma_value_of_bits, value_of,
};
use crate::buf::{put_u16_le, put_u32_le, put_u8};
use vstd::arithmetic::mul::lemma_mul_inequality;
use vstd::arithmetic::power2::{lemma2_to64, lemma_pow2_adds, lemma_pow2_pos, pow2};
use vstd::bits::{lemma_u32_pow2_no_overflow, lemma_u32_shl_is_mul, lemma_u32_shr_is_div, low_bits_mask};
use vstd::prelude::*;

verus! {

#[derive(Debug, Clone)]
pub struct BitStreamWriter {
    /// The bytes written so far.
    pub buffer: Vec<u8>,
    /// The staging word; its low `dword_offset` bits are pending.
    pub dword: u32,
    /// Bits still free in the staging word.
    pub dword_left: u32,
    /// Bits used in the staging word.
    pub dword_offset: u32,
}

/// `next` is what `align(width)` makes of `w`: zero bits pad the staging word
/// until the bits left in it are a multiple of `width`.
pub open spec fn aligned(w: BitStreamWriter, width: u32, next: BitStreamWriter) -> bool {
    let pad = w.dword_left % width;
    &&& next.wf()
    &&& next.bits() == w.bits() + bits_of(0, pad as nat)
    &&& w.buffer@.is_prefix_of(next.buffer@)
    &&& next.dword_offset == (w.dword_offset + pad) % 32
    &&& next.buffer@.len() == w.buffer@.len() + (if w.dword_offset + pad >= 32 {
        4int
    } else {
        0int
    })
}

/// `next` is what `flush` makes of `w`: zero bits pad the stream to a whole
/// byte, and the staging word is emptied into the buffer.
pub open spec fn flushed(w: BitStreamWriter, next: BitStreamWriter) -> bool {
    &&& next.wf()
    &&& next.dword_offset == 0
    &&& next.dword_left == 32
    &&& next.bits() == w.bits() + bits_of(0, (w.dword_left % 8) as nat)
}

/// After `align(32)` and then `flush`, the buffer holds every bit written,
/// and it holds whole 32-bit words if it did before.
pub proof fn lemma_align_flush(
    w: BitStreamWriter,
    after_align: BitStreamWriter,
    after_flush: BitStreamWriter,
)
    requires
        w.wf(),
        aligned(w, 32, after_align),
        flushed(after_align, after_flush),
    ensures
        8 * after_flush.buffer@.len() == after_flush.bit_len(),
        after_flush.bit_len() == after_flush.bits().len(),
        w.buffer@.len() % 4 == 0 ==> after_flush.buffer@.len() % 4 == 0,
{
    w.lemma_bits_len();
    after_align.lemma_bits_len();
    after_flush.lemma_bits_len();
    assert(after_align.dword_offset == 0);
    assert(after_flush.bits() =~= after_align.bits());
}

impl Default for BitStreamWriter {
    fn default() -> (r: Self)
        ensures
            r.wf(),
            r.buffer@ == Seq::<u8>::empty(),
            r.dword_offset == 0,
            r.bits() == Seq::<bool>::empty(),
    {
        Self::new()
    }
}

impl BitStreamWriter {
    /// The staging word holds exactly `dword_offset` bits.
    pub open spec fn wf(&self) -> bool {
        &&& self.dword_offset < 32
        &&& self.dword_left == 32 - self.dword_offset
        &&& (self.dword as nat) < pow2(self.dword_offset as nat)
    }

    /// The number of bits written so far, as `bit_offset` returns it.
    pub open spec fn bit_len(&self) -> nat {
        (8 * self.buffer@.len() + self.dword_offset) as nat
    }

    /// The bits in the staging word that are not yet in the buffer.
    pub open spec fn pending(&self) -> Seq<bool> {
        bits_of(self.dword as nat, self.dword_offset as nat)
    }

    /// Every bit written so far, in order.
    pub open spec fn bits(&self) -> Seq<bool> {
        bytes_bits(self.buffer@) + self.pending()
    }

    pub proof fn lemma_bits_len(&self)
        ensures
            self.bits().len() == 8 * self.buffer@.len() + self.dword_offset,
    {
        lemma_bytes_bits_len(self.buffer@);
        lemma_bits_len(self.dword as nat, self.dword_offset as nat);
    }

    pub fn new() -> (r: Self)
        ensures
            r.wf(),
            r.buffer@ == Seq::<u8>::empty(),
            r.dword_offset == 0,
            r.bits() == Seq::<bool>::empty(),
    {
        proof {
            lemma2_to64();
        }
        let r = Self { buffer: Vec::with_capacity(1024), dword: 0, dword_left: 32, dword_offset: 0 };
        assert(r.bits() =~= Seq::<bool>::empty());
        r
    }

    pub fn write_dword(&mut self, dword: u32)
        requires
            old(self).wf(),
        ensures
            final(self).wf(),
            final(self).bits() == old(self).bits() + bits_of(dword as nat, 32),
            final(self).dword_offset == old(self).dword_offset,
            final(self).buffer@.len() == old(self).buffer@.len() + 4,
            old(self).buffer@.is_prefix_of(final(self).buffer@),
    {
        self.write_bits(dword, 32);
    }

    pub fn write_word(&mut self, word: u16)
        requires
            old(self).wf(),
        ensures
            final(self).wf(),
            final(self).bits() == old(self).bits() + bits_of(word as nat, 16),
            final(self).dword_offset == (old(self).dword_offset + 16) % 32,
    {
        self.write_bits(word as u32, 16);
    }

    pub fn write_byte(&mut self, byte: u8)
        requires
            old(self).wf(),
        ensures
            final(self).wf(),
            final(self).bits() == old(self).bits() + bits_of(byte as nat, 8),
            final(self).dword_offset == (old(self).dword_offset + 8) % 32,
    {
        self.write_bits(byte as u32, 8);
    }

    /// Appends the low `width` bits of `value`, least significant first.
    pub fn write_bits(&mut self, value: u32, width: u32)
        requires
            old(self).wf(),
            width <= 32,
        ensures
            final(self).wf(),
            final(self).bits() == old(self).bits() + bits_of(value as nat, width as nat),
            final(self).dword_offset == (old(self).dword_offset + width) % 32,
            final(self).buffer@.len() == old(self).buffer@.len() + (if old(self).dword_offset + width
                >= 32 {
                4int
            } else {
                0int
            }),
            final(self).bits().len() == old(self).bits().len() + width,
            final(self).bit_len() == old(self).bit_len() + width,
            old(self).buffer@.is_prefix_of(final(self).buffer@),
            value_of(final(self).bits().skip(old(self).bits().len() as int)) == (value & (
            low_bits_mask(width as nat) as u32)),
        decreases width,
    {
        proof {
            lemma_bits_len(value as nat, width as nat);
            lemma_value_of_bits(value as nat, width as nat);
            lemma_u32_low_bits(value, width as nat);
            assert((self.bits() + bits_of(value as nat, width as nat)).skip(
                self.bits().len() as int,
            ) =~= bits_of(value as nat, width as nat));
        }
        if width == 0 {
            assert(self.bits() + bits_of(value as nat, 0) =~= self.bits());
            assert(self.buffer@ =~= self.buffer@.subrange(0, self.buffer@.len() as int));
            return;
        }
        let fits = self.dword_left.min(width);

        let mask: u32 = if fits == 32 {
            0xffffffff
        } else {
            proof {
                lemma_u32_shl_positive(fits);
            }
            (1 << fits) - 1
        };

        if fits < width {
            proof {
                lemma_u32_mask_is_mod(value, fits);
                lemma_u32_shr_is_div(value, fits);
                lemma_bits_mod(value as nat, fits as nat);
                lemma_bits_split(value as nat, fits as nat, (width - fits) as nat);
            }
            self.write_bits(value & mask, fits);
            let ghost mid = self.buffer@;
            self.write_bits(value >> fits, width - fits);
            assert(self.bits() =~= old(self).bits() + bits_of(value as nat, width as nat));
            assert(self.buffer@.subrange(0, old(self).buffer@.len() as int) =~= mid.subrange(
                0,
                old(self).buffer@.len() as int,
            ));
            return;
        }
        let ghost off = self.dword_offset as nat;
        let ghost d = self.dword as nat;
        let ghost buf = self.buffer@;
        let m = value & mask;
        proof {
            if width == 32 {
                lemma_u32_full_mask(value);
                lemma2_to64();
                assert(off == 0);
            } else {
                lemma_u32_mask_is_mod(value, width);
            }
            assert(m as nat == value as nat % pow2(width as nat));
            lemma_pow2_pos(width as nat);
            lemma_pow2_pos(off);
            lemma_pow2_adds(width as nat, off);
            assert(pow2(32) == 0x1_0000_0000) by {
                lemma2_to64();
            }
            if off + width < 32 {
                vstd::arithmetic::power2::lemma_pow2_strictly_increases((off + width) as nat, 32);
            }
            lemma_mul_inequality(m as int, pow2(width as nat) - 1, pow2(off) as int);
            assert((pow2(width as nat) - 1) * pow2(off) == pow2(width as nat) * pow2(off) - pow2(
                off,
            )) by (nonlinear_arith);
            assert(m * pow2(off) <= u32::MAX);
            lemma_u32_shl_is_mul(m, self.dword_offset);
            lemma_u32_pow2_no_overflow(off);
            lemma_u32_shl_is_mul(1, self.dword_offset);
            lemma_u32_or_disjoint(self.dword, m, self.dword_offset);
            lemma_bits_stack(d, m as nat, off, width as nat);
            lemma_bits_mod(value as nat, width as nat);
        }
        self.dword = self.dword | (m << self.dword_offset);
        self.dword_offset = self.dword_offset + width;
        self.dword_left = self.dword_left - width;
        assert(self.pending() == bits_of(d, off) + bits_of(value as nat, width as nat));
        assert(self.bits() =~= old(self).bits() + bits_of(value as nat, width as nat));

        if self.dword_left == 0 {
            proof {
                lemma_le_bytes_bits(self.dword as nat, 4);
                lemma_le_bytes_len(self.dword as nat, 4);
                lemma_bytes_bits_append(buf, le_bytes(self.dword as nat, 4));
                assert(pow2(0) == 1) by {
                    lemma2_to64();
                }
            }
            put_u32_le(&mut self.buffer, self.dword);
            self.dword = 0;
            self.dword_offset = 0;
            self.dword_left = 32;
            assert(self.bits() =~= old(self).bits() + bits_of(value as nat, width as nat));
        }
        assert(old(self).buffer@ =~= self.buffer@.subrange(0, old(self).buffer@.len() as int));
    }

    pub fn bit_offset(&self) -> (r: usize)
        requires
            8 * self.buffer@.len() + self.dword_offset <= usize::MAX,
        ensures
            r == self.bit_len(),
            self.wf() ==> r == self.bits().len(),
    {
        proof {
            self.lemma_bits_len();
        }
        self.buffer.len() * 8 + self.dword_offset as usize
    }

    /// Appends `width` zero bits.
    pub fn pad(&mut self, width: u32)
        requires
            old(self).wf(),
            width <= 32,
        ensures
            final(self).wf(),
            final(self).bits() == old(self).bits() + bits_of(0, width as nat),
            old(self).buffer@.is_prefix_of(final(self).buffer@),
            final(self).dword_offset == (old(self).dword_offset + width) % 32,
            final(self).buffer@.len() == old(self).buffer@.len() + (if old(self).dword_offset + width
                >= 32 {
                4int
            } else {
                0int
            }),
    {
        self.write_bits(0, width);
    }

    /// Pads the staging word with zero bits until the number of bits left in
    /// it is a multiple of `width`.
    pub fn align(&mut self, width: u32)
        requires
            old(self).wf(),
            width > 0,
        ensures
            aligned(*old(self), width, *final(self)),
    {
        proof {
            vstd::arithmetic::div_mod::lemma_mod_decreases(self.dword_left as nat, width as nat);
        }
        self.pad(self.dword_left % width);
    }

    /// Pads to a whole byte and moves the pending bytes of the staging word to
    /// the buffer.
    pub fn flush(&mut self)
        requires
            old(self).wf(),
        ensures
            flushed(*old(self), *final(self)),
    {
        if self.dword_offset == 0 {
            assert(self.bits() + bits_of(0, 0) =~= self.bits());
            return;
        }
        self.align(8);
        let ghost buf = self.buffer@;
        let ghost d = self.dword as nat;
        let ghost off = self.dword_offset as nat;
        proof {
            lemma2_to64();
            lemma_le_bytes_bits(d, off / 8);
        }
        if self.dword_offset == 8 + 16 {
            proof {
                lemma_u32_byte_split(self.dword);
                assert(le_bytes(d, 3) =~= seq![(d % 256) as u8] + le_bytes(d / 256, 2));
            }
            put_u8(&mut self.buffer, (self.dword & 0xff) as u8);
            put_u16_le(&mut self.buffer, (self.dword >> 8) as u16);
            assert(self.buffer@ =~= buf + le_bytes(d, 3));
        } else if self.dword_offset == 16 {
            put_u16_le(&mut self.buffer, self.dword as u16);
        } else if self.dword_offset == 8 {
            proof {
                assert(le_bytes(d / 256, 0) =~= Seq::<u8>::empty());
                assert(le_bytes(d, 1) =~= seq![(d % 256) as u8]);
            }
            put_u8(&mut self.buffer, self.dword as u8);
            assert(self.buffer@ =~= buf + le_bytes(d, 1));
        } else {
            assert(off == 0);
        }
        proof {
            lemma_bytes_bits_append(buf, le_bytes(d, off / 8));
        }
        self.dword = 0;
        self.dword_left = 32;
        self.dword_offset = 0;
        assert(self.bits() =~= old(self).bits() + bits_of(0, (old(self).dword_left % 8) as nat));
    }
}

} // verus!
