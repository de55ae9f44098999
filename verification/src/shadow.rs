//! The in-memory model of the expander's eight output pins.
//!
//! The PCF8574 expander has no read path, so the last value written to its
//! pins is kept in memory as a single "shadow" byte. Each bit has a fixed,
//! wiring-defined meaning:
//!
//! | bit | signal                              |
//! |-----|-------------------------------------|
//! | 0   | RS (register select)                |
//! | 1   | R/W (unused by this driver, always 0) |
//! | 2   | EN (enable strobe)                  |
//! | 3   | backlight                           |
//! | 4-7 | DB4-DB7, the current data nibble    |

use vstd::prelude::*;

verus! {

/// True iff bit `i` of `v` is set. Meaningful for `i < 8`.
pub open spec fn bit_set(v: u8, i: u8) -> bool {
    v & (1u8 << i) != 0
}

/// `v` with bit `i` forced to `b` and every other bit unchanged.
pub open spec fn with_bit(v: u8, i: u8, b: bool) -> u8 {
    if b {
        v | (1u8 << i)
    } else {
        v & !(1u8 << i)
    }
}

/// `v` with bits 4-7 replaced wholesale by the low four bits of `n`
/// shifted up, and bits 0-3 unchanged.
pub open spec fn with_nibble(v: u8, n: u8) -> u8 {
    (v & 0x0Fu8) | (n << 4u8)
}

/// The shadow byte: the sole in-memory record of the expander's pin state.
pub struct Shadow {
    byte: u8,
}

impl View for Shadow {
    type V = u8;

    closed spec fn view(&self) -> u8 {
        self.byte
    }
}

impl Shadow {
    /// A fresh shadow: backlight on, all other pins low.
    pub fn new() -> (s: Shadow)
        ensures
            s@ == 0b0000_1000u8,
    {
        Shadow { byte: 0b0000_1000u8 }
    }

    /// The byte that `apply` would transmit right now.
    pub fn value(&self) -> (v: u8)
        ensures
            v == self@,
    {
        self.byte
    }

    /// Force bit `offset` to `bit`, leaving every other bit unchanged.
    pub fn set_bit(&mut self, offset: u8, bit: bool)
        requires
            offset < 8,
        ensures
            final(self)@ == with_bit(old(self)@, offset, bit),
    {
        if bit {
            self.byte = self.byte | (1u8 << offset);
        } else {
            self.byte = self.byte & !(1u8 << offset);
        }
    }

    /// Replace bits 4-7 wholesale with the low four bits of `nibble`
    /// shifted up; bits 0-3 are preserved.
    pub fn set_nibble(&mut self, nibble: u8)
        requires
            nibble & 0xF0 == 0,
        ensures
            final(self)@ == with_nibble(old(self)@, nibble),
    {
        self.byte = (self.byte & 0x0Fu8) | (nibble << 4u8);
    }
}

/// Law: `with_bit` decides bit `i` alone. Bit `j` of the result is `b` when
/// `j == i`, and bit `j` of the input otherwise — so a single-bit write
/// never disturbs an unrelated bit.
pub proof fn lemma_with_bit_bits(v: u8, i: u8, j: u8, b: bool)
    by (bit_vector)
    requires
        i < 8,
        j < 8,
    ensures
        bit_set(with_bit(v, i, b), j) == (if i == j {
            b
        } else {
            bit_set(v, j)
        }),
{
}

/// Law: `with_nibble` decides bits 4-7 alone. The high four bits of the
/// result are exactly `n`, and every bit below 4 keeps its input value.
pub proof fn lemma_with_nibble_bits(v: u8, n: u8, j: u8)
    by (bit_vector)
    requires
        n & 0xF0 == 0,
        j < 4,
    ensures
        with_nibble(v, n) >> 4u8 == n,
        bit_set(with_nibble(v, n), j) == bit_set(v, j),
{
}

/// Law: per-bit writes are last-write-wins. Writing bit `i` twice leaves
/// only the second write visible.
pub proof fn lemma_with_bit_last_wins(v: u8, i: u8, a: bool, b: bool)
    by (bit_vector)
    requires
        i < 8,
    ensures
        with_bit(with_bit(v, i, a), i, b) == with_bit(v, i, b),
{
}

/// Law: writes to distinct bits are order-independent.
pub proof fn lemma_with_bit_commutes(v: u8, i: u8, a: bool, j: u8, b: bool)
    by (bit_vector)
    requires
        i < 8,
        j < 8,
        i != j,
    ensures
        with_bit(with_bit(v, i, a), j, b) == with_bit(with_bit(v, j, b), i, a),
{
}

/// Law: nibble writes are last-write-wins. Writing the data nibble twice
/// leaves only the second nibble visible.
pub proof fn lemma_with_nibble_last_wins(v: u8, n1: u8, n2: u8)
    by (bit_vector)
    requires
        n1 & 0xF0 == 0,
        n2 & 0xF0 == 0,
    ensures
        with_nibble(with_nibble(v, n1), n2) == with_nibble(v, n2),
{
}

/// Law: a write to one of the control bits 0-3 and a nibble write touch
/// disjoint bit groups, so their order does not matter.
pub proof fn lemma_with_bit_nibble_commute(v: u8, i: u8, b: bool, n: u8)
    by (bit_vector)
    requires
        i < 4,
        n & 0xF0 == 0,
    ensures
        with_nibble(with_bit(v, i, b), n) == with_bit(with_nibble(v, n), i, b),
{
}

/// Law: a write to one of the control bits 0-3 leaves the data nibble in
/// bits 4-7 untouched.
pub proof fn lemma_with_bit_keeps_high(v: u8, i: u8, b: bool)
    by (bit_vector)
    requires
        i < 4,
    ensures
        with_bit(v, i, b) >> 4u8 == v >> 4u8,
{
}

/// One signal-setting call of the batched group: register select, enable,
/// or the data nibble.
pub enum Sig {
    /// Set or clear the register-select bit (bit 0).
    Rs(bool),
    /// Set or clear the enable bit (bit 2).
    En(bool),
    /// Replace the data nibble (bits 4-7); holds the low four bits.
    Nib(u8),
}

/// A `Nib` call carries a value that fits in four bits.
pub open spec fn sig_wf(s: Sig) -> bool {
    match s {
        Sig::Nib(n) => n & 0xF0 == 0,
        _ => true,
    }
}

/// The effect of one signal-setting call on the shadow byte.
pub open spec fn apply_sig(v: u8, s: Sig) -> u8 {
    match s {
        Sig::Rs(b) => with_bit(v, 0, b),
        Sig::En(b) => with_bit(v, 2, b),
        Sig::Nib(n) => with_nibble(v, n),
    }
}

/// The shadow byte after a whole sequence of signal-setting calls, applied
/// left to right, starting from `v`.
pub open spec fn run_sigs(v: u8, ops: Seq<Sig>) -> u8
    decreases ops.len(),
{
    if ops.len() == 0 {
        v
    } else {
        apply_sig(run_sigs(v, ops.drop_last()), ops.last())
    }
}

/// The register-select bit demanded by the most recent `Rs` call in `ops`,
/// or the default `d` if there is none.
pub open spec fn last_rs(ops: Seq<Sig>, d: bool) -> bool
    decreases ops.len(),
{
    if ops.len() == 0 {
        d
    } else {
        match ops.last() {
            Sig::Rs(b) => b,
            _ => last_rs(ops.drop_last(), d),
        }
    }
}

/// The enable bit demanded by the most recent `En` call in `ops`, or the
/// default `d` if there is none.
pub open spec fn last_en(ops: Seq<Sig>, d: bool) -> bool
    decreases ops.len(),
{
    if ops.len() == 0 {
        d
    } else {
        match ops.last() {
            Sig::En(b) => b,
            _ => last_en(ops.drop_last(), d),
        }
    }
}

/// The data nibble presented by the most recent `Nib` call in `ops`, or the
/// default `d` if there is none.
pub open spec fn last_nib(ops: Seq<Sig>, d: u8) -> u8
    decreases ops.len(),
{
    if ops.len() == 0 {
        d
    } else {
        match ops.last() {
            Sig::Nib(n) => n,
            _ => last_nib(ops.drop_last(), d),
        }
    }
}

/// Law: for every sequence of register-select, enable and data-nibble
/// calls, the shadow byte depends only on the most recent write to each bit
/// group — bit 0 holds the last register select, bit 2 the last enable,
/// bits 4-7 the last nibble, and bits 1 and 3 are never touched. Writes are
/// last-write-wins per bit group, independent of call order.
pub proof fn lemma_run_sigs_last_write_wins(v: u8, ops: Seq<Sig>)
    requires
        forall|k: int| 0 <= k < ops.len() ==> sig_wf(#[trigger] ops[k]),
    ensures
        bit_set(run_sigs(v, ops), 0) == last_rs(ops, bit_set(v, 0)),
        bit_set(run_sigs(v, ops), 2) == last_en(ops, bit_set(v, 2)),
        run_sigs(v, ops) >> 4u8 == last_nib(ops, v >> 4u8),
        bit_set(run_sigs(v, ops), 1) == bit_set(v, 1),
        bit_set(run_sigs(v, ops), 3) == bit_set(v, 3),
    decreases ops.len(),
{
    if ops.len() == 0 {
    } else {
        let rest = ops.drop_last();
        let w = run_sigs(v, rest);
        assert(forall|k: int| 0 <= k < rest.len() ==> sig_wf(#[trigger] rest[k]));
        lemma_run_sigs_last_write_wins(v, rest);
        match ops.last() {
            Sig::Rs(b) => {
                lemma_with_bit_bits(w, 0, 0, b);
                lemma_with_bit_bits(w, 0, 1, b);
                lemma_with_bit_bits(w, 0, 2, b);
                lemma_with_bit_bits(w, 0, 3, b);
                lemma_with_bit_keeps_high(w, 0, b);
            },
            Sig::En(b) => {
                lemma_with_bit_bits(w, 2, 0, b);
                lemma_with_bit_bits(w, 2, 1, b);
                lemma_with_bit_bits(w, 2, 2, b);
                lemma_with_bit_bits(w, 2, 3, b);
                lemma_with_bit_keeps_high(w, 2, b);
            },
            Sig::Nib(n) => {
                assert(sig_wf(ops[ops.len() - 1]));
                lemma_with_nibble_bits(w, n, 0);
                lemma_with_nibble_bits(w, n, 1);
                lemma_with_nibble_bits(w, n, 2);
                lemma_with_nibble_bits(w, n, 3);
            },
        }
    }
}

} // verus!

