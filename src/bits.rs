//! Bit-field helpers shared by the instruction decoder.

use vstd::arithmetic::div_mod::lemma_mod_multiples_vanish;
use vstd::arithmetic::power2::{lemma2_to64, lemma_pow2_adds, lemma_pow2_pos, lemma_pow2_strictly_increases, lemma_pow2_unfold, pow2};
use vstd::prelude::*;

verus! {

/// The two's-complement value of the low `n` bits of `v`: bit `n - 1` is
/// the sign bit and is taken to stand in every higher position.
pub open spec fn sign_extended(v: int, n: nat) -> int {
    let f = v % (pow2(n) as int);
    if f >= pow2((n - 1) as nat) as int {
        f - pow2(n) as int
    } else {
        f
    }
}

/// Whether bit 5 of an instruction (the immediate-mode bit of ADD and AND) is set.
pub open spec fn immediate_mode(instruction: i16) -> bool {
    ((instruction as u16) / 32) % 2 == 1
}

/// Mode switch of the ADD and AND instructions: true for an immediate operand.
pub fn mux(instruction: i16) -> (r: bool)
    ensures
        r == immediate_mode(instruction),
{
    ((instruction as u16) / 32) % 2 == 1
}

/// Two's-complement sign extension of the `length`-bit field held in the low
/// bits of `value` to a full 16-bit value.
pub fn sign_extend(value: i16, length: usize) -> (r: i16)
    requires
        1 <= length <= 16,
    ensures
        r as int == sign_extended(value as int, length as nat),
{
    let mut full: i32 = 1;
    let mut k: usize = 0;
    proof {
        lemma2_to64();
    }
    while k < length
        invariant
            0 <= k <= length <= 16,
            full as int == pow2(k as nat),
        decreases length - k,
    {
        proof {
            lemma_pow2_unfold((k + 1) as nat);
            if k + 1 < 16 {
                lemma_pow2_strictly_increases((k + 1) as nat, 16);
            }
            lemma2_to64();
        }
        full = full * 2;
        k = k + 1;
    }
    let ghost n = length as nat;
    proof {
        lemma_pow2_pos(n);
        lemma_pow2_unfold(n);
        lemma_pow2_adds(n, (16 - n) as nat);
        lemma2_to64();
        lemma_mod_multiples_vanish(pow2((16 - n) as nat) as int, value as int, pow2(n) as int);
    }
    let field: i32 = (value as i32 + 65536) % full;
    let half: i32 = full / 2;
    if field >= half {
        (field - full) as i16
    } else {
        field as i16
    }
}

} // verus!
