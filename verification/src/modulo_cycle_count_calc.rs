//! Cycle-exact model of the target processor's remainder routine.
//!
//! The routine is a restoring shift-subtract division. It first scales the
//! divisor up, a nibble at a time and then a bit at a time, until it reaches the
//! dividend or a fixed boundary; a unit register follows the same scaling. It
//! then walks back down in rounds of four quotient bits, and in each round
//! tries to subtract the divisor, its half, its quarter and its eighth. Every
//! branch costs a fixed number of cycles. The functions below say how many
//! cycles a call costs; the remainder itself is not computed.
//!
//! The specification works on mathematical integers: scaling is
//! multiplication, halving is division. The executable code works on 32-bit
//! registers with the shifts and rotations of the routine itself.

use vstd::prelude::*;

verus! {

// ---------------------------------------------------------------------------
// Alignment
// ---------------------------------------------------------------------------

/// The boundary that stops the alignment: 2^28 for the nibble steps, 2^31 for
/// the single-bit steps (`fine`).
pub open spec fn align_limit(fine: bool) -> int {
    if fine {
        0x8000_0000
    } else {
        0x1000_0000
    }
}

/// One alignment step applied to a register: times 16, or times 2 if `fine`.
pub open spec fn align_once(x: int, fine: bool) -> int {
    if fine {
        x * 2
    } else {
        x * 16
    }
}

/// Whether the alignment takes another step with the divisor at `div`.
pub open spec fn align_continues(rem: int, div: int, fine: bool) -> bool {
    0 < div && div < align_limit(fine) && div < rem
}

/// The divisor after alignment against the dividend `rem`.
pub open spec fn aligned_div(rem: int, div: int, fine: bool) -> int
    decreases
        (if div < align_limit(fine) {
            align_limit(fine) - div
        } else {
            0
        }),
{
    if align_continues(rem, div, fine) {
        aligned_div(rem, align_once(div, fine), fine)
    } else {
        div
    }
}

/// The unit register after the alignment of `div` against `rem`.
pub open spec fn aligned_unit(rem: int, div: int, unit: int, fine: bool) -> int
    decreases
        (if div < align_limit(fine) {
            align_limit(fine) - div
        } else {
            0
        }),
{
    if align_continues(rem, div, fine) {
        aligned_unit(rem, align_once(div, fine), align_once(unit, fine), fine)
    } else {
        unit
    }
}

/// Cycles spent aligning: 20 for each step, then 10 if the boundary stopped the
/// alignment and 14 if the dividend did.
pub open spec fn align_cycles(rem: int, div: int, fine: bool) -> int
    decreases
        (if div < align_limit(fine) {
            align_limit(fine) - div
        } else {
            0
        }),
{
    if align_continues(rem, div, fine) {
        20 + align_cycles(rem, align_once(div, fine), fine)
    } else if div >= align_limit(fine) {
        10
    } else {
        14
    }
}

// ---------------------------------------------------------------------------
// Subtraction rounds
// ---------------------------------------------------------------------------

/// `rem` after the trial subtraction of `part`.
pub open spec fn take(rem: int, part: int) -> int {
    if rem >= part {
        rem - part
    } else {
        rem
    }
}

/// The remainder after the round has tried the whole divisor.
pub open spec fn after_whole(rem: int, div: int) -> int {
    take(rem, div)
}

/// The remainder after the round has also tried half the divisor.
pub open spec fn after_half(rem: int, div: int) -> int {
    take(after_whole(rem, div), div / 2)
}

/// The remainder after the round has also tried a quarter of the divisor.
pub open spec fn after_quarter(rem: int, div: int) -> int {
    take(after_half(rem, div), div / 4)
}

/// The remainder at the end of a round.
pub open spec fn after_eighth(rem: int, div: int) -> int {
    take(after_quarter(rem, div), div / 8)
}

/// Whether the round subtracts half the divisor.
pub open spec fn takes_half(rem: int, div: int) -> bool {
    after_whole(rem, div) >= div / 2
}

/// Whether the round subtracts a quarter of the divisor.
pub open spec fn takes_quarter(rem: int, div: int) -> bool {
    after_half(rem, div) >= div / 4
}

/// Whether the round subtracts an eighth of the divisor.
pub open spec fn takes_eighth(rem: int, div: int) -> bool {
    after_quarter(rem, div) >= div / 8
}

/// Cycles of the four trial subtractions of one round.
pub open spec fn round_cycles(rem: int, div: int) -> int {
    48 - (if rem >= div {
        4int
    } else {
        0
    }) + (if takes_half(rem, div) {
        7int
    } else {
        0
    }) + (if takes_quarter(rem, div) {
        7int
    } else {
        0
    }) + (if takes_eighth(rem, div) {
        7int
    } else {
        0
    })
}

/// Whether the rounds end with the round that starts from these registers:
/// the remainder is used up, or the unit cannot move four bits further down.
pub open spec fn is_last_round(rem: int, div: int, unit: int) -> bool {
    after_eighth(rem, div) == 0 || unit < 16
}

/// Cycles of all rounds: each round's subtractions, 20 to move on to the next
/// round, and at the end 12 if the remainder was used up, else 16.
pub open spec fn rounds_cycles(rem: int, div: int, unit: int) -> int
    decreases unit,
{
    round_cycles(rem, div) + if after_eighth(rem, div) == 0 {
        12
    } else if unit < 16 {
        16
    } else {
        20 + rounds_cycles(after_eighth(rem, div), div / 16, unit / 16)
    }
}

/// In the last round, a subtraction of the divisor scaled down by `2^k` marks
/// one of the three top bits of the overshoot register exactly if the unit
/// lies below `2^k` or at or above `2^(29 + k)`. This function counts the
/// subtractions of the round that started from these registers and left
/// such a mark.
pub open spec fn overshoots(rem: int, div: int, unit: int) -> int {
    (if takes_half(rem, div) && (unit < 2 || unit >= 0x4000_0000) {
        1int
    } else {
        0
    }) + (if takes_quarter(rem, div) && (unit < 4 || unit >= 0x8000_0000) {
        1int
    } else {
        0
    }) + (if takes_eighth(rem, div) && unit < 8 {
        1int
    } else {
        0
    })
}

/// The number of marked subtractions of the last round.
pub open spec fn final_overshoots(rem: int, div: int, unit: int) -> int
    decreases unit,
{
    if is_last_round(rem, div, unit) {
        overshoots(rem, div, unit)
    } else {
        final_overshoots(after_eighth(rem, div), div / 16, unit / 16)
    }
}

// ---------------------------------------------------------------------------
// The two routines
// ---------------------------------------------------------------------------

/// Cycles of the two alignments and the rounds for a dividend
/// `rem >= div > 0`, with `between` cycles spent between the alignments.
pub open spec fn core_cycles(rem: int, div: int, between: int) -> int {
    let d4 = aligned_div(rem, div, false);
    let u4 = aligned_unit(rem, div, 1, false);
    let d1 = aligned_div(rem, d4, true);
    let u1 = aligned_unit(rem, d4, u4, true);
    align_cycles(rem, div, false) + between + align_cycles(rem, d4, true) + rounds_cycles(
        rem,
        d1,
        u1,
    )
}

/// The number of marked subtractions that the routine ends with.
pub open spec fn core_overshoots(rem: int, div: int) -> int {
    let d4 = aligned_div(rem, div, false);
    let u4 = aligned_unit(rem, div, 1, false);
    let d1 = aligned_div(rem, d4, true);
    let u1 = aligned_unit(rem, d4, u4, true);
    final_overshoots(rem, d1, u1)
}

/// Cycles of the unsigned routine for `dividend % divisor`. A zero divisor
/// costs nothing; a dividend below the divisor takes the short way out.
#[verifier::opaque]
pub open spec fn modulo_cycles_u(dividend: u32, divisor: u32) -> int {
    if divisor == 0 {
        0
    } else if dividend < divisor {
        18
    } else {
        let marks = core_overshoots(dividend as int, divisor as int);
        24 + core_cycles(dividend as int, divisor as int, 0) + if marks == 0 {
            18
        } else {
            75 - 2 * marks
        }
    }
}

/// The magnitude of a signed operand as the routine's registers hold it.
pub open spec fn magnitude(x: i32) -> int {
    if x < 0 {
        -(x as int)
    } else {
        x as int
    }
}

/// Cycles of the signed routine for `dividend % divisor`. It works on the
/// magnitudes of its operands; their signs only add fixed costs. A zero
/// divisor costs nothing.
#[verifier::opaque]
pub open spec fn modulo_cycles_s(dividend: i32, divisor: i32) -> int {
    let rem = magnitude(dividend);
    let div = magnitude(divisor);
    let entry = 20 + (if divisor > 0 {
        4int
    } else {
        0
    }) + (if dividend > 0 {
        4int
    } else {
        0
    });
    if divisor == 0 {
        0
    } else if rem < div {
        entry + if dividend > 0 {
            32int
        } else {
            28
        }
    } else {
        let marks = core_overshoots(rem, div);
        entry + 8 + core_cycles(rem, div, 2) + (if marks == 0 {
            32int
        } else {
            77 - 2 * marks
        }) + if dividend >= 0 {
            4int
        } else {
            0
        }
    }
}

/// The bit pattern of a signed value read as an unsigned one.
pub open spec fn reinterpret(x: i32) -> u32 {
    if x < 0 {
        (x as int + 0x1_0000_0000) as u32
    } else {
        x as u32
    }
}

// ---------------------------------------------------------------------------
// Registers and bits
// ---------------------------------------------------------------------------

/// The unit register holds a single bit.
pub open spec fn is_unit(x: u32) -> bool {
    exists|s: u32| s < 32 && x == 1u32 << s
}

/// A 32-bit register rotated right by `k` bits.
pub open spec fn ror(x: u32, k: u32) -> u32 {
    (x << ((32 - k) as u32)) | (x >> k)
}

/// The overshoot register after a subtraction that was taken (`t`) or not.
pub open spec fn mark(t: bool, bits: u32, rot: u32) -> u32 {
    if t {
        bits | rot
    } else {
        bits
    }
}

/// The number of marks that three subtractions leave, given which of them
/// were taken and where the unit stands.
pub open spec fn marked(t1: bool, t2: bool, t3: bool, unit: int) -> int {
    (if t1 && (unit < 2 || unit >= 0x4000_0000) {
        1int
    } else {
        0
    }) + (if t2 && (unit < 4 || unit >= 0x8000_0000) {
        1int
    } else {
        0
    }) + (if t3 && unit < 8 {
        1int
    } else {
        0
    })
}

proof fn lemma_shl(x: u32)
    by (bit_vector)
    ensures
        x < 0x1000_0000 ==> x << 4 == x * 16,
        x < 0x8000_0000 ==> x << 1 == x * 2,
{
}

proof fn lemma_shr(x: u32)
    by (bit_vector)
    ensures
        x >> 1 == x / 2,
        x >> 2 == x / 4,
        x >> 3 == x / 8,
        x >> 4 == x / 16,
{
}

proof fn lemma_unit_shift(s: u32)
    by (bit_vector)
    requires
        s < 32,
    ensures
        1u32 << s != 0,
        (1u32 << s) < 0x1000_0000 ==> s < 28 && (1u32 << s) << 4 == 1u32 << ((s + 4) as u32),
        (1u32 << s) < 0x8000_0000 ==> s < 31 && (1u32 << s) << 1 == 1u32 << ((s + 1) as u32),
        (1u32 << s) >> 4 != 0 ==> s >= 4 && (1u32 << s) >> 4 == 1u32 << ((s - 4) as u32),
{
}

proof fn lemma_marks(s: u32, t1: bool, t2: bool, t3: bool)
    by (bit_vector)
    requires
        s < 32,
    ensures
        ({
            let u = 1u32 << s;
            let r1 = (u << 31) | (u >> 1);
            let r2 = (u << 30) | (u >> 2);
            let r3 = (u << 29) | (u >> 3);
            let bits = (if t3 {
                (if t2 {
                    (if t1 {
                        0u32 | r1
                    } else {
                        0u32
                    }) | r2
                } else {
                    (if t1 {
                        0u32 | r1
                    } else {
                        0u32
                    })
                }) | r3
            } else {
                (if t2 {
                    (if t1 {
                        0u32 | r1
                    } else {
                        0u32
                    }) | r2
                } else {
                    (if t1 {
                        0u32 | r1
                    } else {
                        0u32
                    })
                })
            }) & 0xE000_0000u32;
            &&& (bits & r1 != 0) == (t1 && (u < 2 || u >= 0x4000_0000))
            &&& (bits & r2 != 0) == (t2 && (u < 4 || u >= 0x8000_0000))
            &&& (bits & r3 != 0) == (t3 && u < 8)
            &&& (bits == 0) == !((t1 && (u < 2 || u >= 0x4000_0000)) || (t2 && (u < 4 || u
                >= 0x8000_0000)) || (t3 && u < 8))
        }),
{
}

// ---------------------------------------------------------------------------
// Bounds
// ---------------------------------------------------------------------------

/// The alignment costs at least its way out, and at most seven steps more.
/// For the single-bit alignment this holds when it starts where the nibble
/// alignment stopped.
pub proof fn lemma_align_bounds(rem: int, div: int, fine: bool)
    requires
        0 < div,
        fine ==> div >= 0x1000_0000 || div >= rem,
    ensures
        10 <= align_cycles(rem, div, fine) <= 154,
        fine ==> align_cycles(rem, div, fine) <= 74,
{
    if fine {
        let d1 = div * 2;
        let d2 = d1 * 2;
        let d3 = d2 * 2;
        assert(10 <= align_cycles(rem, d3, fine) <= 14 || div < 0x1000_0000);
        assert(10 <= align_cycles(rem, d2, fine) <= 34 || div < 0x1000_0000);
        assert(10 <= align_cycles(rem, d1, fine) <= 54 || div < 0x1000_0000);
    } else {
        let d1 = div * 16;
        let d2 = d1 * 16;
        let d3 = d2 * 16;
        let d4 = d3 * 16;
        let d5 = d4 * 16;
        let d6 = d5 * 16;
        let d7 = d6 * 16;
        assert(10 <= align_cycles(rem, d7, fine) <= 14);
        assert(10 <= align_cycles(rem, d6, fine) <= 34);
        assert(10 <= align_cycles(rem, d5, fine) <= 54);
        assert(10 <= align_cycles(rem, d4, fine) <= 74);
        assert(10 <= align_cycles(rem, d3, fine) <= 94);
        assert(10 <= align_cycles(rem, d2, fine) <= 114);
        assert(10 <= align_cycles(rem, d1, fine) <= 134);
    }
}

/// The largest cost of the rounds that start with the unit at `unit`.
pub open spec fn rounds_bound(unit: int) -> int
    decreases unit,
{
    if unit < 16 {
        85
    } else {
        89 + rounds_bound(unit / 16)
    }
}

proof fn lemma_rounds_bound_min(unit: int)
    ensures
        rounds_bound(unit) >= 85,
    decreases unit,
{
    if unit >= 16 {
        lemma_rounds_bound_min(unit / 16);
    }
}

/// The rounds cost at least one round that uses the remainder up, and at
/// most `rounds_bound`.
pub proof fn lemma_rounds_bounds(rem: int, div: int, unit: int)
    ensures
        56 <= rounds_cycles(rem, div, unit) <= rounds_bound(unit),
    decreases unit,
{
    lemma_rounds_bound_min(unit / 16);
    if after_eighth(rem, div) != 0 && unit >= 16 {
        lemma_rounds_bounds(after_eighth(rem, div), div / 16, unit / 16);
    }
}

/// Sixteen to the power `k`.
pub open spec fn pow16(k: nat) -> int
    decreases k,
{
    if k == 0 {
        1
    } else {
        16 * pow16((k - 1) as nat)
    }
}

/// With the unit below `16^k`, the rounds number at most `k`.
pub proof fn lemma_rounds_bound_by_digits(unit: int, k: nat)
    requires
        unit < pow16(k),
        k >= 1,
    ensures
        rounds_bound(unit) <= 89 * k - 4,
    decreases k,
{
    if unit >= 16 {
        lemma_rounds_bound_by_digits(unit / 16, (k - 1) as nat);
    }
}

/// `16^8` is `2^32`.
pub proof fn lemma_pow16_eight()
    ensures
        pow16(7) == 0x1000_0000,
        pow16(8) == 0x1_0000_0000,
{
    reveal_with_fuel(pow16, 10);
}

// ---------------------------------------------------------------------------
// Executable routines
// ---------------------------------------------------------------------------

/// No call of either routine takes more cycles than this.
pub const MAX_MODULO_CYCLES: usize = 1055;

/// Scales the divisor and the unit up until the divisor reaches the boundary
/// or the dividend. Returns the two registers and the cycles spent.
fn align(rem: u32, div: u32, unit: u32, fine: bool) -> (r: (u32, u32, usize))
    requires
        0 < div,
        unit <= div,
        is_unit(unit),
        fine ==> div >= 0x1000_0000 || div >= rem,
    ensures
        r.0 == aligned_div(rem as int, div as int, fine),
        r.1 == aligned_unit(rem as int, div as int, unit as int, fine),
        r.2 == align_cycles(rem as int, div as int, fine),
        0 < r.0,
        r.1 <= r.0,
        is_unit(r.1),
        r.0 >= align_limit(fine) || r.0 >= rem,
{
    let limit: u32 = if fine {
        0x8000_0000
    } else {
        0x1000_0000
    };
    let mut r1: u32 = div;
    let mut r3: u32 = unit;
    let mut cycles: usize = 0;
    proof {
        lemma_align_bounds(rem as int, div as int, fine);
    }
    loop
        invariant_except_break
            cycles + align_cycles(rem as int, r1 as int, fine) == align_cycles(
                rem as int,
                div as int,
                fine,
            ),
        invariant
            limit == align_limit(fine),
            0 < r1,
            r3 <= r1,
            is_unit(r3),
            fine ==> r1 >= 0x1000_0000 || r1 >= rem,
            aligned_div(rem as int, r1 as int, fine) == aligned_div(rem as int, div as int, fine),
            aligned_unit(rem as int, r1 as int, r3 as int, fine) == aligned_unit(
                rem as int,
                div as int,
                unit as int,
                fine,
            ),
            align_cycles(rem as int, div as int, fine) <= 154,
        ensures
            cycles == align_cycles(rem as int, div as int, fine),
            r1 == aligned_div(rem as int, div as int, fine),
            r3 == aligned_unit(rem as int, div as int, unit as int, fine),
            r1 >= align_limit(fine) || r1 >= rem,
        decreases
            (if r1 < limit {
                limit - r1
            } else {
                0
            }),
    {
        proof {
            lemma_align_bounds(rem as int, r1 as int, fine);
        }
        if r1 >= limit {
            cycles += 10;
            break ;
        }
        if r1 >= rem {
            cycles += 14;
            break ;
        }
        proof {
            lemma_shl(r1);
            lemma_shl(r3);
            let s = choose|s: u32| s < 32 && r3 == 1u32 << s;
            lemma_unit_shift(s);
        }
        if fine {
            r1 = r1 << 1;
            r3 = r3 << 1;
        } else {
            r1 = r1 << 4;
            r3 = r3 << 4;
        }
        cycles += 20;
    }
    (r1, r3, cycles)
}

/// Runs the subtraction rounds on the aligned registers. Returns the cycles
/// spent and the number of marked subtractions of the last round.
fn subtract_rounds(rem: u32, div: u32, unit: u32) -> (r: (usize, usize))
    requires
        is_unit(unit),
    ensures
        r.0 == rounds_cycles(rem as int, div as int, unit as int),
        r.1 == final_overshoots(rem as int, div as int, unit as int),
        r.0 <= 708,
        r.1 <= 3,
{
    let mut r0: u32 = rem;
    let mut r1: u32 = div;
    let mut r3: u32 = unit;
    let mut r2: u32 = 0;
    let mut r12: u32 = unit;
    let mut cycles: usize = 0;
    let ghost total = rounds_cycles(rem as int, div as int, unit as int);
    let ghost marks = final_overshoots(rem as int, div as int, unit as int);
    let ghost mut t1 = false;
    let ghost mut t2 = false;
    let ghost mut t3 = false;
    proof {
        lemma_rounds_bounds(rem as int, div as int, unit as int);
        lemma_pow16_eight();
        lemma_rounds_bound_by_digits(unit as int, 8);
    }
    loop
        invariant_except_break
            is_unit(r3),
            cycles + rounds_cycles(r0 as int, r1 as int, r3 as int) == total,
            final_overshoots(r0 as int, r1 as int, r3 as int) == marks,
        invariant
            total <= 708,
        ensures
            cycles == total,
            is_unit(r12),
            r2 == mark(t3, mark(t2, mark(t1, 0, ror(r12, 1)), ror(r12, 2)), ror(r12, 3)),
            marked(t1, t2, t3, r12 as int) == marks,
        decreases r3,
    {
        proof {
            lemma_rounds_bounds(r0 as int, r1 as int, r3 as int);
            lemma_shr(r1);
            lemma_shr(r3);
        }
        r2 = 0;
        cycles += 48;
        if r0 >= r1 {
            r0 -= r1;
            cycles -= 4;
        }
        let mut r4: u32 = r1 >> 1;
        proof {
            t1 = r0 >= r4;
        }
        if r0 >= r4 {
            r0 -= r4;
            r2 = r2 | ((r3 << 31) | (r3 >> 1));
            cycles += 7;
        }
        r4 = r1 >> 2;
        proof {
            t2 = r0 >= r4;
        }
        if r0 >= r4 {
            r0 -= r4;
            r2 = r2 | ((r3 << 30) | (r3 >> 2));
            cycles += 7;
        }
        r4 = r1 >> 3;
        proof {
            t3 = r0 >= r4;
        }
        if r0 >= r4 {
            r0 -= r4;
            r2 = r2 | ((r3 << 29) | (r3 >> 3));
            cycles += 7;
        }
        r12 = r3;
        if r0 == 0 {
            cycles += 12;
            break ;
        }
        r3 = r3 >> 4;
        if r3 == 0 {
            cycles += 16;
            break ;
        }
        proof {
            let s = choose|s: u32| s < 32 && r12 == 1u32 << s;
            lemma_unit_shift(s);
        }
        r1 = r1 >> 4;
        cycles += 20;
    }
    proof {
        let s = choose|s: u32| s < 32 && r12 == 1u32 << s;
        lemma_marks(s, t1, t2, t3);
    }
    r2 = r2 & 0xE000_0000;
    if r2 == 0 {
        return (cycles, 0);
    }
    let mut count: usize = 0;
    if (r2 & ((r12 << 29) | (r12 >> 3))) != 0 {
        count += 1;
    }
    if (r2 & ((r12 << 30) | (r12 >> 2))) != 0 {
        count += 1;
    }
    if (r2 & ((r12 << 31) | (r12 >> 1))) != 0 {
        count += 1;
    }
    (cycles, count)
}

/// Alignment and rounds for a dividend that is not below the divisor.
/// Returns the cycles spent, with `between` cycles counted between the two
/// alignments, and the number of marked subtractions.
fn divide_core(rem: u32, div: u32, between: usize) -> (r: (usize, usize))
    requires
        0 < div,
        between <= 2,
    ensures
        r.0 == core_cycles(rem as int, div as int, between as int),
        r.1 == core_overshoots(rem as int, div as int),
        r.0 <= 936 + between,
        r.1 <= 3,
{
    proof {
        assert(is_unit(1u32)) by {
            assert(1u32 == 1u32 << 0u32) by (bit_vector);
        }
        lemma_align_bounds(rem as int, div as int, false);
    }
    let (d4, u4, c4) = align(rem, div, 1, false);
    proof {
        lemma_align_bounds(rem as int, d4 as int, true);
    }
    let (d1, u1, c1) = align(rem, d4, u4, true);
    let (c, marks) = subtract_rounds(rem, d1, u1);
    (c4 + between + c1 + c, marks)
}

/// The number of cycles the unsigned routine takes for `dividend % divisor`.
pub fn calc_modulo_cycle_u(dividend: u32, divisor: u32) -> (cycles: usize)
    ensures
        cycles == modulo_cycles_u(dividend, divisor),
        cycles <= MAX_MODULO_CYCLES,
        divisor == 0 ==> cycles == 0,
        divisor != 0 && dividend < divisor ==> cycles == 18,
        divisor != 0 && dividend >= divisor ==> cycles >= 118,
{
    reveal(modulo_cycles_u);
    if divisor == 0 {
        return 0;
    }
    if dividend < divisor {
        return 18;
    }
    proof {
        lemma_core_bounds(dividend as int, divisor as int);
    }
    let (c, marks) = divide_core(dividend, divisor, 0);
    if marks == 0 {
        24 + c + 18
    } else {
        24 + c + 75 - 2 * marks
    }
}

/// The number of cycles the unsigned routine takes when the dividend is
/// handed over as a signed value with the same bit pattern.
pub fn calc_modulo_cycle_u_from_lua(dividend: i32, divisor: u32) -> (cycles: usize)
    ensures
        cycles == modulo_cycles_u(reinterpret(dividend), divisor),
        cycles <= MAX_MODULO_CYCLES,
{
    let bits: u32 = if dividend < 0 {
        ((dividend as i64) + 0x1_0000_0000) as u32
    } else {
        dividend as u32
    };
    calc_modulo_cycle_u(bits, divisor)
}

/// The magnitude of a signed operand, as an unsigned register.
fn magnitude_of(x: i32) -> (r: u32)
    ensures
        r == magnitude(x),
{
    if x < 0 {
        (-(x as i64)) as u32
    } else {
        x as u32
    }
}

/// The number of cycles the signed routine takes for `dividend % divisor`.
pub fn calc_modulo_cycle_s(dividend: i32, divisor: i32) -> (cycles: usize)
    ensures
        cycles == modulo_cycles_s(dividend, divisor),
        cycles <= MAX_MODULO_CYCLES,
        divisor == 0 ==> cycles == 0,
{
    reveal(modulo_cycles_s);
    if divisor == 0 {
        return 0;
    }
    let r1: u32 = magnitude_of(divisor);
    let r0: u32 = magnitude_of(dividend);
    let mut cycles: usize = 10;
    if divisor > 0 {
        cycles += 4;
    }
    cycles += 10;
    if dividend > 0 {
        cycles += 4;
    }
    if r0 < r1 {
        if dividend > 0 {
            return cycles + 32;
        }
        return cycles + 28;
    }
    cycles += 8;
    let (c, marks) = divide_core(r0, r1, 2);
    cycles += c;
    if marks == 0 {
        if dividend >= 0 {
            return cycles + 36;
        }
        return cycles + 32;
    }
    cycles += 8;
    cycles += 3 * 17 - 2 * marks;
    cycles += 18;
    if dividend >= 0 {
        cycles += 4;
    }
    cycles
}

// ---------------------------------------------------------------------------
// Whole-domain analysis
// ---------------------------------------------------------------------------

/// `best` is the smallest dividend up to `last` that costs the most cycles
/// with this divisor.
pub open spec fn is_first_longest(divisor: u32, last: u32, best: u32) -> bool {
    &&& best <= last
    &&& forall|d: u32| d <= last ==> modulo_cycles_u(d, divisor) <= modulo_cycles_u(best, divisor)
    &&& forall|d: u32| d < best ==> modulo_cycles_u(d, divisor) < modulo_cycles_u(best, divisor)
}

/// The smallest dividend in `0..=last` for which the unsigned routine takes
/// the most cycles with this divisor.
pub fn find_longest_modulo_cycle_u_upto(divisor: u32, last: u32) -> (best: u32)
    ensures
        is_first_longest(divisor, last, best),
{
    let mut max: usize = calc_modulo_cycle_u(0, divisor);
    let mut dividend_for_max: u32 = 0;
    let mut dividend: u32 = 0;
    while dividend < last
        invariant
            dividend <= last,
            max == modulo_cycles_u(dividend_for_max, divisor),
            is_first_longest(divisor, dividend, dividend_for_max),
        decreases last - dividend,
    {
        dividend += 1;
        let cycles = calc_modulo_cycle_u(dividend, divisor);
        if cycles > max {
            max = cycles;
            dividend_for_max = dividend;
        }
    }
    dividend_for_max
}

/// The smallest of all 32-bit dividends for which the unsigned routine takes
/// the most cycles with this divisor. This walks the whole domain.
pub fn find_longest_modulo_cycle_u(divisor: u32) -> (best: u32)
    ensures
        is_first_longest(divisor, u32::MAX, best),
{
    find_longest_modulo_cycle_u_upto(divisor, u32::MAX)
}

/// The number of dividends below `n` for which the unsigned routine takes
/// exactly `cycles` cycles with this divisor.
pub open spec fn count_with_cycles(divisor: u32, cycles: int, n: nat) -> nat
    decreases n,
{
    if n == 0 {
        0
    } else {
        count_with_cycles(divisor, cycles, (n - 1) as nat) + if modulo_cycles_u(
            (n - 1) as u32,
            divisor,
        ) == cycles {
            1nat
        } else {
            0nat
        }
    }
}

/// The number of buckets of a distribution: cycle counts `0..1000`.
pub const DISTRIBUTION_BUCKETS: usize = 1000;

/// `dist` holds, for each cycle count below `DISTRIBUTION_BUCKETS`, the number
/// of dividends below `n` that cost this many cycles with the divisor 24.
pub open spec fn is_distribution_24(dist: Seq<u32>, n: nat) -> bool {
    &&& dist.len() == DISTRIBUTION_BUCKETS
    &&& forall|c: int| 0 <= c < dist.len() ==> #[trigger] dist[c] == count_with_cycles(24, c, n)
}

/// With a divisor the size of 24 or more, the unit stays below `2^28`, so the
/// routine runs at most seven rounds and every dividend lands in a bucket.
pub proof fn lemma_cycles_24_bound(dividend: u32)
    ensures
        dividend < 24 ==> modulo_cycles_u(dividend, 24) == 18,
        dividend >= 24 ==> 118 <= modulo_cycles_u(dividend, 24) < DISTRIBUTION_BUCKETS,
{
    reveal(modulo_cycles_u);
    if dividend >= 24 {
        let rem = dividend as int;
        let d4 = aligned_div(rem, 24, false);
        let u4 = aligned_unit(rem, 24, 1, false);
        let d1 = aligned_div(rem, d4, true);
        let u1 = aligned_unit(rem, d4, u4, true);
        lemma_aligned_ratio(rem, 24, 1, 24, false);
        lemma_aligned_ratio(rem, d4, u4, 24, true);
        lemma_align_bounds(rem, 24, false);
        lemma_align_bounds(rem, d4, true);
        lemma_rounds_bounds(rem, d1, u1);
        lemma_pow16_eight();
        lemma_rounds_bound_by_digits(u1, 7);
        lemma_final_overshoots_range(rem, d1, u1);
    }
}

/// The alignment keeps the divisor a fixed multiple of the unit, below
/// `2^32`, and stops at the boundary or at the dividend.
pub proof fn lemma_aligned_ratio(rem: int, div: int, unit: int, k: int, fine: bool)
    requires
        0 < div < 0x1_0000_0000,
        div == k * unit,
    ensures
        aligned_div(rem, div, fine) == k * aligned_unit(rem, div, unit, fine),
        0 < aligned_div(rem, div, fine) < 0x1_0000_0000,
        aligned_div(rem, div, fine) >= align_limit(fine) || aligned_div(rem, div, fine) >= rem,
    decreases
        (if div < align_limit(fine) {
            align_limit(fine) - div
        } else {
            0
        }),
{
    if align_continues(rem, div, fine) {
        assert(align_once(div, fine) == k * align_once(unit, fine)) by (nonlinear_arith)
            requires
                div == k * unit,
                align_once(div, fine) == (if fine {
                    div * 2
                } else {
                    div * 16
                }),
                align_once(unit, fine) == (if fine {
                    unit * 2
                } else {
                    unit * 16
                }),
        ;
        lemma_aligned_ratio(rem, align_once(div, fine), align_once(unit, fine), k, fine);
    }
}

/// The alignment and the rounds of a division cost between 76 and 936
/// cycles, not counting those between the two alignments.
pub proof fn lemma_core_bounds(rem: int, div: int)
    requires
        0 < div < 0x1_0000_0000,
    ensures
        76 <= core_cycles(rem, div, 0) <= 936,
        0 <= core_overshoots(rem, div) <= 3,
{
    let d4 = aligned_div(rem, div, false);
    let u4 = aligned_unit(rem, div, 1, false);
    let d1 = aligned_div(rem, d4, true);
    let u1 = aligned_unit(rem, d4, u4, true);
    assert(div == div * 1) by (nonlinear_arith);
    lemma_aligned_ratio(rem, div, 1, div, false);
    lemma_aligned_ratio(rem, d4, u4, div, true);
    assert(u1 < 0x1_0000_0000) by (nonlinear_arith)
        requires
            d1 == div * u1,
            0 < div,
            d1 < 0x1_0000_0000,
    ;
    lemma_align_bounds(rem, div, false);
    lemma_align_bounds(rem, d4, true);
    lemma_rounds_bounds(rem, d1, u1);
    lemma_pow16_eight();
    lemma_rounds_bound_by_digits(u1, 8);
    lemma_final_overshoots_range(rem, d1, u1);
}

/// Neither routine takes more than `MAX_MODULO_CYCLES` cycles.
pub proof fn lemma_modulo_cycles_bounds(dividend: u32, divisor: u32, signed_dividend: i32, signed_divisor: i32)
    ensures
        0 <= modulo_cycles_u(dividend, divisor) <= MAX_MODULO_CYCLES,
        0 <= modulo_cycles_s(signed_dividend, signed_divisor) <= MAX_MODULO_CYCLES,
        divisor != 0 ==> modulo_cycles_u(dividend, divisor) >= 18,
{
    reveal(modulo_cycles_u);
    reveal(modulo_cycles_s);
    if divisor != 0 && dividend >= divisor {
        lemma_core_bounds(dividend as int, divisor as int);
    }
    if signed_divisor != 0 && magnitude(signed_dividend) >= magnitude(signed_divisor) {
        lemma_core_bounds(magnitude(signed_dividend), magnitude(signed_divisor));
    }
}

/// At most three subtractions are marked.
pub proof fn lemma_final_overshoots_range(rem: int, div: int, unit: int)
    ensures
        0 <= final_overshoots(rem, div, unit) <= 3,
    decreases unit,
{
    if !is_last_round(rem, div, unit) {
        lemma_final_overshoots_range(after_eighth(rem, div), div / 16, unit / 16);
    }
}

proof fn lemma_count_24_bounds(cycles: int, n: nat)
    requires
        n <= 0x1_0000_0000,
    ensures
        count_with_cycles(24, cycles, n) <= n,
        cycles == 18 ==> count_with_cycles(24, cycles, n) <= 24,
        cycles != 18 && n >= 24 ==> count_with_cycles(24, cycles, n) <= n - 24,
        cycles != 18 && n < 24 ==> count_with_cycles(24, cycles, n) == 0,
    decreases n,
{
    if n > 0 {
        lemma_count_24_bounds(cycles, (n - 1) as nat);
        lemma_cycles_24_bound((n - 1) as u32);
    }
}

/// How the cycle counts of the dividends `0..=last` are spread, with the
/// divisor 24: entry `c` counts the dividends that cost `c` cycles.
pub fn calculate_distribution_modulo_cycle_u_24_upto(last: u32) -> (res: Vec<u32>)
    ensures
        is_distribution_24(res@, (last + 1) as nat),
{
    let mut res: Vec<u32> = Vec::new();
    while res.len() < DISTRIBUTION_BUCKETS
        invariant
            res.len() <= DISTRIBUTION_BUCKETS,
            forall|c: int| 0 <= c < res.len() ==> #[trigger] res[c] == 0,
        decreases DISTRIBUTION_BUCKETS - res.len(),
    {
        res.push(0);
    }
    let mut dividend: u32 = 0;
    loop
        invariant_except_break
            is_distribution_24(res@, dividend as nat),
        invariant
            dividend <= last,
        ensures
            is_distribution_24(res@, (last + 1) as nat),
        decreases last - dividend,
    {
        let cycles = calc_modulo_cycle_u(dividend, 24);
        proof {
            lemma_cycles_24_bound(dividend);
            lemma_count_24_bounds(cycles as int, dividend as nat);
        }
        let count = res[cycles];
        res.set(cycles, count + 1);
        if dividend == last {
            break ;
        }
        dividend += 1;
    }
    res
}

/// How the cycle counts of all 32-bit dividends are spread, with the divisor
/// 24. This walks the whole domain.
pub fn calculate_distribution_modulo_cycle_u_24() -> (res: Vec<u32>)
    ensures
        is_distribution_24(res@, 0x1_0000_0000),
{
    calculate_distribution_modulo_cycle_u_24_upto(u32::MAX)
}

} // verus!
