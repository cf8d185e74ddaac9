//! The 32-bit linear congruential generator that feeds every random draw.
//!
//! The generator is modelled as a pure function on seeds: `lcg_advance(seed, n)`
//! is the state after `n` steps and `rand16(seed, i)` is the `i`-th 16-bit draw
//! of the stream that starts at `seed`. Everything that consumes randomness is
//! specified over these two functions.

use vstd::prelude::*;
use vstd::arithmetic::div_mod::{
    lemma_add_mod_noop, lemma_mul_mod_noop_general, lemma_mul_mod_noop_right, lemma_small_mod,
};

verus! {

/// Multiplier of the generator.
pub const LCG_MULT: u32 = 0x41C6_4E6D;

/// Increment of the generator.
pub const LCG_INC: u32 = 0x6073;

/// The affine map `x -> a * x + c` modulo 2^32.
#[verifier::opaque]
pub open spec fn affine(a: u32, c: u32, x: u32) -> u32 {
    ((a as int * x as int + c as int) % 0x1_0000_0000) as u32
}

/// One step of the generator.
pub open spec fn lcg_next(state: u32) -> u32 {
    affine(LCG_MULT, LCG_INC, state)
}

/// The state reached from `state` after `n` steps.
pub open spec fn lcg_advance(state: u32, n: nat) -> u32
    decreases n,
{
    if n == 0 {
        state
    } else {
        lcg_next(lcg_advance(state, (n - 1) as nat))
    }
}

/// The upper sixteen bits of a state: the value a 16-bit draw hands out.
pub open spec fn high_half(state: u32) -> u16 {
    (state as int / 0x1_0000) as u16
}

/// The `i`-th 16-bit draw (counted from zero) of the stream that starts at `seed`.
pub open spec fn rand16(seed: u32, i: nat) -> u16 {
    high_half(lcg_advance(seed, i + 1))
}

/// `(a, c)` maps every state to the state `n` steps later.
pub open spec fn is_jump(a: u32, c: u32, n: nat) -> bool {
    forall|x: u32| #[trigger] affine(a, c, x) == lcg_advance(x, n)
}

/// Advancing by `m` steps and then by `n` steps is advancing by `m + n` steps.
pub proof fn lemma_advance_add(state: u32, m: nat, n: nat)
    ensures
        lcg_advance(lcg_advance(state, m), n) == lcg_advance(state, m + n),
    decreases n,
{
    if n > 0 {
        lemma_advance_add(state, m, (n - 1) as nat);
    }
}

/// A single step moves from the state after `n` steps to the state after `n + 1`.
pub proof fn lemma_advance_step(state: u32, n: nat)
    ensures
        lcg_next(lcg_advance(state, n)) == lcg_advance(state, n + 1),
        lcg_advance(lcg_next(state), n) == lcg_advance(state, n + 1),
{
    assert(lcg_advance(state, 1) == lcg_next(state)) by {
        assert(lcg_advance(state, 0) == state);
    }
    lemma_advance_add(state, 1, n);
}

/// Draws of a stream that starts `m` steps into another one are draws of that
/// other stream, shifted by `m`.
pub proof fn lemma_rand16_shift(seed: u32, m: nat, i: nat)
    ensures
        rand16(lcg_advance(seed, m), i) == rand16(seed, m + i),
{
    lemma_advance_add(seed, m, i + 1);
}

/// The first draw of the stream that starts `n` steps into another one is the
/// `n`-th draw of that other stream.
pub proof fn lemma_draw_after(seed: u32, n: nat)
    ensures
        rand16(lcg_advance(seed, n), 0) == rand16(seed, n),
        lcg_next(lcg_advance(seed, n)) == lcg_advance(seed, n + 1),
        lcg_advance(seed, 0) == seed,
{
    lemma_rand16_shift(seed, n, 0);
}

proof fn lemma_wrapping_affine(a: u32, c: u32, x: u32)
    ensures
        vstd::wrapping::u32_specs::wrapping_add(vstd::wrapping::u32_specs::wrapping_mul(a, x), c)
            == affine(a, c, x),
{
    reveal(affine);
    let p = a as int * x as int;
    assert(0 <= p) by (nonlinear_arith)
        requires
            p == a as int * x as int,
            0 <= a as int,
            0 <= x as int,
    ;
    assert(a as nat * x as nat == p) by (nonlinear_arith)
        requires
            p == a as int * x as int,
    ;
}

proof fn lemma_affine_compose(a1: u32, c1: u32, a2: u32, c2: u32, x: u32)
    ensures
        affine(a2, c2, affine(a1, c1, x)) == affine(
            vstd::wrapping::u32_specs::wrapping_mul(a2, a1),
            affine(a2, c2, c1),
            x,
        ),
{
    reveal(affine);
    let m = 0x1_0000_0000int;
    let inner = a1 as int * x as int + c1 as int;
    let a21 = a2 as int * a1 as int;
    let c21 = a2 as int * c1 as int + c2 as int;
    assert(a2 as nat * a1 as nat == a21) by (nonlinear_arith)
        requires
            a21 == a2 as int * a1 as int,
    ;
    assert(0 <= a21) by (nonlinear_arith)
        requires
            a21 == a2 as int * a1 as int,
            0 <= a2 as int,
            0 <= a1 as int,
    ;
    // left side: a2 * (inner % m) + c2
    lemma_mul_mod_noop_right(a2 as int, inner, m);
    lemma_add_mod_noop(a2 as int * (inner % m), c2 as int, m);
    // right side: (a21 % m) * x + (c21 % m)
    lemma_mul_mod_noop_general(a21, x as int, m);
    lemma_add_mod_noop((a21 % m) * x as int, c21 % m, m);
    lemma_add_mod_noop(a21 * x as int, c21, m);
    vstd::arithmetic::div_mod::lemma_mod_twice(c21, m);
    assert(a2 as int * inner + c2 as int == a21 * x as int + c21) by (nonlinear_arith)
        requires
            inner == a1 as int * x as int + c1 as int,
            a21 == a2 as int * a1 as int,
            c21 == a2 as int * c1 as int + c2 as int,
    ;
}

proof fn lemma_jump_compose(a1: u32, c1: u32, n1: nat, a2: u32, c2: u32, n2: nat)
    requires
        is_jump(a1, c1, n1),
        is_jump(a2, c2, n2),
    ensures
        is_jump(vstd::wrapping::u32_specs::wrapping_mul(a2, a1), affine(a2, c2, c1), n1 + n2),
{
    let a = vstd::wrapping::u32_specs::wrapping_mul(a2, a1);
    let c = affine(a2, c2, c1);
    assert forall|x: u32| #[trigger] affine(a, c, x) == lcg_advance(x, n1 + n2) by {
        lemma_affine_compose(a1, c1, a2, c2, x);
        lemma_advance_add(x, n1, n2);
    }
}

proof fn lemma_jump_base()
    ensures
        is_jump(1, 0, 0),
        is_jump(LCG_MULT, LCG_INC, 1),
{
    reveal(affine);
    assert forall|x: u32| #[trigger] affine(LCG_MULT, LCG_INC, x) == lcg_advance(x, 1) by {
        assert(lcg_advance(x, 1) == lcg_next(lcg_advance(x, 0)));
    }
}

/// Doubling a jump: if `(a, c)` jumps `n` steps, then `(a2, c2)`, the map
/// applied twice, jumps `2 * n` steps.
proof fn lemma_jump_double(a: u32, c: u32, n: nat, a2: u32, c2: u32)
    requires
        is_jump(a, c, n),
        a2 as int == (a as int * a as int) % 0x1_0000_0000,
        c2 as int == (a as int * c as int + c as int) % 0x1_0000_0000,
    ensures
        is_jump(a2, c2, 2 * n),
{
    reveal(affine);
    assert(a as nat * a as nat == a as int * a as int) by (nonlinear_arith);
    lemma_jump_compose(a, c, n, a, c, n);
}

/// The generator has the full period: after 2^32 steps every state is back
/// where it started.
pub proof fn lemma_full_period(state: u32)
    ensures
        lcg_advance(state, 0x1_0000_0000) == state,
{
    lemma_jump_base();
    lemma_jump_double(0x41C64E6D, 0x00006073, 0x1, 0xC2A29A69, 0xE97E7B6A);
    lemma_jump_double(0xC2A29A69, 0xE97E7B6A, 0x2, 0xEE067F11, 0x31B0DDE4);
    lemma_jump_double(0xEE067F11, 0x31B0DDE4, 0x4, 0xCFDDDF21, 0x67DBB608);
    lemma_jump_double(0xCFDDDF21, 0x67DBB608, 0x8, 0x5F748241, 0xCBA72510);
    lemma_jump_double(0x5F748241, 0xCBA72510, 0x10, 0x8B2E1481, 0x1D29AE20);
    lemma_jump_double(0x8B2E1481, 0x1D29AE20, 0x20, 0x76006901, 0xBA84EC40);
    lemma_jump_double(0x76006901, 0xBA84EC40, 0x40, 0x1711D201, 0x79F01880);
    lemma_jump_double(0x1711D201, 0x79F01880, 0x80, 0xBE67A401, 0x08793100);
    lemma_jump_double(0xBE67A401, 0x08793100, 0x100, 0xDDDF4801, 0x6B566200);
    lemma_jump_double(0xDDDF4801, 0x6B566200, 0x200, 0x3FFE9001, 0x803CC400);
    lemma_jump_double(0x3FFE9001, 0x803CC400, 0x400, 0x90FD2001, 0xA6B98800);
    lemma_jump_double(0x90FD2001, 0xA6B98800, 0x800, 0x65FA4001, 0xE6731000);
    lemma_jump_double(0x65FA4001, 0xE6731000, 0x1000, 0xDBF48001, 0x30E62000);
    lemma_jump_double(0xDBF48001, 0x30E62000, 0x2000, 0xF7E90001, 0xF1CC4000);
    lemma_jump_double(0xF7E90001, 0xF1CC4000, 0x4000, 0xEFD20001, 0x23988000);
    lemma_jump_double(0xEFD20001, 0x23988000, 0x8000, 0xDFA40001, 0x47310000);
    lemma_jump_double(0xDFA40001, 0x47310000, 0x10000, 0xBF480001, 0x8E620000);
    lemma_jump_double(0xBF480001, 0x8E620000, 0x20000, 0x7E900001, 0x1CC40000);
    lemma_jump_double(0x7E900001, 0x1CC40000, 0x40000, 0xFD200001, 0x39880000);
    lemma_jump_double(0xFD200001, 0x39880000, 0x80000, 0xFA400001, 0x73100000);
    lemma_jump_double(0xFA400001, 0x73100000, 0x100000, 0xF4800001, 0xE6200000);
    lemma_jump_double(0xF4800001, 0xE6200000, 0x200000, 0xE9000001, 0xCC400000);
    lemma_jump_double(0xE9000001, 0xCC400000, 0x400000, 0xD2000001, 0x98800000);
    lemma_jump_double(0xD2000001, 0x98800000, 0x800000, 0xA4000001, 0x31000000);
    lemma_jump_double(0xA4000001, 0x31000000, 0x1000000, 0x48000001, 0x62000000);
    lemma_jump_double(0x48000001, 0x62000000, 0x2000000, 0x90000001, 0xC4000000);
    lemma_jump_double(0x90000001, 0xC4000000, 0x4000000, 0x20000001, 0x88000000);
    lemma_jump_double(0x20000001, 0x88000000, 0x8000000, 0x40000001, 0x10000000);
    lemma_jump_double(0x40000001, 0x10000000, 0x10000000, 0x80000001, 0x20000000);
    lemma_jump_double(0x80000001, 0x20000000, 0x20000000, 0x00000001, 0x40000000);
    lemma_jump_double(0x00000001, 0x40000000, 0x40000000, 0x00000001, 0x80000000);
    lemma_jump_double(0x00000001, 0x80000000, 0x80000000, 0x00000001, 0x00000000);
    assert(affine(1, 0, state) == lcg_advance(state, 0x1_0000_0000));
    lemma_small_mod(state as nat, 0x1_0000_0000);
}

/// Advancing by a whole number of periods changes nothing.
pub proof fn lemma_periods(state: u32, periods: nat, n: nat)
    ensures
        lcg_advance(state, periods * 0x1_0000_0000 + n) == lcg_advance(state, n),
    decreases periods,
{
    if periods > 0 {
        lemma_periods(state, (periods - 1) as nat, n);
        lemma_full_period(state);
        lemma_advance_add(state, 0x1_0000_0000, ((periods - 1) * 0x1_0000_0000 + n) as nat);
        assert(periods * 0x1_0000_0000 + n == 0x1_0000_0000 + ((periods - 1) * 0x1_0000_0000 + n))
            by (nonlinear_arith)
            requires
                periods > 0,
        ;
    }
}

/// Applies the affine map `x -> a * x + c` modulo 2^32.
pub fn affine_apply(a: u32, c: u32, x: u32) -> (r: u32)
    ensures
        r == affine(a, c, x),
{
    proof {
        lemma_wrapping_affine(a, c, x);
    }
    a.wrapping_mul(x).wrapping_add(c)
}

/// The state `n` steps after `seed`, found with a number of multiplications
/// logarithmic in `n`.
pub fn advance_seed(seed: u32, n: u64) -> (r: u32)
    ensures
        r == lcg_advance(seed, n as nat),
{
    let mut acc_a: u32 = 1;
    let mut acc_c: u32 = 0;
    let mut cur_a: u32 = LCG_MULT;
    let mut cur_c: u32 = LCG_INC;
    let mut k: u64 = n;
    let ghost mut done: nat = 0;
    let ghost mut stride: nat = 1;
    proof {
        lemma_jump_base();
    }
    while k > 0
        invariant
            is_jump(acc_a, acc_c, done),
            is_jump(cur_a, cur_c, stride),
            n as nat == k as nat * stride + done,
        decreases k,
    {
        if k % 2 == 1 {
            proof {
                lemma_jump_compose(acc_a, acc_c, done, cur_a, cur_c, stride);
            }
            acc_c = affine_apply(cur_a, cur_c, acc_c);
            acc_a = cur_a.wrapping_mul(acc_a);
            proof {
                done = done + stride;
            }
        }
        proof {
            lemma_jump_compose(cur_a, cur_c, stride, cur_a, cur_c, stride);
            assert(n as nat == (k / 2) as nat * (stride + stride) + done) by (nonlinear_arith)
                requires
                    n as nat == k as nat * stride + (if k % 2 == 1 {
                        (done - stride) as nat
                    } else {
                        done
                    }),
                    k % 2 == 1 ==> done >= stride,
            ;
            stride = stride + stride;
        }
        cur_c = affine_apply(cur_a, cur_c, cur_c);
        cur_a = cur_a.wrapping_mul(cur_a);
        k = k / 2;
    }
    proof {
        assert(k as nat * stride == 0) by (nonlinear_arith)
            requires
                k == 0,
        ;
    }
    affine_apply(acc_a, acc_c, seed)
}

/// A generator state. Copies are independent streams that continue from the
/// same point.
#[derive(Clone, Copy, Debug, PartialEq, Eq, Structural)]
pub struct Pokerng {
    pub state: u32,
}

impl Pokerng {
    /// A generator whose next draw is the first draw of the stream of `seed`.
    pub fn new(seed: u32) -> (r: Self)
        ensures
            r.state == seed,
    {
        Pokerng { state: seed }
    }

    /// Steps the generator once and returns the new state.
    pub fn next_u32(&mut self) -> (r: u32)
        ensures
            final(self).state == lcg_next(old(self).state),
            r == final(self).state,
    {
        self.state = affine_apply(LCG_MULT, LCG_INC, self.state);
        self.state
    }

    /// Steps the generator once and returns the upper half of the new state.
    pub fn next_u16(&mut self) -> (r: u16)
        ensures
            final(self).state == lcg_next(old(self).state),
            r == high_half(final(self).state),
            r == rand16(old(self).state, 0),
    {
        let s = self.next_u32();
        proof {
            assert(lcg_advance(old(self).state, 1) == lcg_next(lcg_advance(old(self).state, 0)));
        }
        (s / 0x1_0000) as u16
    }

    /// The draw with the index `i` of the stream of `seed`, taken by a
    /// generator that stands `i` steps into that stream.
    pub(crate) fn draw_at(&mut self, Ghost(seed): Ghost<u32>, Ghost(i): Ghost<nat>) -> (r: u16)
        requires
            old(self).state == lcg_advance(seed, i),
        ensures
            final(self).state == lcg_advance(seed, i + 1),
            r == rand16(seed, i),
    {
        proof {
            lemma_draw_after(seed, i);
        }
        self.next_u16()
    }

    /// Steps the generator `n` times without handing out the draws.
    pub fn advance(&mut self, n: usize)
        ensures
            final(self).state == lcg_advance(old(self).state, n as nat),
    {
        self.state = advance_seed(self.state, n as u64);
    }
}

} // verus!
