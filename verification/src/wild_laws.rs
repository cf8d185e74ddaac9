//! What holds of every roll: each creature it yields has the nature and the
//! gender that the roll has settled on and individual values in range, and
//! the windows of cycles of one method follow each other without overlap.

use vstd::prelude::*;

use crate::generator::{roll_results, Wild3GeneratorOptionsView, Wild3GeneratorResult};
use crate::generator_ng::{
    cycle_at_last_draw, cycle_at_pid, is_coalesced, low_index, method3_after, method3_with,
    method5_after, method5_with_first, method5_with_second, roll_completes, roll_method1,
    roll_method2, roll_method3, roll_method4, roll_method5, roll_pid, GeneratedPokemonCycle,
    MAX_CYCLE_AT_LOOP, MAX_RETRY_CYCLES,
};
use crate::modulo_cycle_count_calc::lemma_modulo_cycles_bounds;
use crate::pkm::nature_of_pid;
use crate::rng::{lcg_advance, lcg_next, lemma_rand16_shift, rand16};
use crate::wild_model::{
    accepts, cycle_at, cycle_at_loop, half_gap, main_pid, method2_span, method3_or_5_outcome,
    method5_outcome, pair_pid, pid_base, rejected_before, reroll_outcome, rerolls, target_of,
    GeneratedPokemon, Target, LEVEL_RANGE, REROLL_LIMIT,
};

verus! {

// ---------------------------------------------------------------------------
// The first accepted personality value
// ---------------------------------------------------------------------------

/// `rejected_before` finds the first accepted pair: the pair it counts up to
/// is accepted and no pair before it is; where it finds none, none of the
/// pairs it looked at is accepted.
pub proof fn lemma_rejected_before(
    state: u32,
    ratio: crate::pkm::GenderRatio,
    target: Target,
    fuel: nat,
)
    ensures
        match rejected_before(state, ratio, target, fuel) {
            Some(m) => {
                &&& m < fuel
                &&& accepts(ratio, target, pair_pid(state, 2 * m))
                &&& forall|i: nat| i < m ==> !accepts(ratio, target, #[trigger] pair_pid(state, 2 * i))
            },
            None => forall|i: nat|
                i < fuel ==> !accepts(ratio, target, #[trigger] pair_pid(state, 2 * i)),
        },
    decreases fuel,
{
    if fuel > 0 && !accepts(ratio, target, pair_pid(state, 0)) {
        let next = lcg_advance(state, 2);
        lemma_rejected_before(next, ratio, target, (fuel - 1) as nat);
        assert forall|i: nat| pair_pid(next, 2 * i) == #[trigger] pair_pid(state, 2 * (i + 1)) by {
            lemma_rand16_shift(state, 2, 2 * i);
            lemma_rand16_shift(state, 2, 2 * i + 1);
        }
        match rejected_before(next, ratio, target, (fuel - 1) as nat) {
            Some(m) => {
                assert forall|i: nat| i < m + 1 implies !accepts(
                    ratio,
                    target,
                    #[trigger] pair_pid(state, 2 * i),
                ) by {
                    if i > 0 {
                        let h = (i - 1) as nat;
                        assert(pair_pid(next, 2 * h) == pair_pid(state, 2 * (h + 1)));
                    }
                }
            },
            None => {
                assert forall|i: nat| i < fuel implies !accepts(
                    ratio,
                    target,
                    #[trigger] pair_pid(state, 2 * i),
                ) by {
                    if i > 0 {
                        let h = (i - 1) as nat;
                        assert(pair_pid(next, 2 * h) == pair_pid(state, 2 * (h + 1)));
                    }
                }
            },
        }
    }
}

/// The search for an accepted pair gives up only where there is nothing to
/// find: the states of the generator repeat after 2^32 steps, so if none of
/// the first 2^31 pairs is accepted, no later pair is.
pub proof fn lemma_search_is_exhaustive(
    state: u32,
    ratio: crate::pkm::GenderRatio,
    target: Target,
    i: nat,
)
    requires
        rejected_before(state, ratio, target, REROLL_LIMIT as nat) is None,
    ensures
        !accepts(ratio, target, pair_pid(state, 2 * i)),
{
    lemma_rejected_before(state, ratio, target, REROLL_LIMIT as nat);
    let periods = i / (REROLL_LIMIT as nat);
    let r = i % (REROLL_LIMIT as nat);
    assert(2 * i + 1 == periods * 0x1_0000_0000 + (2 * r + 1) && 2 * i + 2 == periods
        * 0x1_0000_0000 + (2 * r + 2)) by (nonlinear_arith)
        requires
            periods == i / 0x8000_0000,
            r == i % 0x8000_0000,
    ;
    crate::rng::lemma_periods(state, periods, 2 * r + 1);
    assert(pair_pid(state, 2 * i) == pair_pid(state, 2 * r));
}

// ---------------------------------------------------------------------------
// Single creatures
// ---------------------------------------------------------------------------

/// The creature is what the roll has settled on: its personality value is
/// accepted, its nature and its gender are those that the personality value
/// encodes, its individual values lie in `0..=31`, and it carries the slot of
/// the roll.
pub open spec fn fulfils(
    opts: Wild3GeneratorOptionsView,
    target: Target,
    gen_mon: GeneratedPokemon,
) -> bool {
    &&& accepts(opts.gender_ratio, target, gen_mon.pid)
    &&& gen_mon.nature == nature_of_pid(gen_mon.pid)
    &&& gen_mon.nature.index() == target.nature_rand
    &&& gen_mon.gender == opts.gender_ratio.spec_gender_from_pid(gen_mon.pid)
    &&& gen_mon.ivs.wf()
    &&& gen_mon.encounter_slot == target.encounter_slot
}

/// What comes of drawing until a personality value is accepted is what the
/// roll has settled on.
pub proof fn lemma_reroll_fulfils(state: u32, opts: Wild3GeneratorOptionsView, target: Target)
    ensures
        reroll_outcome(state, opts, target) matches Some(gen_mon) ==> fulfils(
            opts,
            target,
            gen_mon,
        ),
{
    lemma_rejected_before(state, opts.gender_ratio, target, REROLL_LIMIT as nat);
}

/// What comes of a draw lost between or after personality values is what
/// the roll has settled on.
pub proof fn lemma_lost_draw_fulfils(
    state: u32,
    opts: Wild3GeneratorOptionsView,
    target: Target,
    pid_low: u16,
)
    ensures
        method3_or_5_outcome(state, opts, target, pid_low) matches Some(gen_mon) ==> fulfils(
            opts,
            target,
            gen_mon,
        ),
        method5_outcome(state, opts, target) matches Some(gen_mon) ==> fulfils(
            opts,
            target,
            gen_mon,
        ),
{
    lemma_reroll_fulfils(lcg_next(state), opts, target);
    lemma_reroll_fulfils(lcg_advance(state, 2), opts, target);
}

/// The personality value of a roll that completes is accepted.
pub proof fn lemma_roll_pid_accepted(seed: u32, opts: Wild3GeneratorOptionsView)
    requires
        roll_completes(seed, opts),
    ensures
        accepts(opts.gender_ratio, target_of(seed, opts), roll_pid(seed, opts)),
        rerolls(seed, opts)->0 < REROLL_LIMIT,
{
    let base = pid_base(seed, opts);
    let from = lcg_advance(seed, base);
    lemma_rejected_before(from, opts.gender_ratio, target_of(seed, opts), REROLL_LIMIT as nat);
    let k = rerolls(seed, opts)->0;
    lemma_rand16_shift(seed, base, 2 * k);
    lemma_rand16_shift(seed, base, 2 * k + 1);
}

// ---------------------------------------------------------------------------
// Cycles
// ---------------------------------------------------------------------------

/// A roll reaches its first personality value within `MAX_CYCLE_AT_LOOP`
/// cycles.
pub proof fn lemma_cycle_at_loop(seed: u32, opts: Wild3GeneratorOptionsView)
    ensures
        0 <= cycle_at_loop(seed, opts) <= MAX_CYCLE_AT_LOOP,
{
    reveal(cycle_at_loop);
    lemma_modulo_cycles_bounds(opts.lead_pid, 24, rand16(seed, 1) as i32, LEVEL_RANGE);
    lemma_modulo_cycles_bounds(opts.lead_pid, 25, 0, 1);
    lemma_modulo_cycles_bounds(rand16(seed, 0) as u32, 100, 0, 1);
    lemma_modulo_cycles_bounds(rand16(seed, 2) as u32, 25, 0, 1);
    lemma_modulo_cycles_bounds(rand16(seed, 2) as u32, 3, 0, 1);
    lemma_modulo_cycles_bounds(rand16(seed, 3) as u32, 25, 0, 1);
}

/// Every rejected personality value costs between 220 and
/// `MAX_RETRY_CYCLES` cycles, so the cycle count at the `j`-th value grows
/// with `j` and stays far below what 64 bits hold.
pub proof fn lemma_cycle_at(seed: u32, opts: Wild3GeneratorOptionsView, i: nat, j: nat)
    requires
        i <= j,
    ensures
        0 <= cycle_at(seed, opts, i),
        cycle_at(seed, opts, i) + 220 * (j - i) <= cycle_at(seed, opts, j),
        cycle_at(seed, opts, j) <= MAX_CYCLE_AT_LOOP + MAX_RETRY_CYCLES * j,
    decreases j,
{
    lemma_cycle_at_loop(seed, opts);
    if j > 0 {
        let pid = main_pid(seed, opts, (j - 1) as nat);
        lemma_modulo_cycles_bounds(pid, 25, 0, 1);
        if i < j {
            lemma_cycle_at(seed, opts, i, (j - 1) as nat);
        } else {
            lemma_cycle_at(seed, opts, (j - 1) as nat, (j - 1) as nat);
        }
    }
}

// ---------------------------------------------------------------------------
// Lists
// ---------------------------------------------------------------------------

/// Every creature of the list is what the roll has settled on, and every
/// window starts no later than it ends.
pub open spec fn all_fulfil(
    opts: Wild3GeneratorOptionsView,
    target: Target,
    list: Seq<GeneratedPokemonCycle>,
) -> bool {
    forall|i: int|
        0 <= i < list.len() ==> fulfils(opts, target, (#[trigger] list[i]).gen_mon)
            && list[i].cycle_start <= list[i].cycle_end
}

/// The windows of the list follow each other without overlap.
pub open spec fn in_order(list: Seq<GeneratedPokemonCycle>) -> bool {
    forall|i: int, j: int|
        0 <= i < j < list.len() ==> (#[trigger] list[i]).cycle_end <= (#[trigger] list[j]).cycle_start
}

/// Every window of the list ends by the cycle `limit`.
pub open spec fn ends_by(list: Seq<GeneratedPokemonCycle>, limit: int) -> bool {
    forall|i: int| 0 <= i < list.len() ==> (#[trigger] list[i]).cycle_end <= limit
}

/// What `all_fulfil`, `in_order` and `ends_by` say of a list together.
pub open spec fn well_formed(
    opts: Wild3GeneratorOptionsView,
    target: Target,
    list: Seq<GeneratedPokemonCycle>,
    limit: int,
) -> bool {
    &&& all_fulfil(opts, target, list)
    &&& in_order(list)
    &&& ends_by(list, limit)
}

/// The windows between the halves of the `j`-th personality value keep the
/// lists of methods 3 and 5 well formed.
pub proof fn lemma_first_window(
    seed: u32,
    opts: Wild3GeneratorOptionsView,
    j: nat,
    list3: Seq<GeneratedPokemonCycle>,
    list5: Seq<GeneratedPokemonCycle>,
)
    requires
        j < REROLL_LIMIT,
        well_formed(opts, target_of(seed, opts), list3, cycle_at(seed, opts, j)),
        well_formed(opts, target_of(seed, opts), list5, cycle_at(seed, opts, j)),
        is_coalesced(list5),
    ensures
        well_formed(
            opts,
            target_of(seed, opts),
            method3_with(list3, seed, opts, j),
            cycle_at(seed, opts, j) + half_gap(),
        ),
        well_formed(
            opts,
            target_of(seed, opts),
            method5_with_first(list5, seed, opts, j),
            cycle_at(seed, opts, j) + half_gap(),
        ),
        is_coalesced(method5_with_first(list5, seed, opts, j)),
{
    reveal(method3_with);
    reveal(method5_with_first);
    let target = target_of(seed, opts);
    lemma_cycle_at(seed, opts, j, j);
    lemma_lost_draw_fulfils(
        lcg_advance(seed, low_index(seed, opts, j) + 1),
        opts,
        target,
        rand16(seed, low_index(seed, opts, j)),
    );
}

/// The window after the rejected `j`-th personality value keeps the list
/// of method 5 well formed.
pub proof fn lemma_second_window(
    seed: u32,
    opts: Wild3GeneratorOptionsView,
    j: nat,
    list5: Seq<GeneratedPokemonCycle>,
)
    requires
        j < REROLL_LIMIT,
        well_formed(opts, target_of(seed, opts), list5, cycle_at(seed, opts, j) + half_gap()),
        is_coalesced(list5),
    ensures
        well_formed(
            opts,
            target_of(seed, opts),
            method5_with_second(list5, seed, opts, j),
            cycle_at(seed, opts, j + 1),
        ),
        is_coalesced(method5_with_second(list5, seed, opts, j)),
{
    reveal(method5_with_second);
    let target = target_of(seed, opts);
    lemma_cycle_at(seed, opts, j, j + 1);
    lemma_lost_draw_fulfils(lcg_advance(seed, low_index(seed, opts, j) + 2), opts, target, 0);
}

/// After the windows of `n` personality values the lists of methods 3 and
/// 5 are well formed.
pub proof fn lemma_lists_after(seed: u32, opts: Wild3GeneratorOptionsView, n: nat)
    requires
        n <= REROLL_LIMIT,
    ensures
        well_formed(
            opts,
            target_of(seed, opts),
            method3_after(seed, opts, n),
            cycle_at(seed, opts, n),
        ),
        well_formed(
            opts,
            target_of(seed, opts),
            method5_after(seed, opts, n),
            cycle_at(seed, opts, n),
        ),
        is_coalesced(method5_after(seed, opts, n)),
    decreases n,
{
    if n > 0 {
        let j = (n - 1) as nat;
        lemma_lists_after(seed, opts, j);
        let list3 = method3_after(seed, opts, j);
        let list5 = method5_after(seed, opts, j);
        lemma_first_window(seed, opts, j, list3, list5);
        lemma_second_window(seed, opts, j, method5_with_first(list5, seed, opts, j));
        lemma_cycle_at(seed, opts, j, n);
    }
}

// ---------------------------------------------------------------------------
// Whole rolls
// ---------------------------------------------------------------------------

/// The creature of a window is what the roll has settled on, and the
/// window lies between the two cycles.
pub open spec fn window_fulfils(
    opts: Wild3GeneratorOptionsView,
    target: Target,
    found: Option<GeneratedPokemonCycle>,
    from: int,
    to: int,
) -> bool {
    found matches Some(c) ==> {
        &&& fulfils(opts, target, c.gen_mon)
        &&& from <= c.cycle_start <= c.cycle_end <= to
    }
}

/// The last cycle that any window of a roll can reach.
pub open spec fn cycle_horizon() -> int {
    MAX_CYCLE_AT_LOOP + MAX_RETRY_CYCLES * REROLL_LIMIT + 400_000
}

/// Every creature that a roll yields, by whatever method, has the nature,
/// and the gender if one is asked for, that the roll has settled on; its
/// nature and gender are those that its personality value encodes; its
/// individual values lie in `0..=31`. The windows of methods 3 and 5 follow
/// each other without overlap, no two neighbours of method 5 continue each
/// other, and the windows of methods 2, 4 and 1 follow, in this order, after
/// the accepted personality value.
pub proof fn lemma_roll_fulfils(seed: u32, opts: Wild3GeneratorOptionsView)
    ensures
        all_fulfil(opts, target_of(seed, opts), roll_method3(seed, opts)),
        in_order(roll_method3(seed, opts)),
        all_fulfil(opts, target_of(seed, opts), roll_method5(seed, opts)),
        in_order(roll_method5(seed, opts)),
        is_coalesced(roll_method5(seed, opts)),
        roll_completes(seed, opts) ==> {
            &&& ends_by(roll_method3(seed, opts), cycle_at_pid(seed, opts))
            &&& ends_by(roll_method5(seed, opts), cycle_at_pid(seed, opts))
            &&& window_fulfils(
                opts,
                target_of(seed, opts),
                roll_method2(seed, opts),
                cycle_at_pid(seed, opts),
                cycle_at_pid(seed, opts) + method2_span(roll_pid(seed, opts)),
            )
            &&& window_fulfils(
                opts,
                target_of(seed, opts),
                roll_method4(seed, opts),
                cycle_at_pid(seed, opts) + method2_span(roll_pid(seed, opts)),
                cycle_at_last_draw(seed, opts),
            )
            &&& window_fulfils(
                opts,
                target_of(seed, opts),
                roll_method1(seed, opts),
                cycle_at_last_draw(seed, opts),
                cycle_horizon(),
            )
        },
        !roll_completes(seed, opts) ==> roll_method1(seed, opts) is None && roll_method2(
            seed,
            opts,
        ) is None && roll_method4(seed, opts) is None,
{
    if crate::wild_model::slot_counts(seed, opts) {
        match rerolls(seed, opts) {
            Some(k) => {
                lemma_roll_pid_accepted(seed, opts);
                lemma_lists_after(seed, opts, k);
                lemma_first_window(
                    seed,
                    opts,
                    k,
                    method3_after(seed, opts, k),
                    method5_after(seed, opts, k),
                );
                lemma_cycle_at(seed, opts, k, k);
                let pid = roll_pid(seed, opts);
                lemma_modulo_cycles_bounds(pid, 25, 0, 1);
                lemma_modulo_cycles_bounds(pid, 24, 0, 1);
            },
            None => {
                lemma_lists_after(seed, opts, REROLL_LIMIT as nat);
            },
        }
    }
}

/// The result is one that the roll may yield: the nature that its
/// personality value encodes is the nature that the roll has settled on, and
/// so is its gender if one is asked for; its individual values lie in
/// `0..=31`; it carries the slot of the roll; and its window starts no later
/// than it ends.
pub open spec fn result_fulfils(
    opts: Wild3GeneratorOptionsView,
    target: Target,
    r: Wild3GeneratorResult,
) -> bool {
    &&& accepts(opts.gender_ratio, target, r.pid)
    &&& nature_of_pid(r.pid).index() == target.nature_rand
    &&& r.ivs.wf()
    &&& r.encounter_slot == target.encounter_slot
    &&& r.cycle_range.0 <= r.cycle_range.1
}

/// Every result in the list is one that the roll from `seed` may yield.
pub open spec fn results_fulfil(
    seed: u32,
    opts: Wild3GeneratorOptionsView,
    results: Seq<Wild3GeneratorResult>,
) -> bool {
    forall|i: int|
        0 <= i < results.len() ==> result_fulfils(opts, target_of(seed, opts), #[trigger] results[i])
}

/// What `lemma_roll_fulfils` says of the creatures, said of the results of
/// a roll as a flat list: every result has the nature, and the gender if one
/// is asked for, that the roll has settled on, and individual values in
/// `0..=31`.
pub proof fn lemma_roll_results(seed: u32, opts: Wild3GeneratorOptionsView)
    ensures
        results_fulfil(seed, opts, roll_results(seed, opts)),
{
    reveal(roll_results);
    lemma_roll_fulfils(seed, opts);
}

} // verus!
