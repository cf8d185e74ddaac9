//! One wild-encounter roll, with what each of the five methods yields and
//! the cycles between which the frame's interrupt has to fall for it.

use vstd::prelude::*;
use crate::gen3::{EncounterSlot, Gen3Lead, Gen3Method};
use crate::generator::{passes_ivs_filter, Wild3GeneratorOptions, Wild3GeneratorOptionsView};
use crate::modulo_cycle_count_calc::{calc_modulo_cycle_s, calc_modulo_cycle_u};
use crate::pkm::{gen3_shiny, AbilityType, GenderRatio, Ivs, Nature};
use crate::rng::{lcg_advance, lemma_rand16_shift, rand16, Pokerng};
use crate::wild_model::{
    accepts, cycle_at, cycle_at_level, cycle_at_loop, half_gap, influence, is_method3, kept,
    main_pid, method2_outcome, method2_span, method3_or_5_outcome, method4_outcome, method4_span,
    method5_outcome, pair_ivs, pair_pid, pid_base, pid_of, rejected_before, reroll_outcome,
    rerolls, rolled_slot, slot_counts, target_of, wants, GeneratedPokemon, Influence, Target,
    FRAME_CYCLES, LEVEL_RANGE, REROLL_LIMIT,
};

verus! {

/// A creature with the cycles between which the frame's interrupt has to
/// fall for it: from `cycle_start` up to, but not including, `cycle_end`.
#[derive(Clone, Copy, Debug, PartialEq, Eq, Structural)]
pub struct GeneratedPokemonCycle {
    pub cycle_start: u64,
    pub cycle_end: u64,
    pub gen_mon: GeneratedPokemon,
}

/// What one roll yields, method by method.
#[derive(Clone, Debug)]
pub struct GeneratedPokemons {
    pub method1: Option<GeneratedPokemonCycle>,
    pub method2: Option<GeneratedPokemonCycle>,
    pub method3: Vec<GeneratedPokemonCycle>,
    pub method4: Option<GeneratedPokemonCycle>,
    pub method5: Vec<GeneratedPokemonCycle>,
    /// The cycles between the first draw of a personality value and the
    /// accepted one.
    pub pid_reroll_cycle: u64,
    /// The number of personality values drawn.
    pub pid_reroll_count: usize,
}

/// Whether `next` continues `last`: it starts on the cycle on which `last`
/// ends and is the same creature by personality value and individual values.
pub open spec fn continues(last: GeneratedPokemonCycle, next: GeneratedPokemonCycle) -> bool {
    &&& last.cycle_end == next.cycle_start
    &&& last.gen_mon.pid == next.gen_mon.pid
    &&& last.gen_mon.ivs == next.gen_mon.ivs
}

/// The list with `next` added: if it continues the last entry, that entry
/// is stretched to the end of `next`; if not, `next` becomes a new last entry.
pub open spec fn coalesced(
    list: Seq<GeneratedPokemonCycle>,
    next: GeneratedPokemonCycle,
) -> Seq<GeneratedPokemonCycle> {
    if list.len() > 0 && continues(list.last(), next) {
        list.update(
            list.len() - 1,
            GeneratedPokemonCycle {
                cycle_start: list.last().cycle_start,
                cycle_end: next.cycle_end,
                gen_mon: list.last().gen_mon,
            },
        )
    } else {
        list.push(next)
    }
}

/// No entry of the list continues the entry before it.
pub open spec fn is_coalesced(list: Seq<GeneratedPokemonCycle>) -> bool {
    forall|i: int| 0 <= i < list.len() - 1 ==> !continues(#[trigger] list[i], list[i + 1])
}

/// Adding an entry keeps a list free of entries that continue the one
/// before them: two such entries never stand side by side.
pub proof fn lemma_coalesced_keeps(list: Seq<GeneratedPokemonCycle>, next: GeneratedPokemonCycle)
    requires
        is_coalesced(list),
    ensures
        is_coalesced(coalesced(list, next)),
{
}

impl GeneratedPokemons {
    /// A record with nothing in it.
    pub fn new() -> (r: Self)
        ensures
            r.method1 is None,
            r.method2 is None,
            r.method3@ == Seq::<GeneratedPokemonCycle>::empty(),
            r.method4 is None,
            r.method5@ == Seq::<GeneratedPokemonCycle>::empty(),
            r.pid_reroll_cycle == 0,
            r.pid_reroll_count == 0,
    {
        GeneratedPokemons {
            method1: None,
            method2: None,
            method3: Vec::new(),
            method4: None,
            method5: Vec::new(),
            pid_reroll_cycle: 0,
            pid_reroll_count: 0,
        }
    }

    /// Adds what method 5 yields in one window. A window that continues the
    /// last one with the same creature is merged into it.
    pub fn add_method5(&mut self, gen_mon_cycle: GeneratedPokemonCycle)
        ensures
            final(self).method5@ == coalesced(old(self).method5@, gen_mon_cycle),
            is_coalesced(old(self).method5@) ==> is_coalesced(final(self).method5@),
            final(self).method1 == old(self).method1,
            final(self).method2 == old(self).method2,
            final(self).method3 == old(self).method3,
            final(self).method4 == old(self).method4,
            final(self).pid_reroll_cycle == old(self).pid_reroll_cycle,
            final(self).pid_reroll_count == old(self).pid_reroll_count,
    {
        let n = self.method5.len();
        if n > 0 {
            let last = self.method5[n - 1];
            if last.cycle_end == gen_mon_cycle.cycle_start && last.gen_mon.pid
                == gen_mon_cycle.gen_mon.pid && last.gen_mon.ivs == gen_mon_cycle.gen_mon.ivs {
                self.method5.set(
                    n - 1,
                    GeneratedPokemonCycle {
                        cycle_start: last.cycle_start,
                        cycle_end: gen_mon_cycle.cycle_end,
                        gen_mon: last.gen_mon,
                    },
                );
                return ;
            }
        }
        self.method5.push(gen_mon_cycle);
    }
}

proof fn lemma_pid_bits(low: u16, high: u16)
    by (bit_vector)
    ensures
        ((high as u32) << 16) | (low as u32) == (high as u32) * 0x1_0000 + (low as u32),
        (high as u32) * 0x1_0000 + (low as u32) <= 0xFFFF_FFFF,
{
}

/// The personality value with these halves.
pub fn make_pid(low: u16, high: u16) -> (pid: u32)
    ensures
        pid == pid_of(low, high),
{
    proof {
        lemma_pid_bits(low, high);
    }
    ((high as u32) << 16) | (low as u32)
}

/// Draws a personality value: the lower half first.
pub fn draw_pid(rng: &mut Pokerng) -> (pid: u32)
    ensures
        pid == pair_pid(old(rng).state, 0),
        final(rng).state == lcg_advance(old(rng).state, 2),
{
    let ghost seed = rng.state;
    let low = rng.draw_at(Ghost(seed), Ghost(0));
    let high = rng.draw_at(Ghost(seed), Ghost(1));
    make_pid(low, high)
}

/// Draws the two words of individual values.
pub fn draw_ivs(rng: &mut Pokerng) -> (ivs: Ivs)
    ensures
        ivs == pair_ivs(old(rng).state, 0),
        ivs.wf(),
        final(rng).state == lcg_advance(old(rng).state, 2),
{
    let ghost seed = rng.state;
    let iv1 = rng.draw_at(Ghost(seed), Ghost(0));
    let iv2 = rng.draw_at(Ghost(seed), Ghost(1));
    Ivs::new_g3(iv1, iv2)
}

/// Whether a personality value has the nature, and the gender if one is
/// asked for, that the roll has settled on.
pub fn is_accepted(ratio: GenderRatio, target: &Target, pid: u32) -> (r: bool)
    ensures
        r == accepts(ratio, *target, pid),
{
    if pid % 25 != target.nature_rand as u32 {
        return false;
    }
    match target.gender {
        None => true,
        Some(gender) => ratio.gender_from_pid(pid) == gender,
    }
}

/// The creature with this personality value and these individual values, if
/// it satisfies the filter of the settings.
pub fn generate_3wild_end(
    settings: &Wild3GeneratorOptions,
    pid: u32,
    ivs: Ivs,
    target: &Target,
) -> (r: Option<GeneratedPokemon>)
    ensures
        r == kept(settings@, *target, pid, ivs),
{
    let shiny = gen3_shiny(pid, settings.tid, settings.sid);
    if settings.filter.shiny && !shiny {
        return None;
    }
    let ability = AbilityType::from_gen3_pid(pid);
    if let Some(wanted_ability) = settings.filter.ability {
        if ability != wanted_ability {
            return None;
        }
    }
    let gender = settings.gender_ratio.gender_from_pid(pid);
    if let Some(wanted_gender) = settings.filter.gender {
        if gender != wanted_gender {
            return None;
        }
    }
    if !passes_ivs_filter(settings, &ivs) {
        return None;
    }
    let nature = Nature::from_u8(target.nature_rand);
    if let Some(wanted_nature) = settings.filter.nature {
        if nature != wanted_nature {
            return None;
        }
    }
    Some(
        GeneratedPokemon {
            pid,
            shiny,
            ability,
            gender,
            ivs,
            nature,
            advance: settings.advance,
            encounter_slot: target.encounter_slot,
            synch: target.synch,
        },
    )
}

/// What method 2 yields, from the generator as it stands after the
/// personality value `pid`.
pub fn generate_3wild_method2(
    rng: Pokerng,
    settings: &Wild3GeneratorOptions,
    pid: u32,
    target: &Target,
) -> (r: Option<GeneratedPokemon>)
    ensures
        r == method2_outcome(rng.state, settings@, *target, pid),
{
    let mut rng = rng;
    let ghost seed = rng.state;
    rng.draw_at(Ghost(seed), Ghost(0));
    let iv1 = rng.draw_at(Ghost(seed), Ghost(1));
    let iv2 = rng.draw_at(Ghost(seed), Ghost(2));
    let ivs = Ivs::new_g3(iv1, iv2);
    generate_3wild_end(settings, pid, ivs, target)
}

/// What method 4 yields, from the generator as it stands after the first
/// word `iv1` of individual values.
pub fn generate_3wild_method4(
    rng: Pokerng,
    settings: &Wild3GeneratorOptions,
    pid: u32,
    target: &Target,
    iv1: u16,
) -> (r: Option<GeneratedPokemon>)
    ensures
        r == method4_outcome(rng.state, settings@, *target, pid, iv1),
{
    let mut rng = rng;
    let ghost seed = rng.state;
    rng.draw_at(Ghost(seed), Ghost(0));
    let iv2 = rng.draw_at(Ghost(seed), Ghost(1));
    let ivs = Ivs::new_g3(iv1, iv2);
    generate_3wild_end(settings, pid, ivs, target)
}

/// `rejected_before` with `by` more rejected pairs in front.
pub open spec fn later(found: Option<nat>, by: nat) -> Option<nat> {
    match found {
        Some(m) => Some(m + by),
        None => None,
    }
}

/// Draws personality values until one is accepted, and gives up at the
/// limit. Hands back the accepted value.
pub fn reroll(rng: &mut Pokerng, ratio: GenderRatio, target: &Target) -> (r: Option<u32>)
    ensures
        match rejected_before(old(rng).state, ratio, *target, REROLL_LIMIT as nat) {
            Some(m) => r == Some(pair_pid(old(rng).state, 2 * m)) && final(rng).state
                == lcg_advance(old(rng).state, 2 * m + 2),
            None => r is None && final(rng).state == lcg_advance(
                old(rng).state,
                2 * REROLL_LIMIT as nat,
            ),
        },
{
    let ghost seed = rng.state;
    let mut tries: u64 = 0;
    while tries < REROLL_LIMIT
        invariant
            tries <= REROLL_LIMIT,
            seed == old(rng).state,
            rng.state == lcg_advance(seed, 2 * tries as nat),
            rejected_before(seed, ratio, *target, REROLL_LIMIT as nat) == later(
                rejected_before(rng.state, ratio, *target, (REROLL_LIMIT - tries) as nat),
                tries as nat,
            ),
        decreases REROLL_LIMIT - tries,
    {
        let pid = draw_pid(rng);
        proof {
            lemma_rand16_shift(seed, 2 * tries as nat, 0);
            crate::rng::lemma_advance_add(seed, 2 * tries as nat, 2);
        }
        if is_accepted(ratio, target, pid) {
            return Some(pid);
        }
        tries += 1;
    }
    None
}

/// What method 5 yields, from the generator as it stands after a rejected
/// personality value.
pub fn generate_3wild_method5(
    rng: Pokerng,
    settings: &Wild3GeneratorOptions,
    target: &Target,
) -> (r: Option<GeneratedPokemon>)
    ensures
        r == method5_outcome(rng.state, settings@, *target),
{
    let mut rng = rng;
    rng.next_u16();
    finish_reroll(rng, settings, target)
}

/// What comes of drawing personality values from here until one is
/// accepted.
pub fn finish_reroll(
    rng: Pokerng,
    settings: &Wild3GeneratorOptions,
    target: &Target,
) -> (r: Option<GeneratedPokemon>)
    ensures
        r == reroll_outcome(rng.state, settings@, *target),
{
    let mut rng = rng;
    let ghost seed = rng.state;
    match reroll(&mut rng, settings.gender_ratio, target) {
        Some(pid) => {
            let ghost m = rejected_before(
                seed,
                settings.gender_ratio,
                *target,
                REROLL_LIMIT as nat,
            )->0;
            proof {
                lemma_rand16_shift(seed, 2 * m + 2, 0);
                lemma_rand16_shift(seed, 2 * m + 2, 1);
            }
            let ivs = draw_ivs(&mut rng);
            generate_3wild_end(settings, pid, ivs, target)
        },
        None => None,
    }
}

/// What comes of a draw lost after the lower half `pid_low` of a
/// personality value, from the generator as it stands after that half. The
/// flag says whether it is method 3: the personality value that the lost draw
/// leads to is accepted. If it is not, the result is what method 5 yields
/// from there.
pub fn generate_3wild_method3_or_5(
    rng: Pokerng,
    settings: &Wild3GeneratorOptions,
    pid_low: u16,
    target: &Target,
) -> (r: (bool, Option<GeneratedPokemon>))
    ensures
        r.0 == is_method3(rng.state, settings@, *target, pid_low),
        r.1 == method3_or_5_outcome(rng.state, settings@, *target, pid_low),
{
    let mut rng = rng;
    let ghost seed = rng.state;
    rng.draw_at(Ghost(seed), Ghost(0));
    let pid_high = rng.draw_at(Ghost(seed), Ghost(1));
    let pid = make_pid(pid_low, pid_high);
    if is_accepted(settings.gender_ratio, target, pid) {
        let iv1 = rng.draw_at(Ghost(seed), Ghost(2));
        let iv2 = rng.draw_at(Ghost(seed), Ghost(3));
        let ivs = Ivs::new_g3(iv1, iv2);
        (true, generate_3wild_end(settings, pid, ivs, target))
    } else {
        (false, finish_reroll(rng, settings, target))
    }
}

// ---------------------------------------------------------------------------
// What a roll yields
// ---------------------------------------------------------------------------

/// A creature with its window of cycles.
pub open spec fn window(start: int, end: int, gen_mon: GeneratedPokemon) -> GeneratedPokemonCycle {
    GeneratedPokemonCycle { cycle_start: start as u64, cycle_end: end as u64, gen_mon }
}

/// The index of the draw that is the lower half of the `j`-th personality
/// value.
pub open spec fn low_index(seed: u32, opts: Wild3GeneratorOptionsView, j: nat) -> nat {
    pid_base(seed, opts) + 2 * j
}

/// Whether a draw lost between the halves of the `j`-th personality value
/// gives method 3.
pub open spec fn first_window_is_method3(seed: u32, opts: Wild3GeneratorOptionsView, j: nat) -> bool {
    is_method3(
        lcg_advance(seed, low_index(seed, opts, j) + 1),
        opts,
        target_of(seed, opts),
        rand16(seed, low_index(seed, opts, j)),
    )
}

/// What comes of a draw lost between the halves of the `j`-th personality
/// value.
pub open spec fn first_window_outcome(
    seed: u32,
    opts: Wild3GeneratorOptionsView,
    j: nat,
) -> Option<GeneratedPokemon> {
    method3_or_5_outcome(
        lcg_advance(seed, low_index(seed, opts, j) + 1),
        opts,
        target_of(seed, opts),
        rand16(seed, low_index(seed, opts, j)),
    )
}

/// What comes of a draw lost after the `j`-th personality value, if that
/// value is rejected.
pub open spec fn second_window_outcome(
    seed: u32,
    opts: Wild3GeneratorOptionsView,
    j: nat,
) -> Option<GeneratedPokemon> {
    method5_outcome(lcg_advance(seed, low_index(seed, opts, j) + 2), opts, target_of(seed, opts))
}

/// The list of method 3 with what the window between the halves of the
/// `j`-th personality value adds to it.
#[verifier::opaque]
pub open spec fn method3_with(
    list: Seq<GeneratedPokemonCycle>,
    seed: u32,
    opts: Wild3GeneratorOptionsView,
    j: nat,
) -> Seq<GeneratedPokemonCycle> {
    match first_window_outcome(seed, opts, j) {
        Some(gen_mon) if wants(opts, Gen3Method::Wild3) && first_window_is_method3(
            seed,
            opts,
            j,
        ) => list.push(
            window(cycle_at(seed, opts, j), cycle_at(seed, opts, j) + half_gap(), gen_mon),
        ),
        _ => list,
    }
}

/// The list of method 5 with what the window between the halves of the
/// `j`-th personality value adds to it.
#[verifier::opaque]
pub open spec fn method5_with_first(
    list: Seq<GeneratedPokemonCycle>,
    seed: u32,
    opts: Wild3GeneratorOptionsView,
    j: nat,
) -> Seq<GeneratedPokemonCycle> {
    match first_window_outcome(seed, opts, j) {
        Some(gen_mon) if wants(opts, Gen3Method::Wild5) && !first_window_is_method3(
            seed,
            opts,
            j,
        ) => coalesced(
            list,
            window(cycle_at(seed, opts, j), cycle_at(seed, opts, j) + half_gap(), gen_mon),
        ),
        _ => list,
    }
}

/// The list of method 5 with what the window after the rejected `j`-th
/// personality value adds to it.
#[verifier::opaque]
pub open spec fn method5_with_second(
    list: Seq<GeneratedPokemonCycle>,
    seed: u32,
    opts: Wild3GeneratorOptionsView,
    j: nat,
) -> Seq<GeneratedPokemonCycle> {
    match second_window_outcome(seed, opts, j) {
        Some(gen_mon) if wants(opts, Gen3Method::Wild5) => coalesced(
            list,
            window(
                cycle_at(seed, opts, j) + half_gap(),
                cycle_at(seed, opts, j + 1),
                gen_mon,
            ),
        ),
        _ => list,
    }
}

/// The list of method 3 after the windows of the first `n` personality
/// values.
pub open spec fn method3_after(seed: u32, opts: Wild3GeneratorOptionsView, n: nat) -> Seq<
    GeneratedPokemonCycle,
>
    decreases n,
{
    if n == 0 {
        Seq::empty()
    } else {
        method3_with(method3_after(seed, opts, (n - 1) as nat), seed, opts, (n - 1) as nat)
    }
}

/// The list of method 5 after the windows of the first `n` personality
/// values, all of them rejected.
pub open spec fn method5_after(seed: u32, opts: Wild3GeneratorOptionsView, n: nat) -> Seq<
    GeneratedPokemonCycle,
>
    decreases n,
{
    if n == 0 {
        Seq::empty()
    } else {
        method5_with_second(
            method5_with_first(
                method5_after(seed, opts, (n - 1) as nat),
                seed,
                opts,
                (n - 1) as nat,
            ),
            seed,
            opts,
            (n - 1) as nat,
        )
    }
}

/// The number of personality values the roll draws: none if the slot does
/// not count, else one more than it rejects, and the limit if it accepts
/// none.
pub open spec fn roll_count(seed: u32, opts: Wild3GeneratorOptionsView) -> nat {
    if !slot_counts(seed, opts) {
        0
    } else {
        match rerolls(seed, opts) {
            Some(k) => k + 1,
            None => REROLL_LIMIT as nat,
        }
    }
}

/// Whether the roll comes to an accepted personality value.
pub open spec fn roll_completes(seed: u32, opts: Wild3GeneratorOptionsView) -> bool {
    slot_counts(seed, opts) && rerolls(seed, opts) is Some
}

/// The accepted personality value of a roll that completes.
pub open spec fn roll_pid(seed: u32, opts: Wild3GeneratorOptionsView) -> u32 {
    main_pid(seed, opts, rerolls(seed, opts)->0)
}

/// The index of the first draw after the accepted personality value.
pub open spec fn ivs_index(seed: u32, opts: Wild3GeneratorOptionsView) -> nat {
    low_index(seed, opts, rerolls(seed, opts)->0) + 2
}

/// The cycle count when the accepted personality value is complete.
pub open spec fn cycle_at_pid(seed: u32, opts: Wild3GeneratorOptionsView) -> int {
    cycle_at(seed, opts, rerolls(seed, opts)->0) + half_gap()
}

/// The number of draws the roll takes: one if the slot does not count; else
/// all up to the second word of individual values, or, if no personality
/// value is accepted, all up to the last rejected one.
pub open spec fn draws_used(seed: u32, opts: Wild3GeneratorOptionsView) -> nat {
    if !slot_counts(seed, opts) {
        1
    } else {
        match rerolls(seed, opts) {
            Some(k) => low_index(seed, opts, k) + 4,
            None => low_index(seed, opts, REROLL_LIMIT as nat),
        }
    }
}

/// What method 3 yields in a roll, in the order of its windows.
pub open spec fn roll_method3(seed: u32, opts: Wild3GeneratorOptionsView) -> Seq<
    GeneratedPokemonCycle,
> {
    method3_after(seed, opts, roll_count(seed, opts))
}

/// What method 5 yields in a roll, in the order of its windows, with
/// windows that continue each other merged.
pub open spec fn roll_method5(seed: u32, opts: Wild3GeneratorOptionsView) -> Seq<
    GeneratedPokemonCycle,
> {
    if !slot_counts(seed, opts) {
        Seq::empty()
    } else {
        match rerolls(seed, opts) {
            Some(k) => method5_with_first(method5_after(seed, opts, k), seed, opts, k),
            None => method5_after(seed, opts, REROLL_LIMIT as nat),
        }
    }
}

/// What method 2 yields in a roll.
pub open spec fn roll_method2(seed: u32, opts: Wild3GeneratorOptionsView) -> Option<
    GeneratedPokemonCycle,
> {
    if roll_completes(seed, opts) && wants(opts, Gen3Method::Wild2) {
        match method2_outcome(
            lcg_advance(seed, ivs_index(seed, opts)),
            opts,
            target_of(seed, opts),
            roll_pid(seed, opts),
        ) {
            Some(gen_mon) => Some(
                window(
                    cycle_at_pid(seed, opts),
                    cycle_at_pid(seed, opts) + method2_span(roll_pid(seed, opts)),
                    gen_mon,
                ),
            ),
            None => None,
        }
    } else {
        None
    }
}

/// What method 4 yields in a roll.
pub open spec fn roll_method4(seed: u32, opts: Wild3GeneratorOptionsView) -> Option<
    GeneratedPokemonCycle,
> {
    if roll_completes(seed, opts) && wants(opts, Gen3Method::Wild4) {
        match method4_outcome(
            lcg_advance(seed, ivs_index(seed, opts) + 1),
            opts,
            target_of(seed, opts),
            roll_pid(seed, opts),
            rand16(seed, ivs_index(seed, opts)),
        ) {
            Some(gen_mon) => Some(
                window(
                    cycle_at_pid(seed, opts) + method2_span(roll_pid(seed, opts)),
                    cycle_at_pid(seed, opts) + method2_span(roll_pid(seed, opts)) + method4_span(
                        roll_pid(seed, opts),
                    ),
                    gen_mon,
                ),
            ),
            None => None,
        }
    } else {
        None
    }
}

/// The cycle count at the second word of individual values.
pub open spec fn cycle_at_last_draw(seed: u32, opts: Wild3GeneratorOptionsView) -> int {
    cycle_at_pid(seed, opts) + method2_span(roll_pid(seed, opts)) + method4_span(
        roll_pid(seed, opts),
    )
}

/// What method 1 yields in a roll. Its window runs to the end of the frame,
/// and is empty if the last draw comes later than that.
pub open spec fn roll_method1(seed: u32, opts: Wild3GeneratorOptionsView) -> Option<
    GeneratedPokemonCycle,
> {
    if roll_completes(seed, opts) && wants(opts, Gen3Method::Wild1) {
        match kept(
            opts,
            target_of(seed, opts),
            roll_pid(seed, opts),
            pair_ivs(seed, ivs_index(seed, opts)),
        ) {
            Some(gen_mon) => Some(
                window(
                    cycle_at_last_draw(seed, opts),
                    if cycle_at_last_draw(seed, opts) < FRAME_CYCLES {
                        FRAME_CYCLES as int
                    } else {
                        cycle_at_last_draw(seed, opts)
                    },
                    gen_mon,
                ),
            ),
            None => None,
        }
    } else {
        None
    }
}

/// The cycles between the first draw of a personality value and the
/// accepted one.
pub open spec fn roll_reroll_cycles(seed: u32, opts: Wild3GeneratorOptionsView) -> int {
    if !slot_counts(seed, opts) {
        0
    } else {
        match rerolls(seed, opts) {
            Some(k) => cycle_at(seed, opts, k) + half_gap() - cycle_at_loop(seed, opts),
            None => cycle_at(seed, opts, REROLL_LIMIT as nat) - cycle_at_loop(seed, opts),
        }
    }
}

// ---------------------------------------------------------------------------
// The roll
// ---------------------------------------------------------------------------

/// How the lead bears on a roll with these settings.
pub fn influence_of(settings: &Wild3GeneratorOptions) -> (r: Influence)
    ensures
        r == influence(settings@),
{
    match settings.lead {
        None => Influence::Plain,
        Some(Gen3Lead::Synchronize(nature)) => Influence::Synchronize(nature),
        Some(Gen3Lead::CuteCharm(gender)) => if settings.gender_ratio.has_multiple_genders() {
            Influence::Charm(gender)
        } else {
            Influence::Plain
        },
    }
}

/// The slot that the selector, a draw modulo 100, falls into.
pub fn slot_for(settings: &Wild3GeneratorOptions, selector: u8) -> (r: EncounterSlot)
    ensures
        r == (if settings.mass_outbreak {
            settings.outbreak_slots.slot_of(selector as int)
        } else {
            EncounterSlot::of_rand(selector as int)
        }),
{
    if settings.mass_outbreak {
        settings.outbreak_slots.slot_for(selector)
    } else {
        EncounterSlot::from_rand(selector)
    }
}

/// No roll reaches its first personality value later than this.
pub const MAX_CYCLE_AT_LOOP: u64 = 150_000;

/// No rejected personality value costs more cycles than this.
pub const MAX_RETRY_CYCLES: u64 = 1293;

/// Settles the nature and, with a charm, the gender of the encounter, from
/// the generator as it stands after the level draw. Takes the cycle count at
/// the level draw and returns, with what was settled, the cycle count at the
/// first draw of a personality value.
fn pick_nature_and_gender(
    rng: &mut Pokerng,
    settings: &Wild3GeneratorOptions,
    encounter_slot: EncounterSlot,
    level_draw: u16,
    cycle: u64,
    Ghost(seed): Ghost<u32>,
) -> (r: (Target, u64))
    requires
        old(rng).state == lcg_advance(seed, 2),
        encounter_slot == rolled_slot(seed, settings@),
        level_draw == rand16(seed, 1),
        cycle == cycle_at_level(seed, settings@),
        cycle <= 48_000,
    ensures
        r.0 == target_of(seed, settings@),
        r.1 == cycle_at_loop(seed, settings@),
        r.1 <= MAX_CYCLE_AT_LOOP,
        r.0.nature_rand < 25,
        final(rng).state == lcg_advance(seed, pid_base(seed, settings@)),
{
    reveal(target_of);
    reveal(cycle_at_loop);
    let lead_cost: u64 = calc_modulo_cycle_u(settings.lead_pid, 24) as u64;
    let level_cost: u64 = calc_modulo_cycle_s(level_draw as i32, LEVEL_RANGE) as u64;
    let mut cycle = cycle;
    match influence_of(settings) {
        Influence::Plain => {
            cycle += level_cost;
            cycle += 36 * lead_cost;
            if settings.gender_ratio.has_multiple_genders() {
                cycle += 12 * lead_cost;
            }
            cycle += 30945;
            let nature_draw = rng.draw_at(Ghost(seed), Ghost(2));
            cycle += calc_modulo_cycle_u(nature_draw as u32, 25) as u64;
            cycle += 179;
            let target = Target {
                encounter_slot,
                nature_rand: (nature_draw % 25) as u8,
                gender: None,
                synch: false,
            };
            (target, cycle)
        },
        Influence::Synchronize(lead_nature) => {
            cycle += level_cost;
            cycle += 36 * lead_cost;
            if settings.gender_ratio.has_multiple_genders() {
                cycle += 12 * lead_cost;
            }
            cycle += 30945;
            let synch_draw = rng.draw_at(Ghost(seed), Ghost(2));
            if synch_draw % 2 == 0 {
                cycle += 389 + calc_modulo_cycle_u(settings.lead_pid, 25) as u64;
                let target = Target {
                    encounter_slot,
                    nature_rand: lead_nature.to_u8(),
                    gender: None,
                    synch: true,
                };
                (target, cycle)
            } else {
                cycle += 96;
                let nature_draw = rng.draw_at(Ghost(seed), Ghost(3));
                cycle += calc_modulo_cycle_u(nature_draw as u32, 25) as u64;
                cycle += 179;
                let target = Target {
                    encounter_slot,
                    nature_rand: (nature_draw % 25) as u8,
                    gender: None,
                    synch: false,
                };
                (target, cycle)
            }
        },
        Influence::Charm(lead_gender) => {
            cycle += level_cost;
            cycle += 20 * lead_cost;
            cycle += 12 * lead_cost;
            cycle += 25182;
            let charm_draw = rng.draw_at(Ghost(seed), Ghost(2));
            cycle += calc_modulo_cycle_u(charm_draw as u32, 3) as u64;
            if charm_draw % 3 != 0 {
                cycle += 24 * lead_cost;
                cycle += 8786;
                let nature_draw = rng.draw_at(Ghost(seed), Ghost(3));
                cycle += calc_modulo_cycle_u(nature_draw as u32, 25) as u64;
                cycle += 223;
                let target = Target {
                    encounter_slot,
                    nature_rand: (nature_draw % 25) as u8,
                    gender: Some(lead_gender.attracted()),
                    synch: false,
                };
                (target, cycle)
            } else {
                cycle += 16 * lead_cost;
                cycle += 5863;
                let nature_draw = rng.draw_at(Ghost(seed), Ghost(3));
                cycle += calc_modulo_cycle_u(nature_draw as u32, 25) as u64;
                cycle += 179;
                let target = Target {
                    encounter_slot,
                    nature_rand: (nature_draw % 25) as u8,
                    gender: None,
                    synch: false,
                };
                (target, cycle)
            }
        },
    }
}

/// Records what comes of a draw lost between the halves of the `j`-th
/// personality value, from the generator as it stands after the lower half.
fn first_window(
    gen_mons: &mut GeneratedPokemons,
    rng: Pokerng,
    settings: &Wild3GeneratorOptions,
    target: &Target,
    pid_low: u16,
    cycle: u64,
    want3: bool,
    want5: bool,
    Ghost(seed): Ghost<u32>,
    Ghost(j): Ghost<nat>,
)
    requires
        rng.state == lcg_advance(seed, low_index(seed, settings@, j) + 1),
        pid_low == rand16(seed, low_index(seed, settings@, j)),
        *target == target_of(seed, settings@),
        cycle == cycle_at(seed, settings@, j),
        cycle <= u64::MAX - 80,
        want3 == wants(settings@, Gen3Method::Wild3),
        want5 == wants(settings@, Gen3Method::Wild5),
    ensures
        final(gen_mons).method3@ == method3_with(old(gen_mons).method3@, seed, settings@, j),
        final(gen_mons).method5@ == method5_with_first(
            old(gen_mons).method5@,
            seed,
            settings@,
            j,
        ),
        is_coalesced(old(gen_mons).method5@) ==> is_coalesced(final(gen_mons).method5@),
        final(gen_mons).method1 == old(gen_mons).method1,
        final(gen_mons).method2 == old(gen_mons).method2,
        final(gen_mons).method4 == old(gen_mons).method4,
        final(gen_mons).pid_reroll_cycle == old(gen_mons).pid_reroll_cycle,
        final(gen_mons).pid_reroll_count == old(gen_mons).pid_reroll_count,
{
    reveal(method3_with);
    reveal(method5_with_first);
    if want3 || want5 {
        let (method3, found) = generate_3wild_method3_or_5(rng, settings, pid_low, target);
        if let Some(gen_mon) = found {
            let gen_mon_cycle = GeneratedPokemonCycle {
                cycle_start: cycle,
                cycle_end: cycle + 80,
                gen_mon,
            };
            if method3 {
                if want3 {
                    gen_mons.method3.push(gen_mon_cycle);
                }
            } else {
                if want5 {
                    gen_mons.add_method5(gen_mon_cycle);
                }
            }
        }
    }
}

/// Records what comes of a draw lost after the rejected `j`-th personality
/// value, from the generator as it stands after that value.
fn second_window(
    gen_mons: &mut GeneratedPokemons,
    rng: Pokerng,
    settings: &Wild3GeneratorOptions,
    target: &Target,
    cycle_start: u64,
    cycle_end: u64,
    want5: bool,
    Ghost(seed): Ghost<u32>,
    Ghost(j): Ghost<nat>,
)
    requires
        rng.state == lcg_advance(seed, low_index(seed, settings@, j) + 2),
        *target == target_of(seed, settings@),
        cycle_start == cycle_at(seed, settings@, j) + half_gap(),
        cycle_end == cycle_at(seed, settings@, j + 1),
        want5 == wants(settings@, Gen3Method::Wild5),
    ensures
        final(gen_mons).method5@ == method5_with_second(
            old(gen_mons).method5@,
            seed,
            settings@,
            j,
        ),
        is_coalesced(old(gen_mons).method5@) ==> is_coalesced(final(gen_mons).method5@),
        final(gen_mons).method1 == old(gen_mons).method1,
        final(gen_mons).method2 == old(gen_mons).method2,
        final(gen_mons).method3 == old(gen_mons).method3,
        final(gen_mons).method4 == old(gen_mons).method4,
        final(gen_mons).pid_reroll_cycle == old(gen_mons).pid_reroll_cycle,
        final(gen_mons).pid_reroll_count == old(gen_mons).pid_reroll_count,
{
    reveal(method5_with_second);
    if want5 {
        if let Some(gen_mon) = generate_3wild_method5(rng, settings, target) {
            gen_mons.add_method5(GeneratedPokemonCycle { cycle_start, cycle_end, gen_mon });
        }
    }
}

/// Draws personality values until one is accepted, and records what methods
/// 3 and 5 yield on the way. Takes the cycle count at the first draw and
/// returns the accepted value, if there is one within the limit, with the
/// cycle count after the last draw.
fn draw_personality_value(
    gen_mons: &mut GeneratedPokemons,
    rng: &mut Pokerng,
    settings: &Wild3GeneratorOptions,
    target: &Target,
    cycle: u64,
    Ghost(seed): Ghost<u32>,
) -> (r: (Option<u32>, u64))
    requires
        old(rng).state == lcg_advance(seed, pid_base(seed, settings@)),
        *target == target_of(seed, settings@),
        cycle == cycle_at_loop(seed, settings@),
        cycle <= MAX_CYCLE_AT_LOOP,
        old(gen_mons).method1 is None,
        old(gen_mons).method2 is None,
        old(gen_mons).method3@.len() == 0,
        old(gen_mons).method4 is None,
        old(gen_mons).method5@.len() == 0,
    ensures
        r.0 is Some == rerolls(seed, settings@) is Some,
        r.0 matches Some(pid) ==> {
            let k = rerolls(seed, settings@)->0;
            &&& k < REROLL_LIMIT
            &&& pid == main_pid(seed, settings@, k)
            &&& final(rng).state == lcg_advance(seed, low_index(seed, settings@, k) + 2)
            &&& r.1 == cycle_at(seed, settings@, k) + half_gap()
            &&& final(gen_mons).pid_reroll_count == k + 1
            &&& final(gen_mons).method3@ == method3_after(seed, settings@, k + 1)
            &&& final(gen_mons).method5@ == method5_with_first(
                method5_after(seed, settings@, k),
                seed,
                settings@,
                k,
            )
        },
        r.0 is None ==> {
            &&& final(rng).state == lcg_advance(
                seed,
                low_index(seed, settings@, REROLL_LIMIT as nat),
            )
            &&& r.1 == cycle_at(seed, settings@, REROLL_LIMIT as nat)
            &&& final(gen_mons).pid_reroll_count == REROLL_LIMIT
            &&& final(gen_mons).method3@ == method3_after(seed, settings@, REROLL_LIMIT as nat)
            &&& final(gen_mons).method5@ == method5_after(seed, settings@, REROLL_LIMIT as nat)
        },
        r.1 <= MAX_CYCLE_AT_LOOP + MAX_RETRY_CYCLES * REROLL_LIMIT + 80,
        r.1 >= cycle,
        final(gen_mons).pid_reroll_cycle == r.1 - cycle,
        is_coalesced(final(gen_mons).method5@),
        final(gen_mons).method1 is None,
        final(gen_mons).method2 is None,
        final(gen_mons).method4 is None,
{
    let loop_cycle = cycle;
    let mut cycle = cycle;
    let want3 = Gen3Method::Wild3.is_in(&settings.methods);
    let want5 = Gen3Method::Wild5.is_in(&settings.methods);
    let ghost base = pid_base(seed, settings@);
    let mut count: u64 = 0;
    let mut accepted: Option<u32> = None;
    while count < REROLL_LIMIT
        invariant_except_break
            accepted is None,
            rng.state == lcg_advance(seed, base + 2 * count as nat),
            cycle == cycle_at(seed, settings@, count as nat),
            cycle <= MAX_CYCLE_AT_LOOP + MAX_RETRY_CYCLES * count,
            gen_mons.method3@ == method3_after(seed, settings@, count as nat),
            gen_mons.method5@ == method5_after(seed, settings@, count as nat),
            rerolls(seed, settings@) == later(
                rejected_before(
                    rng.state,
                    settings.gender_ratio,
                    *target,
                    (REROLL_LIMIT - count) as nat,
                ),
                count as nat,
            ),
        invariant
            count <= REROLL_LIMIT,
            base == pid_base(seed, settings@),
            *target == target_of(seed, settings@),
            want3 == wants(settings@, Gen3Method::Wild3),
            want5 == wants(settings@, Gen3Method::Wild5),
            loop_cycle <= cycle <= MAX_CYCLE_AT_LOOP + MAX_RETRY_CYCLES * count + 80,
            is_coalesced(gen_mons.method5@),
            gen_mons.method1 is None,
            gen_mons.method2 is None,
            gen_mons.method4 is None,
        ensures
            accepted is Some ==> {
                &&& count < REROLL_LIMIT
                &&& rerolls(seed, settings@) == Some(count as nat)
                &&& accepted == Some(main_pid(seed, settings@, count as nat))
                &&& rng.state == lcg_advance(seed, base + 2 * count as nat + 2)
                &&& cycle == cycle_at(seed, settings@, count as nat) + half_gap()
                &&& gen_mons.method3@ == method3_after(seed, settings@, (count + 1) as nat)
                &&& gen_mons.method5@ == method5_with_first(
                    method5_after(seed, settings@, count as nat),
                    seed,
                    settings@,
                    count as nat,
                )
            },
            accepted is None ==> {
                &&& count == REROLL_LIMIT
                &&& rerolls(seed, settings@) is None
                &&& rng.state == lcg_advance(seed, base + 2 * count as nat)
                &&& cycle == cycle_at(seed, settings@, count as nat)
                &&& gen_mons.method3@ == method3_after(seed, settings@, count as nat)
                &&& gen_mons.method5@ == method5_after(seed, settings@, count as nat)
            },
        decreases REROLL_LIMIT - count,
    {
        let ghost j = count as nat;
        proof {
            lemma_rand16_shift(seed, base + 2 * j, 0);
            crate::rng::lemma_advance_add(seed, base + 2 * j, 2);
        }
        let pid_low = rng.draw_at(Ghost(seed), Ghost(base + 2 * j));
        first_window(
            gen_mons,
            *rng,
            settings,
            target,
            pid_low,
            cycle,
            want3,
            want5,
            Ghost(seed),
            Ghost(j),
        );
        cycle += 80;

        let pid_high = rng.draw_at(Ghost(seed), Ghost(base + 2 * j + 1));
        let pid = make_pid(pid_low, pid_high);
        if is_accepted(settings.gender_ratio, target, pid) {
            accepted = Some(pid);
            break ;
        }
        let retry_cycle: u64 = if pid % 25 == target.nature_rand as u32 {
            140
        } else {
            158
        };
        let method5_range: u64 = retry_cycle + calc_modulo_cycle_u(pid, 25) as u64;
        second_window(
            gen_mons,
            *rng,
            settings,
            target,
            cycle,
            cycle + method5_range,
            want5,
            Ghost(seed),
            Ghost(j),
        );
        cycle += method5_range;
        count += 1;
    }
    gen_mons.pid_reroll_cycle = cycle - loop_cycle;
    match accepted {
        None => {
            gen_mons.pid_reroll_count = REROLL_LIMIT as usize;
        },
        Some(_) => {
            gen_mons.pid_reroll_count = (count + 1) as usize;
        },
    }
    (accepted, cycle)
}

/// Draws the individual values after the accepted personality value and
/// records what methods 2, 4 and 1 yield.
fn draw_individual_values(
    gen_mons: &mut GeneratedPokemons,
    rng: &mut Pokerng,
    settings: &Wild3GeneratorOptions,
    target: &Target,
    pid: u32,
    cycle: u64,
    Ghost(seed): Ghost<u32>,
)
    requires
        roll_completes(seed, settings@),
        old(rng).state == lcg_advance(seed, ivs_index(seed, settings@)),
        *target == target_of(seed, settings@),
        pid == roll_pid(seed, settings@),
        cycle == cycle_at_pid(seed, settings@),
        cycle <= MAX_CYCLE_AT_LOOP + MAX_RETRY_CYCLES * REROLL_LIMIT + 80,
    ensures
        final(gen_mons).method1 == roll_method1(seed, settings@),
        final(gen_mons).method2 == roll_method2(seed, settings@),
        final(gen_mons).method4 == roll_method4(seed, settings@),
        final(gen_mons).method3 == old(gen_mons).method3,
        final(gen_mons).method5 == old(gen_mons).method5,
        final(gen_mons).pid_reroll_cycle == old(gen_mons).pid_reroll_cycle,
        final(gen_mons).pid_reroll_count == old(gen_mons).pid_reroll_count,
        final(rng).state == lcg_advance(seed, ivs_index(seed, settings@) + 2),
{
    let want1 = Gen3Method::Wild1.is_in(&settings.methods);
    let want2 = Gen3Method::Wild2.is_in(&settings.methods);
    let want4 = Gen3Method::Wild4.is_in(&settings.methods);
    let ghost e = ivs_index(seed, settings@);
    let mut cycle = cycle;
    gen_mons.method1 = None;
    gen_mons.method2 = None;
    gen_mons.method4 = None;
    let cost24: u64 = calc_modulo_cycle_u(pid, 24) as u64;
    let method2_range: u64 = calc_modulo_cycle_u(pid, 25) as u64 + 100 * cost24 + 36900;
    if want2 {
        if let Some(gen_mon) = generate_3wild_method2(*rng, settings, pid, target) {
            gen_mons.method2 = Some(
                GeneratedPokemonCycle {
                    cycle_start: cycle,
                    cycle_end: cycle + method2_range,
                    gen_mon,
                },
            );
        }
    }
    cycle += method2_range;

    let iv1 = rng.draw_at(Ghost(seed), Ghost(e));
    let method4_range: u64 = 36 * cost24 + 11103;
    if want4 {
        if let Some(gen_mon) = generate_3wild_method4(*rng, settings, pid, target, iv1) {
            gen_mons.method4 = Some(
                GeneratedPokemonCycle {
                    cycle_start: cycle,
                    cycle_end: cycle + method4_range,
                    gen_mon,
                },
            );
        }
    }
    cycle += method4_range;

    let iv2 = rng.draw_at(Ghost(seed), Ghost(e + 1));
    if want1 {
        let ivs = Ivs::new_g3(iv1, iv2);
        if let Some(gen_mon) = generate_3wild_end(settings, pid, ivs, target) {
            let cycle_end: u64 = if cycle < FRAME_CYCLES {
                FRAME_CYCLES
            } else {
                cycle
            };
            gen_mons.method1 = Some(
                GeneratedPokemonCycle { cycle_start: cycle, cycle_end, gen_mon },
            );
        }
    }
}

/// One roll of a wild encounter from the generator as it stands: what each
/// method yields, each creature with the cycles between which the frame's
/// interrupt has to fall for it.
///
/// The roll draws the slot and ends there, with nothing, if the slot does
/// not count. It draws the level, settles the nature and, with a charm, the
/// gender, and then draws personality values until one has that nature and
/// gender. A draw lost between the halves of a value gives method 3 if the
/// value it leads to is accepted, and method 5 if not; a draw lost after a
/// rejected value gives method 5. After the accepted value the roll draws
/// the two words of individual values; a draw lost before the first gives
/// method 2, one lost between them method 4, and none lost method 1. The
/// generator is left after the last draw of the roll.
pub fn generate_pokemons(rng: &mut Pokerng, settings: &Wild3GeneratorOptions) -> (r:
    GeneratedPokemons)
    ensures
        r.method1 == roll_method1(old(rng).state, settings@),
        r.method2 == roll_method2(old(rng).state, settings@),
        r.method3@ == roll_method3(old(rng).state, settings@),
        r.method4 == roll_method4(old(rng).state, settings@),
        r.method5@ == roll_method5(old(rng).state, settings@),
        r.pid_reroll_count == roll_count(old(rng).state, settings@),
        r.pid_reroll_cycle == roll_reroll_cycles(old(rng).state, settings@),
        final(rng).state == lcg_advance(
            old(rng).state,
            draws_used(old(rng).state, settings@),
        ),
        is_coalesced(r.method5@),
{
    let ghost seed = rng.state;
    let mut gen_mons = GeneratedPokemons::new();
    let lead_cost: u64 = calc_modulo_cycle_u(settings.lead_pid, 24) as u64;
    let mut cycle: u64 = 12059 + 32 * lead_cost;

    let encounter_rand_val = rng.draw_at(Ghost(seed), Ghost(0));
    let encounter_rand = (encounter_rand_val % 100) as u8;
    let encounter_slot = slot_for(settings, encounter_rand);
    cycle += 378 + calc_modulo_cycle_u(encounter_rand_val as u32, 100) as u64;

    if !EncounterSlot::passes_filter(&settings.encounter_slot, encounter_slot) {
        return gen_mons;
    }
    let level_draw = rng.draw_at(Ghost(seed), Ghost(1));
    let (target, loop_cycle) = pick_nature_and_gender(
        rng,
        settings,
        encounter_slot,
        level_draw,
        cycle,
        Ghost(seed),
    );
    let (accepted, pid_cycle) = draw_personality_value(
        &mut gen_mons,
        rng,
        settings,
        &target,
        loop_cycle,
        Ghost(seed),
    );
    if let Some(pid) = accepted {
        draw_individual_values(&mut gen_mons, rng, settings, &target, pid, pid_cycle, Ghost(seed));
    }
    gen_mons
}

} // verus!
