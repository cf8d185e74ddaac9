//! The mathematical model of one wild-encounter roll.
//!
//! A roll is a function of the generator state it starts from and of the
//! options. The draws it makes are the draws `rand16(seed, 0)`,
//! `rand16(seed, 1)`, ... of the stream that starts at that state; this
//! module says which draw decides what, what each of the five methods yields,
//! and what every step costs in cycles.

use vstd::prelude::*;
use crate::gen3::{table_slot, EncounterSlot, Gen3Lead, Gen3Method};
use crate::generator::{ivs_pass, Wild3GeneratorOptionsView};
use crate::modulo_cycle_count_calc::{modulo_cycles_s, modulo_cycles_u};
use crate::pkm::{ability_of_pid, is_shiny, Gender, GenderRatio, Ivs, Nature};
use crate::rng::{lcg_advance, lcg_next, rand16};

verus! {

/// A creature that a roll yields.
#[derive(Clone, Copy, Debug, PartialEq, Eq, Structural)]
pub struct GeneratedPokemon {
    pub pid: u32,
    pub shiny: bool,
    pub ability: crate::pkm::AbilityType,
    pub gender: Gender,
    pub ivs: Ivs,
    pub nature: Nature,
    /// The advance the options label the roll with.
    pub advance: usize,
    pub encounter_slot: EncounterSlot,
    /// Whether the nature was handed on by the lead.
    pub synch: bool,
}

/// What a roll has settled before it draws personality values.
#[derive(Clone, Copy, Debug, PartialEq, Eq, Structural)]
pub struct Target {
    /// The slot of the encounter.
    pub encounter_slot: EncounterSlot,
    /// The number of the nature that the personality value must encode.
    pub nature_rand: u8,
    /// The gender that the personality value must encode, if the lead draws
    /// the encounter to one.
    pub gender: Option<Gender>,
    /// Whether the nature was handed on by the lead.
    pub synch: bool,
}

/// How the lead creature bears on a roll.
#[derive(Clone, Copy, Debug, PartialEq, Eq, Structural)]
pub enum Influence {
    /// Not at all: no lead ability, or a charm on a species of one gender.
    Plain,
    /// It may hand on this nature.
    Synchronize(Nature),
    /// It, of this gender, may draw the encounter to the other gender.
    Charm(Gender),
}

/// The search for an accepted personality value gives up after this many
/// pairs of draws. The generator's states repeat after 2^32 steps, so a search
/// that has drawn 2^31 pairs has seen every pair it can ever draw.
pub const REROLL_LIMIT: u64 = 0x8000_0000;

/// The length of a frame in cycles. A roll that loses no draw holds from its
/// last draw to the end of the frame.
pub const FRAME_CYCLES: u64 = 280_896;

/// The level range of the slot, by which the game divides the level draw.
pub const LEVEL_RANGE: i32 = 1;

// ---------------------------------------------------------------------------
// Personality values and what is asked of them
// ---------------------------------------------------------------------------

/// The personality value made of two draws: the second one is its upper
/// half.
pub open spec fn pid_of(low: u16, high: u16) -> u32 {
    (high as int * 0x1_0000 + low as int) as u32
}

/// The personality value made of the draws `i` and `i + 1` of a stream.
pub open spec fn pair_pid(state: u32, i: nat) -> u32 {
    pid_of(rand16(state, i), rand16(state, i + 1))
}

/// The individual values made of the draws `i` and `i + 1` of a stream.
pub open spec fn pair_ivs(state: u32, i: nat) -> Ivs {
    Ivs::decode(rand16(state, i), rand16(state, i + 1))
}

/// Whether a personality value has the nature, and the gender if one is
/// asked for, that the roll has settled on.
pub open spec fn accepts(ratio: GenderRatio, target: Target, pid: u32) -> bool {
    &&& pid as int % 25 == target.nature_rand as int
    &&& target.gender matches Some(g) ==> ratio.spec_gender_from_pid(pid) == g
}

/// The creature with this personality value and these individual values.
pub open spec fn creature(
    opts: Wild3GeneratorOptionsView,
    target: Target,
    pid: u32,
    ivs: Ivs,
) -> GeneratedPokemon {
    GeneratedPokemon {
        pid,
        shiny: is_shiny(pid, opts.tid, opts.sid),
        ability: ability_of_pid(pid),
        gender: opts.gender_ratio.spec_gender_from_pid(pid),
        ivs,
        nature: Nature::of_index(target.nature_rand as int % 25),
        advance: opts.advance,
        encounter_slot: target.encounter_slot,
        synch: target.synch,
    }
}

/// Whether the creature satisfies the filter of the options.
pub open spec fn end_passes(
    opts: Wild3GeneratorOptionsView,
    target: Target,
    pid: u32,
    ivs: Ivs,
) -> bool {
    &&& opts.filter.shiny ==> is_shiny(pid, opts.tid, opts.sid)
    &&& opts.filter.ability matches Some(a) ==> ability_of_pid(pid) == a
    &&& opts.filter.gender matches Some(g) ==> opts.gender_ratio.spec_gender_from_pid(pid) == g
    &&& ivs_pass(opts, ivs)
    &&& opts.filter.nature matches Some(n) ==> Nature::of_index(target.nature_rand as int % 25)
        == n
}

/// The creature, if it satisfies the filter.
pub open spec fn kept(
    opts: Wild3GeneratorOptionsView,
    target: Target,
    pid: u32,
    ivs: Ivs,
) -> Option<GeneratedPokemon> {
    if end_passes(opts, target, pid, ivs) {
        Some(creature(opts, target, pid, ivs))
    } else {
        None
    }
}

// ---------------------------------------------------------------------------
// The methods that lose a draw, each from the state where the draw is lost
// ---------------------------------------------------------------------------

/// The number of pairs that are rejected before the first accepted one, among
/// the first `fuel` pairs of a stream; `None` if none of those is accepted.
pub open spec fn rejected_before(
    state: u32,
    ratio: GenderRatio,
    target: Target,
    fuel: nat,
) -> Option<nat>
    decreases fuel,
{
    if fuel == 0 {
        None
    } else if accepts(ratio, target, pair_pid(state, 0)) {
        Some(0)
    } else {
        match rejected_before(lcg_advance(state, 2), ratio, target, (fuel - 1) as nat) {
            Some(m) => Some(m + 1),
            None => None,
        }
    }
}

/// What comes of drawing pairs from `state` until one is accepted: the
/// creature of that pair and of the two draws after it, if it satisfies the
/// filter. With no accepted pair within the limit nothing comes of it.
pub open spec fn reroll_outcome(
    state: u32,
    opts: Wild3GeneratorOptionsView,
    target: Target,
) -> Option<GeneratedPokemon> {
    match rejected_before(state, opts.gender_ratio, target, REROLL_LIMIT as nat) {
        Some(m) => kept(opts, target, pair_pid(state, 2 * m), pair_ivs(state, 2 * m + 2)),
        None => None,
    }
}

/// Method 2, from the state after the personality value: a draw is lost, the
/// next two are the individual values.
pub open spec fn method2_outcome(
    state: u32,
    opts: Wild3GeneratorOptionsView,
    target: Target,
    pid: u32,
) -> Option<GeneratedPokemon> {
    kept(opts, target, pid, pair_ivs(state, 1))
}

/// Method 4, from the state after the first word of individual values: a
/// draw is lost, the next is the second word.
pub open spec fn method4_outcome(
    state: u32,
    opts: Wild3GeneratorOptionsView,
    target: Target,
    pid: u32,
    iv1: u16,
) -> Option<GeneratedPokemon> {
    kept(opts, target, pid, Ivs::decode(iv1, rand16(state, 1)))
}

/// Method 5, from the state after a rejected personality value: a draw is
/// lost, then pairs are drawn until one is accepted.
pub open spec fn method5_outcome(
    state: u32,
    opts: Wild3GeneratorOptionsView,
    target: Target,
) -> Option<GeneratedPokemon> {
    reroll_outcome(lcg_next(state), opts, target)
}

/// The personality value of method 3, from the state after its lower half:
/// a draw is lost, the next is the upper half.
pub open spec fn method3_pid(state: u32, pid_low: u16) -> u32 {
    pid_of(pid_low, rand16(state, 1))
}

/// Whether a lost draw after the lower half `pid_low` gives method 3: the
/// personality value it leads to is accepted.
pub open spec fn is_method3(
    state: u32,
    opts: Wild3GeneratorOptionsView,
    target: Target,
    pid_low: u16,
) -> bool {
    accepts(opts.gender_ratio, target, method3_pid(state, pid_low))
}

/// What comes of a lost draw after the lower half `pid_low`: with an
/// accepted personality value, the creature of method 3, made with the two
/// draws that follow; with a rejected one, what method 5 yields from there.
pub open spec fn method3_or_5_outcome(
    state: u32,
    opts: Wild3GeneratorOptionsView,
    target: Target,
    pid_low: u16,
) -> Option<GeneratedPokemon> {
    if is_method3(state, opts, target, pid_low) {
        kept(opts, target, method3_pid(state, pid_low), pair_ivs(state, 2))
    } else {
        reroll_outcome(lcg_advance(state, 2), opts, target)
    }
}

// ---------------------------------------------------------------------------
// The roll up to the personality value
// ---------------------------------------------------------------------------

/// Whether a method is among those the options ask for.
pub open spec fn wants(opts: Wild3GeneratorOptionsView, method: Gen3Method) -> bool {
    opts.methods.contains(method)
}

/// The slot that the first draw selects.
pub open spec fn rolled_slot(seed: u32, opts: Wild3GeneratorOptionsView) -> EncounterSlot {
    let selector = rand16(seed, 0) as int % 100;
    if opts.mass_outbreak {
        table_slot(opts.outbreak_slots, selector)
    } else {
        EncounterSlot::of_rand(selector)
    }
}

/// Whether the selected slot is one that counts.
pub open spec fn slot_counts(seed: u32, opts: Wild3GeneratorOptionsView) -> bool {
    EncounterSlot::allowed(opts.encounter_slot, rolled_slot(seed, opts))
}

/// How the lead bears on a roll with these options. A charm has no hold on
/// a species of a single gender.
pub open spec fn influence(opts: Wild3GeneratorOptionsView) -> Influence {
    match opts.lead {
        None => Influence::Plain,
        Some(Gen3Lead::Synchronize(nature)) => Influence::Synchronize(nature),
        Some(Gen3Lead::CuteCharm(gender)) => if opts.gender_ratio.spec_has_multiple_genders() {
            Influence::Charm(gender)
        } else {
            Influence::Plain
        },
    }
}

/// Whether the lead hands its nature on: it can, and the third draw is even.
pub open spec fn synchronized(seed: u32, opts: Wild3GeneratorOptionsView) -> bool {
    influence(opts) is Synchronize && rand16(seed, 2) as int % 2 == 0
}

/// The index of the first draw of a personality value: the fourth draw, or
/// the fifth if the lead's influence has taken a draw of its own.
pub open spec fn pid_base(seed: u32, opts: Wild3GeneratorOptionsView) -> nat {
    match influence(opts) {
        Influence::Plain => 3,
        Influence::Synchronize(_) => if synchronized(seed, opts) {
            3
        } else {
            4
        },
        Influence::Charm(_) => 4,
    }
}

/// What the roll settles on: the slot of the first draw; the nature of the
/// lead if it hands it on, else the nature whose number is the last draw
/// before the personality value, modulo 25; and, with a charm whose draw is
/// not a multiple of three, the gender the lead draws the encounter to.
#[verifier::opaque]
pub open spec fn target_of(seed: u32, opts: Wild3GeneratorOptionsView) -> Target {
    Target {
        encounter_slot: rolled_slot(seed, opts),
        nature_rand: match influence(opts) {
            Influence::Synchronize(nature) if synchronized(seed, opts) => nature.index() as u8,
            _ => (rand16(seed, (pid_base(seed, opts) - 1) as nat) as int % 25) as u8,
        },
        gender: match influence(opts) {
            Influence::Charm(gender) if rand16(seed, 2) as int % 3 != 0 => Some(
                gender.opposite(),
            ),
            _ => None,
        },
        synch: synchronized(seed, opts),
    }
}

/// What the division of the lead's personality value by 24 costs.
pub open spec fn lead_cost(opts: Wild3GeneratorOptionsView) -> int {
    modulo_cycles_u(opts.lead_pid, 24)
}

/// The cycle count when the level is drawn.
pub open spec fn cycle_at_level(seed: u32, opts: Wild3GeneratorOptionsView) -> int {
    12059 + 32 * lead_cost(opts) + 378 + modulo_cycles_u(rand16(seed, 0) as u32, 100)
}

/// The cycles between the level draw and the draw of the nature, without a
/// charm.
pub open spec fn cycles_to_nature(seed: u32, opts: Wild3GeneratorOptionsView) -> int {
    modulo_cycles_s(rand16(seed, 1) as i32, LEVEL_RANGE) + 36 * lead_cost(opts) + (
    if opts.gender_ratio.spec_has_multiple_genders() {
        12 * lead_cost(opts)
    } else {
        0
    }) + 30945
}

/// The cycles from the draw of a nature to the first draw of a personality
/// value.
pub open spec fn cycles_of_nature_draw(draw: u16, after: int) -> int {
    modulo_cycles_u(draw as u32, 25) + after
}

/// The cycle count at the first draw of a personality value.
#[verifier::opaque]
pub open spec fn cycle_at_loop(seed: u32, opts: Wild3GeneratorOptionsView) -> int {
    cycle_at_level(seed, opts) + match influence(opts) {
        Influence::Plain => cycles_to_nature(seed, opts) + cycles_of_nature_draw(
            rand16(seed, 2),
            179,
        ),
        Influence::Synchronize(_) => cycles_to_nature(seed, opts) + if synchronized(seed, opts) {
            389 + modulo_cycles_u(opts.lead_pid, 25)
        } else {
            96 + cycles_of_nature_draw(rand16(seed, 3), 179)
        },
        Influence::Charm(_) => modulo_cycles_s(rand16(seed, 1) as i32, LEVEL_RANGE) + 32
            * lead_cost(opts) + 25182 + modulo_cycles_u(rand16(seed, 2) as u32, 3) + if rand16(
            seed,
            2,
        ) as int % 3 != 0 {
            24 * lead_cost(opts) + 8786 + cycles_of_nature_draw(rand16(seed, 3), 223)
        } else {
            16 * lead_cost(opts) + 5863 + cycles_of_nature_draw(rand16(seed, 3), 179)
        },
    }
}

// ---------------------------------------------------------------------------
// The personality values
// ---------------------------------------------------------------------------

/// The `j`-th personality value that the roll draws.
pub open spec fn main_pid(seed: u32, opts: Wild3GeneratorOptionsView, j: nat) -> u32 {
    pair_pid(seed, pid_base(seed, opts) + 2 * j)
}

/// The number of personality values that the roll rejects before it accepts
/// one; `None` if it accepts none within the limit.
pub open spec fn rerolls(seed: u32, opts: Wild3GeneratorOptionsView) -> Option<nat> {
    rejected_before(
        lcg_advance(seed, pid_base(seed, opts)),
        opts.gender_ratio,
        target_of(seed, opts),
        REROLL_LIMIT as nat,
    )
}

/// The cycles between the two halves of a personality value.
pub open spec fn half_gap() -> int {
    80
}

/// The cycles between a rejected personality value and the next one: less
/// if the nature was right, plus the division of the value by 25.
pub open spec fn retry_cost(target: Target, pid: u32) -> int {
    (if pid as int % 25 == target.nature_rand as int {
        140int
    } else {
        158
    }) + modulo_cycles_u(pid, 25)
}

/// The cycle count when the lower half of the `j`-th personality value is
/// drawn.
pub open spec fn cycle_at(seed: u32, opts: Wild3GeneratorOptionsView, j: nat) -> int
    decreases j,
{
    if j == 0 {
        cycle_at_loop(seed, opts)
    } else {
        cycle_at(seed, opts, (j - 1) as nat) + half_gap() + retry_cost(
            target_of(seed, opts),
            main_pid(seed, opts, (j - 1) as nat),
        )
    }
}

/// The cycles between the accepted personality value and the first word of
/// individual values.
pub open spec fn method2_span(pid: u32) -> int {
    modulo_cycles_u(pid, 25) + 100 * modulo_cycles_u(pid, 24) + 36900
}

/// The cycles between the two words of individual values.
pub open spec fn method4_span(pid: u32) -> int {
    36 * modulo_cycles_u(pid, 24) + 11103
}

} // verus!
