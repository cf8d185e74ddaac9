//! The configuration of an encounter roll, its results as a flat list, and
//! the filters that decide which results are kept.

use vstd::prelude::*;
use crate::gen3::{slots_view, EncounterSlot, Gen3Lead, Gen3Method, SlotTable};
use crate::generator_ng::{
    draw_ivs, generate_pokemons, is_accepted, make_pid, reroll, roll_method1, roll_method2,
    roll_method3, roll_method4, roll_method5, draws_used, GeneratedPokemonCycle,
};
use crate::pkm::{
    ability_of_pid, gen3_shiny, is_shiny, nature_of_pid, AbilityType, Gender, GenderRatio, Ivs,
    Nature, PkmFilter,
};
use crate::rng::{lcg_advance, lcg_next, lemma_draw_after, lemma_rand16_shift, rand16, Pokerng};
use crate::wild_model::{
    accepts, method3_pid, pair_ivs, pair_pid, rejected_before, Target, REROLL_LIMIT,
};

verus! {

/// A species, by its number in the national list.
#[derive(Clone, Copy, Debug, PartialEq, Eq, Structural)]
pub struct Species {
    pub id: u16,
}

/// The kind of place or tool an encounter comes from.
#[derive(Clone, Copy, Debug, PartialEq, Eq, Structural)]
pub enum Gen3EncounterType {
    Land,
    Water,
    RockSmash,
    OldRod,
    GoodRod,
    SuperRod,
}

/// What one slot of an area holds.
#[derive(Clone, Copy, Debug, PartialEq, Eq, Structural)]
pub struct Wild3EncounterSlotInfo {
    pub min_level: u8,
    pub max_level: u8,
    pub species: Species,
    pub gender_ratio: GenderRatio,
    pub is_electric_type: bool,
    pub is_steel_type: bool,
}

/// The slots of one area for one kind of encounter.
#[derive(Clone, Debug)]
pub struct Wild3EncounterTable {
    pub map_id: String,
    pub encounter_type: Gen3EncounterType,
    pub slots: Vec<Wild3EncounterSlotInfo>,
}

/// Everything an encounter roll depends on besides the generator state.
#[derive(Clone, Debug)]
pub struct Wild3GeneratorOptions {
    /// The advance a result is labelled with.
    pub advance: usize,
    /// The trainer's public number.
    pub tid: u16,
    /// The trainer's secret number.
    pub sid: u16,
    /// The gender ratio of the species looked for.
    pub gender_ratio: GenderRatio,
    /// The area, as an index into the caller's list of tables.
    pub map_idx: usize,
    /// The slots that count; `None` lets every slot count.
    pub encounter_slot: Option<Vec<EncounterSlot>>,
    /// The methods to evaluate.
    pub methods: Vec<Gen3Method>,
    /// The lead creature's influence, if any.
    pub lead: Option<Gen3Lead>,
    /// The personality value of the lead creature, which the game divides on
    /// its way through an encounter.
    pub lead_pid: u32,
    /// Whether the area's outbreak table takes the place of the ordinary one.
    pub mass_outbreak: bool,
    /// The outbreak table of the area.
    pub outbreak_slots: SlotTable,
    /// What a result has to satisfy.
    pub filter: PkmFilter,
}

/// The options as a plain value.
pub struct Wild3GeneratorOptionsView {
    pub advance: usize,
    pub tid: u16,
    pub sid: u16,
    pub gender_ratio: GenderRatio,
    pub map_idx: usize,
    pub encounter_slot: Option<Seq<EncounterSlot>>,
    pub methods: Seq<Gen3Method>,
    pub lead: Option<Gen3Lead>,
    pub lead_pid: u32,
    pub mass_outbreak: bool,
    pub outbreak_slots: Seq<u8>,
    pub filter: PkmFilter,
}

impl View for Wild3GeneratorOptions {
    type V = Wild3GeneratorOptionsView;

    open spec fn view(&self) -> Wild3GeneratorOptionsView {
        Wild3GeneratorOptionsView {
            advance: self.advance,
            tid: self.tid,
            sid: self.sid,
            gender_ratio: self.gender_ratio,
            map_idx: self.map_idx,
            encounter_slot: slots_view(self.encounter_slot),
            methods: self.methods@,
            lead: self.lead,
            lead_pid: self.lead_pid,
            mass_outbreak: self.mass_outbreak,
            outbreak_slots: self.outbreak_slots@,
            filter: self.filter,
        }
    }
}

/// One result of an encounter roll.
#[derive(Clone, Copy, Debug, PartialEq, Eq)]
pub struct Wild3GeneratorResult {
    pub encounter_slot: EncounterSlot,
    pub pid: u32,
    pub ivs: Ivs,
    pub method: Gen3Method,
    /// The cycles, counted from the start of the roll, between which the
    /// frame's interrupt has to fall for this result: from the first up to,
    /// but not including, the second.
    pub cycle_range: (u64, u64),
}

/// Whether a personality value satisfies what the options ask of shininess,
/// ability, gender and nature.
pub open spec fn pid_passes(opts: Wild3GeneratorOptionsView, pid: u32) -> bool {
    &&& opts.filter.shiny ==> is_shiny(pid, opts.tid, opts.sid)
    &&& opts.filter.ability matches Some(a) ==> ability_of_pid(pid) == a
    &&& opts.filter.gender matches Some(g) ==> opts.gender_ratio.spec_gender_from_pid(pid) == g
    &&& opts.filter.nature matches Some(n) ==> nature_of_pid(pid) == n
}

/// Whether individual values lie within the bounds of the options.
pub open spec fn ivs_pass(opts: Wild3GeneratorOptionsView, ivs: Ivs) -> bool {
    ivs.within(opts.filter.min_ivs, opts.filter.max_ivs)
}

/// Whether a personality value satisfies what the options ask of shininess,
/// ability, gender and nature.
pub fn passes_pid_filter(opts: &Wild3GeneratorOptions, pid: u32) -> (r: bool)
    ensures
        r == pid_passes(opts@, pid),
{
    if opts.filter.shiny {
        let generated_shiny = gen3_shiny(pid, opts.tid, opts.sid);
        if !generated_shiny {
            return false;
        }
    }
    if let Some(wanted_ability) = opts.filter.ability {
        let generated_ability = AbilityType::from_gen3_pid(pid);
        if generated_ability != wanted_ability {
            return false;
        }
    }
    if let Some(wanted_gender) = opts.filter.gender {
        let generated_gender = opts.gender_ratio.gender_from_pid(pid);
        if generated_gender != wanted_gender {
            return false;
        }
    }
    if let Some(wanted_nature) = opts.filter.nature {
        let nature = Nature::from_pid(pid);
        if nature != wanted_nature {
            return false;
        }
    }
    true
}

/// Whether individual values lie within the bounds of the options.
pub fn passes_ivs_filter(opts: &Wild3GeneratorOptions, ivs: &Ivs) -> (r: bool)
    ensures
        r == ivs_pass(opts@, *ivs),
{
    ivs.filter(&opts.filter.min_ivs, &opts.filter.max_ivs)
}

/// The result with these traits if its individual values pass the filter.
pub fn create_if_passes_filter(
    opts: &Wild3GeneratorOptions,
    pid: u32,
    ivs: Ivs,
    method: Gen3Method,
    encounter_slot: EncounterSlot,
    cycle_range: (u64, u64),
) -> (r: Option<Wild3GeneratorResult>)
    ensures
        r == (if ivs_pass(opts@, ivs) {
            Some(Wild3GeneratorResult { encounter_slot, pid, ivs, method, cycle_range })
        } else {
            None
        }),
{
    if !passes_ivs_filter(opts, &ivs) {
        return None;
    }
    Some(Wild3GeneratorResult { pid, ivs, method, encounter_slot, cycle_range })
}

/// The target of a roll that asks for this nature and, maybe, this gender.
pub open spec fn required(
    encounter_slot: EncounterSlot,
    required_gender: Option<Gender>,
    required_nature: Nature,
) -> Target {
    Target {
        encounter_slot,
        nature_rand: required_nature.index() as u8,
        gender: required_gender,
        synch: false,
    }
}

/// The result of a method with these traits, if the individual values pass
/// the filter.
pub open spec fn result_if_ivs_pass(
    opts: Wild3GeneratorOptionsView,
    pid: u32,
    ivs: Ivs,
    method: Gen3Method,
    encounter_slot: EncounterSlot,
    cycle_range: (u64, u64),
) -> Option<Wild3GeneratorResult> {
    if ivs_pass(opts, ivs) {
        Some(Wild3GeneratorResult { encounter_slot, pid, ivs, method, cycle_range })
    } else {
        None
    }
}

/// What method 2 yields for the personality value `pid`, from the generator
/// as it stands after that value: a draw is lost, the next two are the
/// individual values. Only these are filtered.
pub fn generate_gen3_wild_method2(
    rng: Pokerng,
    opts: &Wild3GeneratorOptions,
    encounter_slot: EncounterSlot,
    pid: u32,
    cycle_range: (u64, u64),
) -> (r: Option<Wild3GeneratorResult>)
    ensures
        r == result_if_ivs_pass(
            opts@,
            pid,
            pair_ivs(rng.state, 1),
            Gen3Method::Wild2,
            encounter_slot,
            cycle_range,
        ),
{
    let mut rng = rng;
    let ghost seed = rng.state;
    proof {
        lemma_draw_after(seed, 0);
        lemma_rand16_shift(seed, 1, 0);
        lemma_rand16_shift(seed, 1, 1);
    }
    rng.next_u16();
    let ivs = draw_ivs(&mut rng);
    create_if_passes_filter(opts, pid, ivs, Gen3Method::Wild2, encounter_slot, cycle_range)
}

/// What method 3 yields for the lower half `pid_low`, from the generator as
/// it stands after that half: a draw is lost, the next is the upper half. The
/// personality value has to be accepted and to pass the filter; the two
/// draws after it are the individual values.
pub fn generate_gen3_wild_method3(
    rng: Pokerng,
    opts: &Wild3GeneratorOptions,
    encounter_slot: EncounterSlot,
    pid_low: u16,
    required_gender: Option<Gender>,
    required_nature: Nature,
    cycle_range: (u64, u64),
) -> (r: Option<Wild3GeneratorResult>)
    ensures
        r == ({
            let pid = method3_pid(rng.state, pid_low);
            if accepts(
                opts.gender_ratio,
                required(encounter_slot, required_gender, required_nature),
                pid,
            ) && pid_passes(opts@, pid) {
                result_if_ivs_pass(
                    opts@,
                    pid,
                    pair_ivs(rng.state, 2),
                    Gen3Method::Wild3,
                    encounter_slot,
                    cycle_range,
                )
            } else {
                None
            }
        }),
{
    let mut rng = rng;
    let ghost seed = rng.state;
    proof {
        lemma_draw_after(seed, 0);
        lemma_rand16_shift(seed, 2, 0);
        lemma_rand16_shift(seed, 2, 1);
    }
    rng.next_u16();
    let pid_high = rng.next_u16();
    let pid = make_pid(pid_low, pid_high);
    let target = Target {
        encounter_slot,
        nature_rand: required_nature.to_u8(),
        gender: required_gender,
        synch: false,
    };
    if !is_accepted(opts.gender_ratio, &target, pid) {
        return None;
    }
    if !passes_pid_filter(opts, pid) {
        return None;
    }
    let ivs = draw_ivs(&mut rng);
    create_if_passes_filter(opts, pid, ivs, Gen3Method::Wild3, encounter_slot, cycle_range)
}

/// What method 4 yields for the personality value `pid` and the first word
/// `iv1` of individual values, from the generator as it stands after that
/// word: a draw is lost, the next is the second word.
pub fn generate_gen3_wild_method4(
    rng: Pokerng,
    opts: &Wild3GeneratorOptions,
    encounter_slot: EncounterSlot,
    pid: u32,
    iv1: u16,
    cycle_range: (u64, u64),
) -> (r: Option<Wild3GeneratorResult>)
    ensures
        r == result_if_ivs_pass(
            opts@,
            pid,
            Ivs::decode(iv1, rand16(rng.state, 1)),
            Gen3Method::Wild4,
            encounter_slot,
            cycle_range,
        ),
{
    let mut rng = rng;
    let ghost seed = rng.state;
    proof {
        lemma_draw_after(seed, 0);
    }
    rng.next_u16();
    let iv2 = rng.next_u16();
    let ivs = Ivs::new_g3(iv1, iv2);
    create_if_passes_filter(opts, pid, ivs, Gen3Method::Wild4, encounter_slot, cycle_range)
}

/// What method 5 yields, from the generator as it stands after a rejected
/// personality value: a draw is lost, then personality values are drawn
/// until one is accepted. That one has to pass the filter; the two draws
/// after it are the individual values. Nothing is yielded if no value is
/// accepted within the limit.
pub fn generate_gen3_wild_method5(
    rng: Pokerng,
    opts: &Wild3GeneratorOptions,
    encounter_slot: EncounterSlot,
    required_gender: Option<Gender>,
    required_nature: Nature,
    cycle_range: (u64, u64),
) -> (r: Option<Wild3GeneratorResult>)
    ensures
        r == ({
            let from = lcg_next(rng.state);
            match rejected_before(
                from,
                opts.gender_ratio,
                required(encounter_slot, required_gender, required_nature),
                REROLL_LIMIT as nat,
            ) {
                Some(m) => if pid_passes(opts@, pair_pid(from, 2 * m)) {
                    result_if_ivs_pass(
                        opts@,
                        pair_pid(from, 2 * m),
                        pair_ivs(from, 2 * m + 2),
                        Gen3Method::Wild5,
                        encounter_slot,
                        cycle_range,
                    )
                } else {
                    None
                },
                None => None,
            }
        }),
{
    let mut rng = rng;
    rng.next_u16();
    let ghost from = rng.state;
    let target = Target {
        encounter_slot,
        nature_rand: required_nature.to_u8(),
        gender: required_gender,
        synch: false,
    };
    match reroll(&mut rng, opts.gender_ratio, &target) {
        None => None,
        Some(pid) => {
            let ghost m = rejected_before(from, opts.gender_ratio, target, REROLL_LIMIT as nat)->0;
            proof {
                lemma_rand16_shift(from, 2 * m + 2, 0);
                lemma_rand16_shift(from, 2 * m + 2, 1);
            }
            if !passes_pid_filter(opts, pid) {
                return None;
            }
            let ivs = draw_ivs(&mut rng);
            create_if_passes_filter(opts, pid, ivs, Gen3Method::Wild5, encounter_slot, cycle_range)
        },
    }
}

/// The result that stands for a creature and its window.
pub open spec fn result_of(found: GeneratedPokemonCycle, method: Gen3Method) -> Wild3GeneratorResult {
    Wild3GeneratorResult {
        encounter_slot: found.gen_mon.encounter_slot,
        pid: found.gen_mon.pid,
        ivs: found.gen_mon.ivs,
        method,
        cycle_range: (found.cycle_start, found.cycle_end),
    }
}

/// The results that stand for a list of creatures of one method.
pub open spec fn results_of(list: Seq<GeneratedPokemonCycle>, method: Gen3Method) -> Seq<
    Wild3GeneratorResult,
> {
    Seq::new(list.len(), |i: int| result_of(list[i], method))
}

/// The result, if any, that stands for what a method with a single window
/// yields.
pub open spec fn result_of_option(found: Option<GeneratedPokemonCycle>, method: Gen3Method) -> Seq<
    Wild3GeneratorResult,
> {
    match found {
        Some(c) => seq![result_of(c, method)],
        None => Seq::empty(),
    }
}

/// The results of one roll: those of method 3 and those of method 5, each
/// in the order of their windows, then those of methods 2, 4 and 1.
#[verifier::opaque]
pub open spec fn roll_results(seed: u32, opts: Wild3GeneratorOptionsView) -> Seq<Wild3GeneratorResult> {
    results_of(roll_method3(seed, opts), Gen3Method::Wild3) + results_of(
        roll_method5(seed, opts),
        Gen3Method::Wild5,
    ) + result_of_option(roll_method2(seed, opts), Gen3Method::Wild2) + result_of_option(
        roll_method4(seed, opts),
        Gen3Method::Wild4,
    ) + result_of_option(roll_method1(seed, opts), Gen3Method::Wild1)
}

/// The result that stands for a creature and its window.
pub fn to_result(found: &GeneratedPokemonCycle, method: Gen3Method) -> (r: Wild3GeneratorResult)
    ensures
        r == result_of(*found, method),
{
    Wild3GeneratorResult {
        encounter_slot: found.gen_mon.encounter_slot,
        pid: found.gen_mon.pid,
        ivs: found.gen_mon.ivs,
        method,
        cycle_range: (found.cycle_start, found.cycle_end),
    }
}

fn push_results(
    results: &mut Vec<Wild3GeneratorResult>,
    list: &Vec<GeneratedPokemonCycle>,
    method: Gen3Method,
)
    ensures
        final(results)@ == old(results)@ + results_of(list@, method),
{
    let mut i: usize = 0;
    let ghost before = results@;
    while i < list.len()
        invariant
            i <= list.len(),
            results@ == before + results_of(list@.take(i as int), method),
        decreases list.len() - i,
    {
        results.push(to_result(&list[i], method));
        i += 1;
    }
}

fn push_result(
    results: &mut Vec<Wild3GeneratorResult>,
    found: &Option<GeneratedPokemonCycle>,
    method: Gen3Method,
)
    ensures
        final(results)@ == old(results)@ + result_of_option(*found, method),
{
    if let Some(c) = found {
        results.push(to_result(c, method));
    }
}

/// One roll of a wild encounter from the generator as it stands: the
/// results of the methods that the options ask for. The generator is left
/// after the last draw of the roll.
pub fn generate_gen3_wild(rng: &mut Pokerng, opts: &Wild3GeneratorOptions) -> (r: Vec<
    Wild3GeneratorResult,
>)
    ensures
        r@ == roll_results(old(rng).state, opts@),
        final(rng).state == lcg_advance(old(rng).state, draws_used(old(rng).state, opts@)),
        crate::wild_laws::results_fulfil(old(rng).state, opts@, r@),
{
    reveal(roll_results);
    proof {
        crate::wild_laws::lemma_roll_results(rng.state, opts@);
    }
    let gen_mons = generate_pokemons(rng, opts);
    let mut results: Vec<Wild3GeneratorResult> = Vec::new();
    push_results(&mut results, &gen_mons.method3, Gen3Method::Wild3);
    push_results(&mut results, &gen_mons.method5, Gen3Method::Wild5);
    push_result(&mut results, &gen_mons.method2, Gen3Method::Wild2);
    push_result(&mut results, &gen_mons.method4, Gen3Method::Wild4);
    push_result(&mut results, &gen_mons.method1, Gen3Method::Wild1);
    results
}

} // verus!
