//! The search for the earliest advance at which an encounter yields a
//! creature of the largest size.

use vstd::prelude::*;
use crate::gen3::{EncounterSlot, Gen3Lead, Gen3Method, SlotTable};
use crate::generator::{
    generate_gen3_wild, roll_results, Wild3GeneratorOptions, Wild3GeneratorOptionsView,
    Wild3GeneratorResult,
};
use crate::pkm::{GenderRatio, Ivs, Nature, PkmFilter};
use crate::rng::{advance_seed, lcg_advance, Pokerng};

verus! {

/// The games whose areas the search knows.
#[derive(Clone, Copy, Debug, PartialEq, Eq, Structural)]
pub enum Game {
    Ruby,
    Sapphire,
    Emerald,
}

impl Default for Game {
    fn default() -> (r: Game)
        ensures
            r == Game::Ruby,
    {
        Game::Ruby
    }
}

impl Game {
    /// The game with this number; a number that no game has gives the first
    /// game.
    pub fn from_primitive(number: u8) -> (r: Game)
        ensures
            r == (if number == 1 {
                Game::Sapphire
            } else if number == 2 {
                Game::Emerald
            } else {
                Game::Ruby
            }),
    {
        match number {
            1 => Game::Sapphire,
            2 => Game::Emerald,
            _ => Game::Ruby,
        }
    }
}

/// The species whose size is recorded.
#[derive(Clone, Copy, Debug, PartialEq, Eq, Structural)]
pub enum Pokemon {
    Lotad,
    Seedot,
}

impl Default for Pokemon {
    fn default() -> (r: Pokemon)
        ensures
            r == Pokemon::Lotad,
    {
        Pokemon::Lotad
    }
}

impl Pokemon {
    /// The species with this number; a number that no species has gives the
    /// first species.
    pub fn from_primitive(number: u8) -> (r: Pokemon)
        ensures
            r == (if number == 1 {
                Pokemon::Seedot
            } else {
                Pokemon::Lotad
            }),
    {
        match number {
            1 => Pokemon::Seedot,
            _ => Pokemon::Lotad,
        }
    }
}

/// One way to set an encounter up: the seed the game starts from, the slots
/// that hold the species, the method, the lead and whether an outbreak is on.
#[derive(Clone, Debug)]
pub struct Setup {
    pub seed: u32,
    pub encounter_slot: Vec<EncounterSlot>,
    pub method: Gen3Method,
    pub synchronize: Option<Gen3Lead>,
    pub mass_outbreak: bool,
}

/// A setup as a plain value.
pub struct SetupView {
    pub seed: u32,
    pub encounter_slot: Seq<EncounterSlot>,
    pub method: Gen3Method,
    pub synchronize: Option<Gen3Lead>,
    pub mass_outbreak: bool,
}

impl View for Setup {
    type V = SetupView;

    open spec fn view(&self) -> SetupView {
        SetupView {
            seed: self.seed,
            encounter_slot: self.encounter_slot@,
            method: self.method,
            synchronize: self.synchronize,
            mass_outbreak: self.mass_outbreak,
        }
    }
}

/// The low four bits of an individual value.
pub open spec fn low_nibble(iv: u8) -> u16 {
    (iv & 0b1111) as u16
}

/// The size scale of a creature: the two low bytes of its personality
/// value, each combined bit by bit with a product of individual values, the
/// lowest byte counting 256 times.
pub open spec fn size_scale(pid: u32, ivs: Ivs) -> int {
    let low_pid = (pid & 0xFF) as u16;
    let high_pid = ((pid & 0xFF00) >> 8) as u16;
    let low_mix = (low_nibble(ivs.hp) * (low_nibble(ivs.atk) ^ low_nibble(ivs.def))) as u16;
    let high_mix = (low_nibble(ivs.spe) * (low_nibble(ivs.spa) ^ low_nibble(ivs.spd))) as u16;
    256 * (low_pid ^ low_mix) + (high_pid ^ high_mix)
}

/// A creature is of the largest size from this scale on: the two highest
/// scales show as the same size.
pub const LARGEST_SCALE: u16 = 65534;

/// Whether a creature is of the largest size.
pub open spec fn largest(pid: u32, ivs: Ivs) -> bool {
    size_scale(pid, ivs) >= LARGEST_SCALE
}

proof fn lemma_scale_bits(pid: u32, a: u8, b: u8, c: u8)
    by (bit_vector)
    ensures
        (pid & 0xFF) <= 0xFF,
        ((pid & 0xFF00) >> 8) <= 0xFF,
        (a & 0b1111) <= 15,
        (((b & 0b1111) as u16) ^ ((c & 0b1111) as u16)) <= 15,
{
}

proof fn lemma_byte_xor(x: u16, y: u16)
    by (bit_vector)
    requires
        x <= 0xFF,
        y <= 0xFF,
    ensures
        (x ^ y) <= 0xFF,
{
}

/// The size scale of a creature.
pub fn get_size_scale(pid: u32, ivs: &Ivs) -> (scale: u16)
    ensures
        scale == size_scale(pid, *ivs),
{
    proof {
        lemma_scale_bits(pid, ivs.hp, ivs.atk, ivs.def);
        lemma_scale_bits(pid, ivs.spe, ivs.spa, ivs.spd);
    }
    let hp = (ivs.hp & 0b1111) as u16;
    let atk = (ivs.atk & 0b1111) as u16;
    let def = (ivs.def & 0b1111) as u16;
    let spa = (ivs.spa & 0b1111) as u16;
    let spd = (ivs.spd & 0b1111) as u16;
    let spe = (ivs.spe & 0b1111) as u16;

    let low_pid = (pid & 0xFF) as u16;
    let high_pid = ((pid & 0xFF00) >> 8) as u16;
    assert(hp * (atk ^ def) <= 225) by (nonlinear_arith)
        requires
            hp <= 15,
            (atk ^ def) <= 15,
    ;
    assert(spe * (spa ^ spd) <= 225) by (nonlinear_arith)
        requires
            spe <= 15,
            (spa ^ spd) <= 15,
    ;
    let low_mix: u16 = hp * (atk ^ def);
    let high_mix: u16 = spe * (spa ^ spd);
    proof {
        lemma_byte_xor(low_pid, low_mix);
        lemma_byte_xor(high_pid, high_mix);
    }
    256 * (low_pid ^ low_mix) + (high_pid ^ high_mix)
}

/// Whether a creature is of the largest size.
pub fn is_largest(pid: u32, ivs: &Ivs) -> (r: bool)
    ensures
        r == largest(pid, *ivs),
{
    get_size_scale(pid, ivs) >= LARGEST_SCALE
}

// ---------------------------------------------------------------------------
// The search for one setup
// ---------------------------------------------------------------------------

/// The search looks at the advances below this, in chunks.
pub const MAX_SEARCH_ADVANCES: usize = 10_000_000;

/// The number of advances in a chunk of the search.
pub const ADVANCES_PER_CHUNK: usize = 1_000_000;

/// The options of the rolls of a setup: its slots, its one method, its lead
/// and its outbreak flag; no filter, an even gender ratio, and a trainer and
/// a lead whose numbers are zero.
pub open spec fn setup_options(setup: SetupView, outbreak_slots: Seq<u8>) -> Wild3GeneratorOptionsView {
    Wild3GeneratorOptionsView {
        advance: 0,
        tid: 0,
        sid: 0,
        gender_ratio: GenderRatio::OneToOne,
        map_idx: 0,
        encounter_slot: Some(setup.encounter_slot),
        methods: seq![setup.method],
        lead: setup.synchronize,
        lead_pid: 0,
        mass_outbreak: setup.mass_outbreak,
        outbreak_slots,
        filter: PkmFilter {
            shiny: false,
            nature: None,
            gender: None,
            ability: None,
            min_ivs: Ivs { hp: 0, atk: 0, def: 0, spa: 0, spd: 0, spe: 0 },
            max_ivs: Ivs { hp: 31, atk: 31, def: 31, spa: 31, spd: 31, spe: 31 },
        },
    }
}

/// Whether one of the results is a creature of the largest size.
pub open spec fn has_largest(results: Seq<Wild3GeneratorResult>) -> bool {
    exists|i: int| 0 <= i < results.len() && largest(#[trigger] results[i].pid, results[i].ivs)
}

/// Whether the roll of the setup at this advance, the roll that starts
/// `advance` steps after the seed, yields a creature of the largest size.
#[verifier::opaque]
pub open spec fn qualifies_at(setup: SetupView, outbreak_slots: Seq<u8>, advance: nat) -> bool {
    has_largest(
        roll_results(lcg_advance(setup.seed, advance), setup_options(setup, outbreak_slots)),
    )
}

/// What it means for a setup to qualify at an advance.
pub proof fn lemma_qualifies_at(setup: SetupView, outbreak_slots: Seq<u8>, advance: nat)
    ensures
        qualifies_at(setup, outbreak_slots, advance) == has_largest(
            roll_results(lcg_advance(setup.seed, advance), setup_options(setup, outbreak_slots)),
        ),
{
    reveal(qualifies_at);
}

/// The first advance from `from` up to, but not including, `to` at which
/// the setup qualifies, if there is one.
pub open spec fn first_qualifying(
    setup: SetupView,
    outbreak_slots: Seq<u8>,
    from: nat,
    to: nat,
) -> Option<usize>
    decreases to - from,
{
    if from >= to {
        None
    } else if qualifies_at(setup, outbreak_slots, from) {
        Some(from as usize)
    } else {
        first_qualifying(setup, outbreak_slots, from + 1, to)
    }
}

/// `found` is the earliest advance from `from` up to, but not including,
/// `to`, at which the setup qualifies; it is `None` exactly if there is no
/// such advance.
pub open spec fn is_earliest(
    setup: SetupView,
    outbreak_slots: Seq<u8>,
    from: nat,
    to: nat,
    found: Option<usize>,
) -> bool {
    match found {
        Some(n) => {
            &&& from <= n < to
            &&& qualifies_at(setup, outbreak_slots, n as nat)
            &&& forall|m: nat| from <= m < n ==> !qualifies_at(setup, outbreak_slots, m)
        },
        None => forall|m: nat| from <= m < to ==> !qualifies_at(setup, outbreak_slots, m),
    }
}

/// The result of a search is an advance only if the setup qualifies there
/// and at no earlier advance of the range, and it is `None` only if the setup
/// qualifies nowhere in the range. So an advance of zero always means that
/// the setup qualifies at the seed itself.
pub proof fn lemma_first_qualifying_is_earliest(
    setup: SetupView,
    outbreak_slots: Seq<u8>,
    from: nat,
    to: nat,
)
    requires
        to <= usize::MAX,
    ensures
        is_earliest(setup, outbreak_slots, from, to, first_qualifying(setup, outbreak_slots, from, to)),
    decreases to - from,
{
    if from < to && !qualifies_at(setup, outbreak_slots, from) {
        lemma_first_qualifying_is_earliest(setup, outbreak_slots, from + 1, to);
    }
}

/// A search over a range that has been searched up to `mid` without a find
/// goes on from `mid`.
pub proof fn lemma_first_qualifying_split(
    setup: SetupView,
    outbreak_slots: Seq<u8>,
    from: nat,
    mid: nat,
    to: nat,
)
    requires
        from <= mid <= to,
        first_qualifying(setup, outbreak_slots, from, mid) is None,
    ensures
        first_qualifying(setup, outbreak_slots, from, to) == first_qualifying(
            setup,
            outbreak_slots,
            mid,
            to,
        ),
    decreases mid - from,
{
    if from < mid {
        lemma_first_qualifying_split(setup, outbreak_slots, from + 1, mid, to);
    }
}

/// A find in the front part of a range is the find of the whole range.
pub proof fn lemma_first_qualifying_found(
    setup: SetupView,
    outbreak_slots: Seq<u8>,
    from: nat,
    mid: nat,
    to: nat,
)
    requires
        from <= mid <= to,
        first_qualifying(setup, outbreak_slots, from, mid) is Some,
    ensures
        first_qualifying(setup, outbreak_slots, from, to) == first_qualifying(
            setup,
            outbreak_slots,
            from,
            mid,
        ),
    decreases mid - from,
{
    if from < mid && !qualifies_at(setup, outbreak_slots, from) {
        lemma_first_qualifying_found(setup, outbreak_slots, from + 1, mid, to);
    }
}

/// A copy of a list of plain values.
pub fn copy_vec<T: Copy>(list: &Vec<T>) -> (r: Vec<T>)
    ensures
        r@ == list@,
{
    let mut r: Vec<T> = Vec::new();
    let mut i: usize = 0;
    while i < list.len()
        invariant
            i <= list.len(),
            r@ == list@.take(i as int),
        decreases list.len() - i,
    {
        r.push(list[i]);
        i += 1;
    }
    r
}

impl Setup {
    /// A copy of the setup.
    pub fn duplicate(&self) -> (r: Setup)
        ensures
            r@ == self@,
    {
        Setup {
            seed: self.seed,
            encounter_slot: copy_vec(&self.encounter_slot),
            method: self.method,
            synchronize: self.synchronize,
            mass_outbreak: self.mass_outbreak,
        }
    }
}

/// The options of the rolls of a setup.
pub fn make_setup_options(setup: &Setup, outbreak_slots: &SlotTable) -> (opts:
    Wild3GeneratorOptions)
    ensures
        opts@ == setup_options(setup@, outbreak_slots@),
{
    let mut methods: Vec<Gen3Method> = Vec::new();
    methods.push(setup.method);
    Wild3GeneratorOptions {
        advance: 0,
        tid: 0,
        sid: 0,
        gender_ratio: GenderRatio::OneToOne,
        map_idx: 0,
        encounter_slot: Some(copy_vec(&setup.encounter_slot)),
        methods,
        lead: setup.synchronize,
        lead_pid: 0,
        mass_outbreak: setup.mass_outbreak,
        outbreak_slots: SlotTable { bounds: copy_vec(&outbreak_slots.bounds) },
        filter: PkmFilter::any(),
    }
}

/// Whether one of the results is a creature of the largest size.
pub fn any_largest(results: &Vec<Wild3GeneratorResult>) -> (r: bool)
    ensures
        r == has_largest(results@),
{
    let mut i: usize = 0;
    while i < results.len()
        invariant
            i <= results.len(),
            forall|j: int| 0 <= j < i ==> !largest(#[trigger] results@[j].pid, results@[j].ivs),
        decreases results.len() - i,
    {
        if is_largest(results[i].pid, &results[i].ivs) {
            return true;
        }
        i += 1;
    }
    false
}

/// Searches the advances from `from` up to, but not including, `to` with
/// the options of the setup.
fn scan(setup: &Setup, opts: &Wild3GeneratorOptions, from: usize, to: usize) -> (found: Option<
    usize,
>)
    requires
        opts@ == setup_options(setup@, opts@.outbreak_slots),
    ensures
        found == first_qualifying(setup@, opts@.outbreak_slots, from as nat, to as nat),
{
    let mut rng = Pokerng::new(advance_seed(setup.seed, from as u64));
    let mut advance: usize = from;
    while advance < to
        invariant
            from <= advance,
            opts@ == setup_options(setup@, opts@.outbreak_slots),
            rng.state == lcg_advance(setup.seed, advance as nat),
            first_qualifying(setup@, opts@.outbreak_slots, from as nat, to as nat)
                == first_qualifying(setup@, opts@.outbreak_slots, advance as nat, to as nat),
        decreases to - advance,
    {
        let mut roll = rng;
        let results = generate_gen3_wild(&mut roll, opts);
        proof {
            lemma_qualifies_at(setup@, opts@.outbreak_slots, advance as nat);
        }
        if any_largest(&results) {
            return Some(advance);
        }
        rng.next_u32();
        advance += 1;
    }
    None
}

/// Searches one chunk: the earliest advance from `from` up to, but not
/// including, `to`, at which a roll of the setup yields a creature of the
/// largest size. An empty range holds no such advance.
pub fn search_range(setup: &Setup, outbreak_slots: &SlotTable, from: usize, to: usize) -> (found:
    Option<usize>)
    ensures
        found == first_qualifying(setup@, outbreak_slots@, from as nat, to as nat),
        is_earliest(setup@, outbreak_slots@, from as nat, to as nat, found),
{
    let opts = make_setup_options(setup, outbreak_slots);
    proof {
        lemma_first_qualifying_is_earliest(setup@, outbreak_slots@, from as nat, to as nat);
    }
    scan(setup, &opts, from, to)
}

/// The earliest advance below `max_advances` at which a roll of the setup
/// yields a creature of the largest size, or `None` if there is no such
/// advance. The advances are searched chunk by chunk, and the search ends
/// with the first find.
pub fn search_earliest(setup: &Setup, outbreak_slots: &SlotTable, max_advances: usize) -> (found:
    Option<usize>)
    ensures
        found == first_qualifying(setup@, outbreak_slots@, 0, max_advances as nat),
        is_earliest(setup@, outbreak_slots@, 0, max_advances as nat, found),
{
    let opts = make_setup_options(setup, outbreak_slots);
    let mut start: usize = 0;
    proof {
        lemma_first_qualifying_is_earliest(setup@, outbreak_slots@, 0, max_advances as nat);
    }
    while start < max_advances
        invariant
            start <= max_advances,
            opts@ == setup_options(setup@, outbreak_slots@),
            first_qualifying(setup@, outbreak_slots@, 0, max_advances as nat) == first_qualifying(
                setup@,
                outbreak_slots@,
                start as nat,
                max_advances as nat,
            ),
        decreases max_advances - start,
    {
        let end: usize = if max_advances - start <= ADVANCES_PER_CHUNK {
            max_advances
        } else {
            start + ADVANCES_PER_CHUNK
        };
        let found = scan(setup, &opts, start, end);
        proof {
            if found is Some {
                lemma_first_qualifying_found(
                    setup@,
                    outbreak_slots@,
                    start as nat,
                    end as nat,
                    max_advances as nat,
                );
            } else {
                lemma_first_qualifying_split(
                    setup@,
                    outbreak_slots@,
                    start as nat,
                    end as nat,
                    max_advances as nat,
                );
            }
        }
        if found.is_some() {
            proof {
                lemma_first_qualifying_is_earliest(
                    setup@,
                    outbreak_slots@,
                    0,
                    max_advances as nat,
                );
            }
            return found;
        }
        start = end;
    }
    None
}

/// The results of the roll of a setup at an advance.
pub open spec fn results_at(setup: SetupView, outbreak_slots: Seq<u8>, advance: nat) -> Seq<
    Wild3GeneratorResult,
> {
    roll_results(lcg_advance(setup.seed, advance), setup_options(setup, outbreak_slots))
}

/// The objective can say yes to one of the results.
pub open spec fn meets<F: Fn(&Wild3GeneratorResult) -> bool>(
    objective: F,
    results: Seq<Wild3GeneratorResult>,
) -> bool {
    exists|i: int| 0 <= i < results.len() && call_ensures(objective, (&#[trigger] results[i],), true)
}

/// The objective can say no to every one of the results.
pub open spec fn misses<F: Fn(&Wild3GeneratorResult) -> bool>(
    objective: F,
    results: Seq<Wild3GeneratorResult>,
) -> bool {
    forall|i: int| 0 <= i < results.len() ==> call_ensures(objective, (&#[trigger] results[i],), false)
}

/// The earliest advance below `max_advances` at which the objective says
/// yes to a result of the roll of the setup, or `None` if it says no to
/// every result of every roll below `max_advances`. The objective is asked
/// about the results of a roll in their order, and about no result after the
/// first that it says yes to.
pub fn search_earliest_by<F: Fn(&Wild3GeneratorResult) -> bool>(
    setup: &Setup,
    outbreak_slots: &SlotTable,
    objective: F,
    max_advances: usize,
) -> (found: Option<usize>)
    requires
        forall|r: Wild3GeneratorResult| call_requires(objective, (&r,)),
    ensures
        match found {
            Some(n) => {
                &&& n < max_advances
                &&& meets(objective, results_at(setup@, outbreak_slots@, n as nat))
                &&& forall|m: nat|
                    m < n ==> misses(objective, #[trigger] results_at(setup@, outbreak_slots@, m))
            },
            None => forall|m: nat|
                m < max_advances ==> misses(
                    objective,
                    #[trigger] results_at(setup@, outbreak_slots@, m),
                ),
        },
{
    let opts = make_setup_options(setup, outbreak_slots);
    let mut rng = Pokerng::new(setup.seed);
    let mut advance: usize = 0;
    while advance < max_advances
        invariant
            advance <= max_advances,
            opts@ == setup_options(setup@, outbreak_slots@),
            rng.state == lcg_advance(setup.seed, advance as nat),
            forall|r: Wild3GeneratorResult| call_requires(objective, (&r,)),
            forall|m: nat|
                m < advance ==> misses(objective, #[trigger] results_at(setup@, outbreak_slots@, m)),
        decreases max_advances - advance,
    {
        let mut roll = rng;
        let results = generate_gen3_wild(&mut roll, &opts);
        let mut i: usize = 0;
        while i < results.len()
            invariant
                i <= results.len(),
                advance < max_advances,
                results@ == results_at(setup@, outbreak_slots@, advance as nat),
                forall|r: Wild3GeneratorResult| call_requires(objective, (&r,)),
                forall|j: int|
                    0 <= j < i ==> call_ensures(objective, (&#[trigger] results@[j],), false),
                forall|m: nat|
                    m < advance ==> misses(
                        objective,
                        #[trigger] results_at(setup@, outbreak_slots@, m),
                    ),
            decreases results.len() - i,
        {
            if objective(&results[i]) {
                return Some(advance);
            }
            i += 1;
        }
        rng.next_u32();
        advance += 1;
    }
    None
}

/// The earliest advance, among the first ten million, at which a roll of
/// the setup yields a creature of the largest size, or `None` if there is no
/// such advance.
pub fn get_earliest_advance_for_max_size_for_setup(
    setup: &Setup,
    outbreak_slots: &SlotTable,
) -> (found: Option<usize>)
    ensures
        found == first_qualifying(setup@, outbreak_slots@, 0, MAX_SEARCH_ADVANCES as nat),
        is_earliest(setup@, outbreak_slots@, 0, MAX_SEARCH_ADVANCES as nat, found),
{
    search_earliest(setup, outbreak_slots, MAX_SEARCH_ADVANCES)
}

// ---------------------------------------------------------------------------
// The setups of a game
// ---------------------------------------------------------------------------

/// A place where the species is met: the slots that hold it, and whether
/// outbreaks occur there.
pub struct PlaceView {
    pub slots: Seq<EncounterSlot>,
    pub mass_outbreak: bool,
}

/// The seed that a game starts from.
pub open spec fn seed_of(game: Game) -> u32 {
    match game {
        Game::Emerald => 0,
        _ => 0x5A0,
    }
}

/// The leads that a game is searched with: in Emerald a lead that hands on
/// each of the natures in turn, and then none; in the other games none.
pub open spec fn leads_of(game: Game) -> Seq<Option<Gen3Lead>> {
    match game {
        Game::Emerald => Seq::new(
            26,
            |i: int|
                if i < 25 {
                    Some(Gen3Lead::Synchronize(Nature::of_index(i)))
                } else {
                    None
                },
        ),
        _ => seq![None],
    }
}

/// The places where a game holds a species.
pub open spec fn places_of(game: Game, pokemon: Pokemon) -> Seq<PlaceView> {
    let grass_early = seq![EncounterSlot::Slot4, EncounterSlot::Slot5];
    let grass_late = seq![EncounterSlot::Slot1, EncounterSlot::Slot4];
    match (game, pokemon) {
        (Game::Ruby, Pokemon::Lotad) => seq![],
        (Game::Ruby, Pokemon::Seedot) => seq![
            PlaceView { slots: grass_early, mass_outbreak: true },
            PlaceView { slots: grass_late, mass_outbreak: false },
        ],
        (Game::Sapphire, Pokemon::Lotad) => seq![
            PlaceView { slots: grass_early, mass_outbreak: false },
            PlaceView { slots: grass_late, mass_outbreak: false },
        ],
        (Game::Sapphire, Pokemon::Seedot) => seq![
            PlaceView { slots: seq![], mass_outbreak: true },
        ],
        (Game::Emerald, Pokemon::Lotad) => seq![
            PlaceView { slots: grass_early, mass_outbreak: false },
            PlaceView { slots: grass_late, mass_outbreak: false },
        ],
        (Game::Emerald, Pokemon::Seedot) => seq![
            PlaceView { slots: seq![EncounterSlot::Slot11], mass_outbreak: true },
        ],
    }
}

/// One setup of a place with these slots.
pub open spec fn variant(
    seed: u32,
    slots: Seq<EncounterSlot>,
    lead: Option<Gen3Lead>,
    method: Gen3Method,
    mass_outbreak: bool,
) -> SetupView {
    SetupView { seed, encounter_slot: slots, method, synchronize: lead, mass_outbreak }
}

/// The setups of a place with one lead and one method: without an outbreak,
/// and then, where outbreaks occur, with one.
pub open spec fn method_variants(
    seed: u32,
    place: PlaceView,
    lead: Option<Gen3Lead>,
    method: Gen3Method,
) -> Seq<SetupView> {
    if place.mass_outbreak {
        seq![
            variant(seed, place.slots, lead, method, false),
            variant(seed, place.slots, lead, method, true),
        ]
    } else {
        seq![variant(seed, place.slots, lead, method, false)]
    }
}

/// The setups of a place with one lead: those of the methods 1, 2 and 4.
pub open spec fn variants_of(seed: u32, place: PlaceView, lead: Option<Gen3Lead>) -> Seq<
    SetupView,
> {
    method_variants(seed, place, lead, Gen3Method::Wild1) + method_variants(
        seed,
        place,
        lead,
        Gen3Method::Wild2,
    ) + method_variants(seed, place, lead, Gen3Method::Wild4)
}

/// The setups of a place with the first `n` leads.
pub open spec fn place_setups(
    seed: u32,
    place: PlaceView,
    leads: Seq<Option<Gen3Lead>>,
    n: nat,
) -> Seq<SetupView>
    decreases n,
{
    if n == 0 {
        Seq::empty()
    } else {
        place_setups(seed, place, leads, (n - 1) as nat) + variants_of(seed, place, leads[n - 1])
    }
}

/// The setups of the first `n` places.
pub open spec fn places_setups(
    seed: u32,
    places: Seq<PlaceView>,
    leads: Seq<Option<Gen3Lead>>,
    n: nat,
) -> Seq<SetupView>
    decreases n,
{
    if n == 0 {
        Seq::empty()
    } else {
        places_setups(seed, places, leads, (n - 1) as nat) + place_setups(
            seed,
            places[n - 1],
            leads,
            leads.len(),
        )
    }
}

/// All the setups of a species in a game: place by place, lead by lead,
/// method by method.
pub open spec fn setups_of(game: Game, pokemon: Pokemon) -> Seq<SetupView> {
    places_setups(
        seed_of(game),
        places_of(game, pokemon),
        leads_of(game),
        places_of(game, pokemon).len(),
    )
}

/// The setups of a list as plain values.
pub open spec fn setup_views(setups: Seq<Setup>) -> Seq<SetupView> {
    Seq::new(setups.len(), |i: int| setups[i]@)
}

/// The leads that a game is searched with.
pub fn make_leads(game: Game) -> (leads: Vec<Option<Gen3Lead>>)
    ensures
        leads@ == leads_of(game),
{
    let mut leads: Vec<Option<Gen3Lead>> = Vec::new();
    match game {
        Game::Emerald => {
            let mut nature: u8 = 0;
            while nature < 25
                invariant
                    nature <= 25,
                    leads@.len() == nature,
                    forall|i: int|
                        0 <= i < nature ==> leads@[i] == Some(
                            Gen3Lead::Synchronize(Nature::of_index(i)),
                        ),
                decreases 25 - nature,
            {
                leads.push(Some(Gen3Lead::Synchronize(Nature::from_u8(nature))));
                nature += 1;
            }
            leads.push(None);
        },
        _ => {
            leads.push(None);
        },
    }
    leads
}

fn push_setup(
    setups: &mut Vec<Setup>,
    seed: u32,
    slots: &Vec<EncounterSlot>,
    lead: Option<Gen3Lead>,
    method: Gen3Method,
    mass_outbreak: bool,
)
    ensures
        setup_views(final(setups)@) == setup_views(old(setups)@).push(
            variant(seed, slots@, lead, method, mass_outbreak),
        ),
{
    let setup = Setup {
        seed,
        encounter_slot: copy_vec(slots),
        method,
        synchronize: lead,
        mass_outbreak,
    };
    setups.push(setup);
}

fn push_method_variants(
    setups: &mut Vec<Setup>,
    seed: u32,
    slots: &Vec<EncounterSlot>,
    mass_outbreak: bool,
    lead: Option<Gen3Lead>,
    method: Gen3Method,
)
    ensures
        setup_views(final(setups)@) == setup_views(old(setups)@) + method_variants(
            seed,
            PlaceView { slots: slots@, mass_outbreak },
            lead,
            method,
        ),
{
    push_setup(setups, seed, slots, lead, method, false);
    if mass_outbreak {
        push_setup(setups, seed, slots, lead, method, true);
    }
}

fn push_place_setups(
    setups: &mut Vec<Setup>,
    seed: u32,
    slots: &Vec<EncounterSlot>,
    mass_outbreak: bool,
    leads: &Vec<Option<Gen3Lead>>,
)
    ensures
        setup_views(final(setups)@) == setup_views(old(setups)@) + place_setups(
            seed,
            PlaceView { slots: slots@, mass_outbreak },
            leads@,
            leads@.len(),
        ),
{
    let ghost place = PlaceView { slots: slots@, mass_outbreak };
    let ghost before = setup_views(setups@);
    let mut i: usize = 0;
    while i < leads.len()
        invariant
            i <= leads.len(),
            place == (PlaceView { slots: slots@, mass_outbreak }),
            setup_views(setups@) == before + place_setups(seed, place, leads@, i as nat),
        decreases leads.len() - i,
    {
        let lead = leads[i];
        push_method_variants(setups, seed, slots, mass_outbreak, lead, Gen3Method::Wild1);
        push_method_variants(setups, seed, slots, mass_outbreak, lead, Gen3Method::Wild2);
        push_method_variants(setups, seed, slots, mass_outbreak, lead, Gen3Method::Wild4);
        i += 1;
    }
}

/// The slots of the early grass: the fifth and the sixth.
fn early_grass() -> (slots: Vec<EncounterSlot>)
    ensures
        slots@ == seq![EncounterSlot::Slot4, EncounterSlot::Slot5],
{
    let mut slots: Vec<EncounterSlot> = Vec::new();
    slots.push(EncounterSlot::Slot4);
    slots.push(EncounterSlot::Slot5);
    slots
}

/// The slots of the late grass: the second and the fifth.
fn late_grass() -> (slots: Vec<EncounterSlot>)
    ensures
        slots@ == seq![EncounterSlot::Slot1, EncounterSlot::Slot4],
{
    let mut slots: Vec<EncounterSlot> = Vec::new();
    slots.push(EncounterSlot::Slot1);
    slots.push(EncounterSlot::Slot4);
    slots
}

/// All the setups of a species in a game.
pub fn make_setups(game: Game, pokemon: Pokemon) -> (setups: Vec<Setup>)
    ensures
        setup_views(setups@) == setups_of(game, pokemon),
{
    let seed: u32 = match game {
        Game::Ruby | Game::Sapphire => 0x5A0,
        Game::Emerald => 0,
    };
    let leads = make_leads(game);
    let mut setups: Vec<Setup> = Vec::new();
    let ghost places = places_of(game, pokemon);
    let ghost none = Seq::<SetupView>::empty();
    assert(places_setups(seed, places, leads@, 0) =~= none);
    match game {
        Game::Ruby => match pokemon {
            Pokemon::Lotad => {},
            Pokemon::Seedot => {
                push_place_setups(&mut setups, seed, &early_grass(), true, &leads);
                assert(setup_views(setups@) =~= places_setups(seed, places, leads@, 1));
                push_place_setups(&mut setups, seed, &late_grass(), false, &leads);
            },
        },
        Game::Sapphire => match pokemon {
            Pokemon::Lotad => {
                push_place_setups(&mut setups, seed, &early_grass(), false, &leads);
                assert(setup_views(setups@) =~= places_setups(seed, places, leads@, 1));
                push_place_setups(&mut setups, seed, &late_grass(), false, &leads);
            },
            Pokemon::Seedot => {
                let slots: Vec<EncounterSlot> = Vec::new();
                push_place_setups(&mut setups, seed, &slots, true, &leads);
            },
        },
        Game::Emerald => match pokemon {
            Pokemon::Lotad => {
                push_place_setups(&mut setups, seed, &early_grass(), false, &leads);
                assert(setup_views(setups@) =~= places_setups(seed, places, leads@, 1));
                push_place_setups(&mut setups, seed, &late_grass(), false, &leads);
            },
            Pokemon::Seedot => {
                let mut slots: Vec<EncounterSlot> = Vec::new();
                slots.push(EncounterSlot::Slot11);
                push_place_setups(&mut setups, seed, &slots, true, &leads);
            },
        },
    }
    setups
}

// ---------------------------------------------------------------------------
// Ranking
// ---------------------------------------------------------------------------

/// What a search ranks a find by: its advance; a search without a find
/// ranks after every find.
pub open spec fn sort_key(found: Option<usize>) -> int {
    match found {
        Some(advance) => advance as int,
        None => usize::MAX + 1,
    }
}

/// The position of the first entry at or after `from` that ranks after
/// `key`; the length of the list if there is none.
pub open spec fn first_later(list: Seq<(SetupView, Option<usize>)>, key: int, from: int) -> int
    decreases list.len() - from,
{
    if from < 0 || from >= list.len() {
        list.len() as int
    } else if sort_key(list[from].1) > key {
        from
    } else {
        first_later(list, key, from + 1)
    }
}

/// The list with an entry put in behind the entries that do not rank after
/// it.
pub open spec fn stable_insert(
    list: Seq<(SetupView, Option<usize>)>,
    entry: (SetupView, Option<usize>),
) -> Seq<(SetupView, Option<usize>)> {
    list.insert(first_later(list, sort_key(entry.1), 0), entry)
}

/// The first `n` entries of a list in ascending rank; entries of the same
/// rank keep the order they come in.
pub open spec fn stable_sorted(input: Seq<(SetupView, Option<usize>)>, n: nat) -> Seq<
    (SetupView, Option<usize>),
>
    decreases n,
{
    if n == 0 {
        Seq::empty()
    } else {
        stable_insert(stable_sorted(input, (n - 1) as nat), input[n - 1])
    }
}

/// The entries are in ascending rank.
pub open spec fn is_ranked(list: Seq<(SetupView, Option<usize>)>) -> bool {
    forall|i: int, j: int| 0 <= i <= j < list.len() ==> sort_key(list[i].1) <= sort_key(list[j].1)
}

/// The position that `first_later` gives lies in the list or at its end;
/// the entries from `from` up to it do not rank after `key`, and the entry
/// at it does.
pub proof fn lemma_first_later(list: Seq<(SetupView, Option<usize>)>, key: int, from: int)
    requires
        0 <= from <= list.len(),
    ensures
        from <= first_later(list, key, from) <= list.len(),
        forall|i: int| from <= i < first_later(list, key, from) ==> sort_key(list[i].1) <= key,
        first_later(list, key, from) < list.len() ==> sort_key(
            list[first_later(list, key, from)].1,
        ) > key,
    decreases list.len() - from,
{
    if from < list.len() && sort_key(list[from].1) <= key {
        lemma_first_later(list, key, from + 1);
    }
}

/// Putting an entry into a ranked list leaves the list ranked, and adds
/// this entry and no other.
pub proof fn lemma_stable_insert(
    list: Seq<(SetupView, Option<usize>)>,
    entry: (SetupView, Option<usize>),
)
    requires
        is_ranked(list),
    ensures
        is_ranked(stable_insert(list, entry)),
        stable_insert(list, entry).to_multiset() == list.to_multiset().insert(entry),
        stable_insert(list, entry).len() == list.len() + 1,
{
    let key = sort_key(entry.1);
    let pos = first_later(list, key, 0);
    lemma_first_later(list, key, 0);
    vstd::seq_lib::to_multiset_insert(list, pos, entry);
}

/// A list sorted by `stable_sorted` is in ascending rank and holds the
/// entries of the input, each as often as the input does.
pub proof fn lemma_stable_sorted(input: Seq<(SetupView, Option<usize>)>, n: nat)
    requires
        n <= input.len(),
    ensures
        is_ranked(stable_sorted(input, n)),
        stable_sorted(input, n).to_multiset() == input.take(n as int).to_multiset(),
        stable_sorted(input, n).len() == n,
    decreases n,
{
    if n == 0 {
        assert(input.take(0) =~= Seq::empty());
    } else {
        lemma_stable_sorted(input, (n - 1) as nat);
        lemma_stable_insert(stable_sorted(input, (n - 1) as nat), input[n - 1]);
        assert(input.take(n as int) =~= input.take(n - 1).push(input[n - 1]));
        vstd::seq_lib::to_multiset_build(input.take(n - 1), input[n - 1]);
    }
}

/// The entries of a list that rank as `key`, in the order of the list.
pub open spec fn with_key(list: Seq<(SetupView, Option<usize>)>, key: int) -> Seq<
    (SetupView, Option<usize>),
>
    decreases list.len(),
{
    if list.len() == 0 {
        Seq::empty()
    } else if sort_key(list.last().1) == key {
        with_key(list.drop_last(), key).push(list.last())
    } else {
        with_key(list.drop_last(), key)
    }
}

proof fn lemma_with_key_add(
    a: Seq<(SetupView, Option<usize>)>,
    b: Seq<(SetupView, Option<usize>)>,
    key: int,
)
    ensures
        with_key(a + b, key) == with_key(a, key) + with_key(b, key),
    decreases b.len(),
{
    if b.len() == 0 {
    } else {
        lemma_with_key_add(a, b.drop_last(), key);
        assert((a + b).drop_last() =~= a + b.drop_last());
    }
}

proof fn lemma_with_key_none(list: Seq<(SetupView, Option<usize>)>, key: int)
    requires
        forall|i: int| 0 <= i < list.len() ==> sort_key(list[i].1) != key,
    ensures
        with_key(list, key) == Seq::<(SetupView, Option<usize>)>::empty(),
    decreases list.len(),
{
    if list.len() > 0 {
        lemma_with_key_none(list.drop_last(), key);
    }
}

proof fn lemma_with_key_push(
    list: Seq<(SetupView, Option<usize>)>,
    entry: (SetupView, Option<usize>),
    key: int,
)
    ensures
        with_key(list.push(entry), key) == (if sort_key(entry.1) == key {
            with_key(list, key).push(entry)
        } else {
            with_key(list, key)
        }),
{
    assert(list.push(entry).drop_last() =~= list);
}

/// Putting an entry into a ranked list leaves the entries of every rank in
/// the order they had; the new entry comes behind the entries of its own
/// rank.
pub proof fn lemma_stable_insert_keeps_order(
    list: Seq<(SetupView, Option<usize>)>,
    entry: (SetupView, Option<usize>),
    key: int,
)
    requires
        is_ranked(list),
    ensures
        with_key(stable_insert(list, entry), key) == (if sort_key(entry.1) == key {
            with_key(list, key).push(entry)
        } else {
            with_key(list, key)
        }),
{
    let pos = first_later(list, sort_key(entry.1), 0);
    lemma_first_later(list, sort_key(entry.1), 0);
    let front = list.subrange(0, pos);
    let back = list.subrange(pos, list.len() as int);
    assert(list =~= front + back);
    lemma_with_key_add(front, back, key);
    lemma_with_key_add(front.push(entry), back, key);
    lemma_with_key_push(front, entry, key);
    if sort_key(entry.1) == key {
        lemma_with_key_none(back, key);
    }
}

/// Ranking is stable: the entries of one rank stand in the ranked list in
/// the order in which they stand in the input.
pub proof fn lemma_stable_sorted_keeps_order(
    input: Seq<(SetupView, Option<usize>)>,
    n: nat,
    key: int,
)
    requires
        n <= input.len(),
    ensures
        with_key(stable_sorted(input, n), key) == with_key(input.take(n as int), key),
    decreases n,
{
    if n == 0 {
    } else {
        lemma_stable_sorted_keeps_order(input, (n - 1) as nat, key);
        lemma_stable_sorted(input, (n - 1) as nat);
        lemma_stable_insert_keeps_order(stable_sorted(input, (n - 1) as nat), input[n - 1], key);
        assert(input.take(n as int) =~= input.take(n - 1).push(input[n - 1]));
        lemma_with_key_push(input.take(n - 1), input[n - 1], key);
    }
}

/// The entries of a list of finds as plain values.
pub open spec fn found_views(list: Seq<(Setup, Option<usize>)>) -> Seq<(SetupView, Option<usize>)> {
    Seq::new(list.len(), |i: int| (list[i].0@, list[i].1))
}

/// Whether the first find ranks after the second.
pub fn ranks_after(a: Option<usize>, b: Option<usize>) -> (r: bool)
    ensures
        r == (sort_key(a) > sort_key(b)),
{
    match (a, b) {
        (_, None) => false,
        (None, Some(_)) => true,
        (Some(x), Some(y)) => x > y,
    }
}

/// Puts an entry into a list of finds behind the entries that do not rank
/// after it.
pub fn insert_found(sorted: &mut Vec<(Setup, Option<usize>)>, setup: Setup, found: Option<usize>)
    ensures
        found_views(final(sorted)@) == stable_insert(found_views(old(sorted)@), (setup@, found)),
{
    let ghost list = found_views(sorted@);
    let ghost key = sort_key(found);
    let mut pos: usize = 0;
    while pos < sorted.len() && !ranks_after(sorted[pos].1, found)
        invariant
            pos <= sorted.len(),
            list == found_views(sorted@),
            key == sort_key(found),
            first_later(list, key, 0) == first_later(list, key, pos as int),
        decreases sorted.len() - pos,
    {
        pos += 1;
    }
    sorted.insert(pos, (setup, found));
}

/// The setups with what the search finds for each, in the order of the
/// setups.
pub open spec fn searched(setups: Seq<SetupView>, outbreak_slots: Seq<u8>, max_advances: nat) -> Seq<
    (SetupView, Option<usize>),
> {
    Seq::new(
        setups.len(),
        |i: int| (setups[i], first_qualifying(setups[i], outbreak_slots, 0, max_advances)),
    )
}

/// The setups of a species in a game with the earliest advance of each, in
/// ascending order of that advance; setups without a find come last, and
/// setups that rank the same keep the order of `setups_of`.
pub open spec fn ranked_setups_in_game(
    game: Game,
    pokemon: Pokemon,
    outbreak_slots: Seq<u8>,
    max_advances: nat,
) -> Seq<(SetupView, Option<usize>)> {
    let unsorted = searched(setups_of(game, pokemon), outbreak_slots, max_advances);
    stable_sorted(unsorted, unsorted.len())
}

/// The setups of a species in all games, ranked: those of Ruby, Sapphire
/// and Emerald, each list ranked by itself, then ranked together.
pub open spec fn ranked_setups(pokemon: Pokemon, outbreak_slots: Seq<u8>, max_advances: nat) -> Seq<
    (SetupView, Option<usize>),
> {
    let unsorted = ranked_setups_in_game(Game::Ruby, pokemon, outbreak_slots, max_advances)
        + ranked_setups_in_game(Game::Sapphire, pokemon, outbreak_slots, max_advances)
        + ranked_setups_in_game(Game::Emerald, pokemon, outbreak_slots, max_advances);
    stable_sorted(unsorted, unsorted.len())
}

/// Searches every setup of a species in a game among the advances below
/// `max_advances`, and ranks the setups by what was found.
pub fn search_all_setups_in_game(
    game: Game,
    pokemon: Pokemon,
    outbreak_slots: &SlotTable,
    max_advances: usize,
) -> (res: Vec<(Setup, Option<usize>)>)
    ensures
        found_views(res@) == ranked_setups_in_game(
            game,
            pokemon,
            outbreak_slots@,
            max_advances as nat,
        ),
        is_ranked(found_views(res@)),
{
    let setups = make_setups(game, pokemon);
    let ghost unsorted = searched(setups_of(game, pokemon), outbreak_slots@, max_advances as nat);
    let mut res: Vec<(Setup, Option<usize>)> = Vec::new();
    let mut i: usize = 0;
    while i < setups.len()
        invariant
            i <= setups.len(),
            setup_views(setups@) == setups_of(game, pokemon),
            unsorted == searched(setups_of(game, pokemon), outbreak_slots@, max_advances as nat),
            found_views(res@) == stable_sorted(unsorted, i as nat),
        decreases setups.len() - i,
    {
        let found = search_earliest(&setups[i], outbreak_slots, max_advances);
        let setup = setups[i].duplicate();
        insert_found(&mut res, setup, found);
        i += 1;
    }
    proof {
        lemma_stable_sorted(unsorted, unsorted.len());
    }
    res
}

/// Puts the entries of `list` into `sorted`, one after the other, each
/// behind the entries that do not rank after it.
fn insert_all(
    sorted: &mut Vec<(Setup, Option<usize>)>,
    list: &Vec<(Setup, Option<usize>)>,
    Ghost(input): Ghost<Seq<(SetupView, Option<usize>)>>,
    Ghost(done): Ghost<nat>,
)
    requires
        found_views(old(sorted)@) == stable_sorted(input, done),
        done + list@.len() <= input.len(),
        input.subrange(done as int, (done + list@.len()) as int) == found_views(list@),
    ensures
        found_views(final(sorted)@) == stable_sorted(input, done + list@.len()),
{
    let mut i: usize = 0;
    while i < list.len()
        invariant
            i <= list.len(),
            done + list@.len() <= input.len(),
            input.subrange(done as int, (done + list@.len()) as int) == found_views(list@),
            found_views(sorted@) == stable_sorted(input, done + i as nat),
        decreases list.len() - i,
    {
        let setup = list[i].0.duplicate();
        let found = list[i].1;
        assert((setup@, found) == found_views(list@)[i as int]);
        insert_found(sorted, setup, found);
        i += 1;
    }
}

/// Searches every setup of a species in every game among the advances
/// below `max_advances`, and ranks the setups by what was found.
pub fn search_all_setups(pokemon: Pokemon, outbreak_slots: &SlotTable, max_advances: usize) -> (res:
    Vec<(Setup, Option<usize>)>)
    ensures
        found_views(res@) == ranked_setups(pokemon, outbreak_slots@, max_advances as nat),
        is_ranked(found_views(res@)),
{
    let ruby = search_all_setups_in_game(Game::Ruby, pokemon, outbreak_slots, max_advances);
    let sapphire = search_all_setups_in_game(Game::Sapphire, pokemon, outbreak_slots, max_advances);
    let emerald = search_all_setups_in_game(Game::Emerald, pokemon, outbreak_slots, max_advances);
    let ghost input = found_views(ruby@) + found_views(sapphire@) + found_views(emerald@);
    let mut res: Vec<(Setup, Option<usize>)> = Vec::new();
    assert(found_views(res@) =~= stable_sorted(input, 0));
    assert(input.subrange(0, ruby@.len() as int) =~= found_views(ruby@));
    insert_all(&mut res, &ruby, Ghost(input), Ghost(0));
    assert(input.subrange(ruby@.len() as int, (ruby@.len() + sapphire@.len()) as int) =~= found_views(
        sapphire@,
    ));
    insert_all(&mut res, &sapphire, Ghost(input), Ghost(ruby@.len()));
    assert(input.subrange(
        (ruby@.len() + sapphire@.len()) as int,
        (ruby@.len() + sapphire@.len() + emerald@.len()) as int,
    ) =~= found_views(emerald@));
    insert_all(&mut res, &emerald, Ghost(input), Ghost(ruby@.len() + sapphire@.len()));
    proof {
        lemma_stable_sorted(input, input.len());
    }
    res
}

/// The setups of a species in a game, each with the earliest advance among
/// the first ten million at which it yields a creature of the largest size,
/// in ascending order of that advance. A game that does not hold the species
/// gives an empty list.
pub fn get_earliest_advance_for_max_size_for_all_setups_in_game(
    game: Game,
    pokemon: Pokemon,
    outbreak_slots: &SlotTable,
) -> (res: Vec<(Setup, Option<usize>)>)
    ensures
        found_views(res@) == ranked_setups_in_game(
            game,
            pokemon,
            outbreak_slots@,
            MAX_SEARCH_ADVANCES as nat,
        ),
        is_ranked(found_views(res@)),
{
    search_all_setups_in_game(game, pokemon, outbreak_slots, MAX_SEARCH_ADVANCES)
}

/// The setups of a species in all games, each with the earliest advance
/// among the first ten million at which it yields a creature of the largest
/// size, in ascending order of that advance.
pub fn get_earliest_advance_for_max_size_for_all_setups(
    pokemon: Pokemon,
    outbreak_slots: &SlotTable,
) -> (res: Vec<(Setup, Option<usize>)>)
    ensures
        found_views(res@) == ranked_setups(pokemon, outbreak_slots@, MAX_SEARCH_ADVANCES as nat),
        is_ranked(found_views(res@)),
{
    search_all_setups(pokemon, outbreak_slots, MAX_SEARCH_ADVANCES)
}

} // verus!
