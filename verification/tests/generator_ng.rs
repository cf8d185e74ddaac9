use rng_tools::gen3::{EncounterSlot, Gen3Lead, Gen3Method, SlotTable};
use rng_tools::generator::Wild3GeneratorOptions;
use rng_tools::generator_ng::{
    draw_ivs, draw_pid, finish_reroll, generate_3wild_end, generate_3wild_method2,
    generate_3wild_method3_or_5, generate_3wild_method4, generate_3wild_method5,
    generate_pokemons, influence_of, is_accepted, make_pid, reroll, slot_for,
    GeneratedPokemonCycle, GeneratedPokemons,
};
use rng_tools::pkm::{AbilityType, Gender, GenderRatio, Ivs, Nature, PkmFilter};
use rng_tools::rng::Pokerng;
use rng_tools::wild_model::{GeneratedPokemon, Influence, Target, FRAME_CYCLES, REROLL_LIMIT};

fn new_opts() -> Wild3GeneratorOptions {
    Wild3GeneratorOptions {
        advance: 0,
        tid: 0,
        sid: 0,
        gender_ratio: GenderRatio::OneToOne,
        map_idx: 0,
        encounter_slot: None,
        methods: vec![
            Gen3Method::Wild1,
            Gen3Method::Wild2,
            Gen3Method::Wild3,
            Gen3Method::Wild4,
            Gen3Method::Wild5,
        ],
        lead: Some(Gen3Lead::Synchronize(Nature::Hardy)),
        lead_pid: 0,
        mass_outbreak: false,
        outbreak_slots: SlotTable::land(),
        filter: PkmFilter {
            shiny: false,
            nature: None,
            gender: None,
            min_ivs: Ivs { hp: 0, atk: 0, def: 0, spa: 0, spd: 0, spe: 0 },
            max_ivs: Ivs { hp: 31, atk: 31, def: 31, spa: 31, spd: 31, spe: 31 },
            ability: None,
        },
    }
}

fn target(nature_rand: u8, gender: Option<Gender>) -> Target {
    Target { encounter_slot: EncounterSlot::Slot3, nature_rand, gender, synch: false }
}

fn mon(pid: u32, ivs: Ivs, nature: Nature, gender: Gender) -> GeneratedPokemon {
    GeneratedPokemon {
        pid,
        shiny: false,
        ability: if pid % 2 == 0 { AbilityType::First } else { AbilityType::Second },
        gender,
        ivs,
        nature,
        advance: 0,
        encounter_slot: EncounterSlot::Slot0,
        synch: false,
    }
}

fn cyc(cycle_start: u64, cycle_end: u64, gen_mon: GeneratedPokemon) -> GeneratedPokemonCycle {
    GeneratedPokemonCycle { cycle_start, cycle_end, gen_mon }
}

#[test]
fn gen_mons_one() {
    let seed = 0;
    let options = new_opts();

    let mut rng = Pokerng::new(seed);

    rng.advance(0);

    let gen_mons = generate_pokemons(&mut rng, &options);
    println!("{:?}", gen_mons);

    let pid = 0x60A1_E414;
    assert_eq!(
        gen_mons.method1,
        Some(cyc(
            231_196,
            280_896,
            mon(
                pid,
                Ivs { hp: 11, atk: 25, def: 10, spe: 24, spa: 25, spd: 3 },
                Nature::Calm,
                Gender::Female
            )
        ))
    );
    assert_eq!(
        gen_mons.method2,
        Some(cyc(
            76_452,
            192_049,
            mon(
                pid,
                Ivs { hp: 24, atk: 25, def: 3, spe: 0, spa: 21, spd: 13 },
                Nature::Calm,
                Gender::Female
            )
        ))
    );
    assert_eq!(
        gen_mons.method4,
        Some(cyc(
            192_049,
            231_196,
            mon(
                pid,
                Ivs { hp: 11, atk: 25, def: 10, spe: 0, spa: 21, spd: 13 },
                Nature::Calm,
                Gender::Female
            )
        ))
    );
    assert_eq!(
        gen_mons.method3,
        vec![
            cyc(
                49_106,
                49_186,
                mon(
                    0xEBD6_FC5E,
                    Ivs { hp: 29, atk: 9, def: 6, spe: 28, spa: 21, spd: 30 },
                    Nature::Calm,
                    Gender::Female
                )
            ),
            cyc(
                62_395,
                62_475,
                mon(
                    0x31AA_1C49,
                    Ivs { hp: 9, atk: 20, def: 10, spe: 5, spa: 30, spd: 20 },
                    Nature::Calm,
                    Gender::Female
                )
            ),
            cyc(
                67_455,
                67_535,
                mon(
                    0xFBB3_5A5F,
                    Ivs { hp: 1, atk: 31, def: 15, spe: 14, spa: 28, spd: 30 },
                    Nature::Calm,
                    Gender::Female
                )
            ),
        ]
    );
    let rerolled = mon(
        0xB54B_F009,
        Ivs { hp: 14, atk: 16, def: 9, spe: 8, spa: 21, spd: 13 },
        Nature::Calm,
        Gender::Female,
    );
    assert_eq!(
        gen_mons.method5,
        vec![
            cyc(46_108, 49_106, rerolled),
            cyc(49_186, 62_395, rerolled),
            cyc(62_475, 67_455, rerolled),
            cyc(67_535, 76_452, rerolled),
        ]
    );
    assert_eq!(gen_mons.pid_reroll_count, 31);
    assert_eq!(gen_mons.pid_reroll_cycle, 30_344);
    assert_eq!(rng.state, 0x8F38_4E24);
}

#[test]
fn old_gen_mons() {
    let seed = 0;
    let options = new_opts();

    let mut rng = Pokerng::new(seed);

    let mut max: u64 = 0;
    let mut count_at_max = 0;
    let mut advance_at_max = 0;
    let mut total = 0;
    rng.advance(0);
    for i in 0..10000 {
        let gen_mons = generate_pokemons(&mut rng.clone(), &options);
        total += gen_mons.pid_reroll_count;

        if gen_mons.pid_reroll_cycle > max {
            println!(
                "max cycle: {}, count: {}, adv={}",
                gen_mons.pid_reroll_cycle, gen_mons.pid_reroll_count, i
            );
            max = gen_mons.pid_reroll_cycle;
            count_at_max = gen_mons.pid_reroll_count;
            advance_at_max = i;
        }
        rng.advance(1);
    }
    assert_eq!(max, 207_129);
    assert_eq!(count_at_max, 205);
    assert_eq!(advance_at_max, 5620);
    assert_eq!(total, 258_429);

    let gen_mons = generate_pokemons(&mut rng, &options);
    println!("{:?}", gen_mons);
    assert!(gen_mons.pid_reroll_count >= 1);
}

#[test]
fn windows_of_method_five_are_merged() {
    // the first entry of method 5 in the roll from seed 0 spans the windows
    // of several rejected values; one rejected value costs at most 1293 cycles
    let mut rng = Pokerng::new(0);
    let gen_mons = generate_pokemons(&mut rng, &new_opts());
    let first = gen_mons.method5[0];
    assert_eq!((first.cycle_start, first.cycle_end), (46_108, 49_106));
    assert!(first.cycle_end - first.cycle_start > 1293);
    for pair in gen_mons.method5.windows(2) {
        let continues = pair[0].cycle_end == pair[1].cycle_start
            && pair[0].gen_mon.pid == pair[1].gen_mon.pid
            && pair[0].gen_mon.ivs == pair[1].gen_mon.ivs;
        assert!(!continues);
    }
}

#[test]
fn no_roll_leaves_windows_that_continue_each_other() {
    let options = new_opts();
    let mut rng = Pokerng::new(0x5A0);
    for _ in 0..3000 {
        let gen_mons = generate_pokemons(&mut rng.clone(), &options);
        for pair in gen_mons.method5.windows(2) {
            let continues = pair[0].cycle_end == pair[1].cycle_start
                && pair[0].gen_mon.pid == pair[1].gen_mon.pid
                && pair[0].gen_mon.ivs == pair[1].gen_mon.ivs;
            assert!(!continues);
            assert!(pair[0].cycle_end <= pair[1].cycle_start);
        }
        for pair in gen_mons.method3.windows(2) {
            assert!(pair[0].cycle_end <= pair[1].cycle_start);
        }
        rng.next_u32();
    }
}

#[test]
fn every_creature_has_the_nature_of_its_personality_value() {
    let mut options = new_opts();
    options.lead = Some(Gen3Lead::CuteCharm(Gender::Male));
    options.gender_ratio = GenderRatio::ThreeToOne;
    let mut rng = Pokerng::new(0xDEAD_BEEF);
    let mut charmed_rolls = 0;
    for _ in 0..3000 {
        let gen_mons = generate_pokemons(&mut rng.clone(), &options);
        let mut all: Vec<GeneratedPokemonCycle> = Vec::new();
        all.extend(gen_mons.method1);
        all.extend(gen_mons.method2);
        all.extend(gen_mons.method4);
        all.extend(gen_mons.method3.iter().copied());
        all.extend(gen_mons.method5.iter().copied());
        // the third draw of the roll decides whether the charm takes, the
        // fourth is the nature
        let mut draws = rng;
        draws.advance(2);
        let charmed = draws.next_u16() % 3 != 0;
        let nature = Nature::from_u8((draws.next_u16() % 25) as u8);
        assert!(gen_mons.method1.is_some());
        for c in &all {
            let m = c.gen_mon;
            assert_eq!(m.nature, nature);
            assert_eq!(m.nature, Nature::from_pid(m.pid));
            assert_eq!(m.gender, options.gender_ratio.gender_from_pid(m.pid));
            if charmed {
                assert_eq!(m.gender, Gender::Female);
            }
            for v in [m.ivs.hp, m.ivs.atk, m.ivs.def, m.ivs.spa, m.ivs.spd, m.ivs.spe] {
                assert!(v <= 31);
            }
            assert!(c.cycle_start <= c.cycle_end);
        }
        if charmed {
            charmed_rolls += 1;
        }
        rng.next_u32();
    }
    // two rolls in three
    assert!(charmed_rolls > 1800 && charmed_rolls < 2200);
}

#[test]
fn a_slot_that_does_not_count_ends_the_roll() {
    let mut options = new_opts();
    options.encounter_slot = Some(vec![EncounterSlot::Slot4, EncounterSlot::Slot5]);
    let mut rng = Pokerng::new(0);
    let gen_mons = generate_pokemons(&mut rng, &options);
    assert_eq!(gen_mons.method1, None);
    assert_eq!(gen_mons.method2, None);
    assert_eq!(gen_mons.method4, None);
    assert!(gen_mons.method3.is_empty());
    assert!(gen_mons.method5.is_empty());
    assert_eq!(gen_mons.pid_reroll_count, 0);
    assert_eq!(gen_mons.pid_reroll_cycle, 0);
    // one draw was taken
    assert_eq!(rng.state, 0x0000_6073);
}

#[test]
fn a_roll_is_repeatable() {
    let options = new_opts();
    for seed in [0u32, 0x5A0, 0xFFFF_FFFF, 0x1234_5678] {
        let mut a = Pokerng::new(seed);
        let mut b = Pokerng::new(seed);
        let first = generate_pokemons(&mut a, &options);
        let second = generate_pokemons(&mut b, &options);
        assert_eq!(first.method1, second.method1);
        assert_eq!(first.method2, second.method2);
        assert_eq!(first.method3, second.method3);
        assert_eq!(first.method4, second.method4);
        assert_eq!(first.method5, second.method5);
        assert_eq!(first.pid_reroll_count, second.pid_reroll_count);
        assert_eq!(first.pid_reroll_cycle, second.pid_reroll_cycle);
        assert_eq!(a, b);
    }
}

#[test]
fn method_one_window_runs_to_the_end_of_the_frame() {
    assert_eq!(FRAME_CYCLES, 280_896);
    let options = new_opts();
    // at advance 5620 from seed 0 the personality values alone take 207129 cycles
    let mut rng = Pokerng::new(0);
    rng.advance(5620);
    let gen_mons = generate_pokemons(&mut rng, &options);
    assert_eq!(gen_mons.pid_reroll_cycle, 207_129);
    let m1 = gen_mons.method1.unwrap();
    assert!(m1.cycle_start > FRAME_CYCLES);
    assert_eq!(m1.cycle_end, m1.cycle_start);
    let m4 = gen_mons.method4.unwrap();
    assert_eq!(m4.cycle_end, m1.cycle_start);
    let m2 = gen_mons.method2.unwrap();
    assert_eq!(m2.cycle_end, m4.cycle_start);
}

#[test]
fn new_record_is_empty() {
    let gen_mons = GeneratedPokemons::new();
    assert_eq!(gen_mons.method1, None);
    assert_eq!(gen_mons.method2, None);
    assert_eq!(gen_mons.method4, None);
    assert!(gen_mons.method3.is_empty());
    assert!(gen_mons.method5.is_empty());
    assert_eq!(gen_mons.pid_reroll_cycle, 0);
    assert_eq!(gen_mons.pid_reroll_count, 0);
}

#[test]
fn add_method5_merges_only_what_continues() {
    let ivs_a = Ivs { hp: 1, atk: 2, def: 3, spa: 4, spd: 5, spe: 6 };
    let ivs_b = Ivs { hp: 1, atk: 2, def: 3, spa: 4, spd: 5, spe: 7 };
    let a = mon(100, ivs_a, Nature::Hardy, Gender::Male);
    let mut gen_mons = GeneratedPokemons::new();

    gen_mons.add_method5(cyc(10, 20, a));
    assert_eq!(gen_mons.method5, vec![cyc(10, 20, a)]);

    // same creature, window starts where the last ends: merged
    gen_mons.add_method5(cyc(20, 35, a));
    assert_eq!(gen_mons.method5, vec![cyc(10, 35, a)]);

    // same creature after a gap: kept apart
    gen_mons.add_method5(cyc(36, 40, a));
    assert_eq!(gen_mons.method5, vec![cyc(10, 35, a), cyc(36, 40, a)]);

    // other personality value: kept apart
    let b = mon(125, ivs_a, Nature::Hardy, Gender::Male);
    gen_mons.add_method5(cyc(40, 50, b));
    assert_eq!(gen_mons.method5.len(), 3);

    // other individual values: kept apart
    let c = mon(125, ivs_b, Nature::Hardy, Gender::Male);
    gen_mons.add_method5(cyc(50, 60, c));
    assert_eq!(gen_mons.method5.len(), 4);

    // traits that do not count for the merge may differ; the entry keeps its own
    let mut d = c;
    d.advance = 9;
    d.synch = true;
    gen_mons.add_method5(cyc(60, 61, d));
    assert_eq!(gen_mons.method5.len(), 4);
    assert_eq!(gen_mons.method5[3], cyc(50, 61, c));

    // an empty window that continues is merged too
    gen_mons.add_method5(cyc(61, 61, c));
    assert_eq!(gen_mons.method5[3], cyc(50, 61, c));
    assert_eq!(gen_mons.method1, None);
    assert!(gen_mons.method3.is_empty());
}

#[test]
fn personality_value_from_halves() {
    assert_eq!(make_pid(0x3432, 0xFF12), 0xFF12_3432);
    assert_eq!(make_pid(0, 0), 0);
    assert_eq!(make_pid(0xFFFF, 0), 0x0000_FFFF);
    assert_eq!(make_pid(0, 0xFFFF), 0xFFFF_0000);
    assert_eq!(make_pid(0xFFFF, 0xFFFF), 0xFFFF_FFFF);
    let mut rng = Pokerng::new(0x2468_ACE0);
    assert_eq!(draw_pid(&mut rng), 0xF62C_FA7E);
    assert_eq!(draw_ivs(&mut rng), Ivs::new_g3(0x58C7, 0xD7A7));
    let mut stepped = Pokerng::new(0x2468_ACE0);
    stepped.advance(4);
    assert_eq!(rng, stepped);
}

#[test]
fn acceptance() {
    let ratio = GenderRatio::OneToOne;
    assert!(is_accepted(ratio, &target(7, None), 7));
    assert!(is_accepted(ratio, &target(7, None), 0xF62C_000C));
    assert!(!is_accepted(ratio, &target(8, None), 0xF62C_000C));
    // low byte 0x0C is female at one to one
    assert!(is_accepted(ratio, &target(7, Some(Gender::Female)), 0xF62C_000C));
    assert!(!is_accepted(ratio, &target(7, Some(Gender::Male)), 0xF62C_000C));
    assert!(is_accepted(GenderRatio::MaleOnly, &target(7, Some(Gender::Male)), 0xF62C_000C));
    assert!(!is_accepted(ratio, &target(7, Some(Gender::Genderless)), 0xF62C_000C));
}

#[test]
fn reroll_stops_at_the_first_accepted_value() {
    let mut rng = Pokerng::new(0x2468_ACE0);
    assert_eq!(reroll(&mut rng, GenderRatio::OneToOne, &target(7, None)), Some(0x6D08_1B3F));
    assert_eq!(rng.state, 0x6D08_BEB6);
    // 22 values are rejected before it
    let mut stepped = Pokerng::new(0x2468_ACE0);
    stepped.advance(2 * 22 + 2);
    assert_eq!(rng, stepped);

    let mut rng = Pokerng::new(0x2468_ACE0);
    let female = target(7, Some(Gender::Female));
    assert_eq!(reroll(&mut rng, GenderRatio::SevenToOne, &female), Some(0x443F_E809));
    assert_eq!(rng.state, 0x443F_63EA);
    assert_eq!(REROLL_LIMIT, 1 << 31);
}

#[test]
fn method_five_loses_a_draw_and_rerolls() {
    let options = new_opts();
    let rng = Pokerng::new(0x2468_ACE0);
    let found = generate_3wild_method5(rng, &options, &target(7, None)).unwrap();
    assert_eq!(found.pid, 0x21A1_0D50);
    assert_eq!(found.ivs, Ivs { hp: 21, atk: 14, def: 19, spe: 6, spa: 12, spd: 8 });
    assert_eq!(found.nature, Nature::Relaxed);
    assert_eq!(found.encounter_slot, EncounterSlot::Slot3);
    // the same as a reroll from one step further
    let mut next = Pokerng::new(0x2468_ACE0);
    next.next_u32();
    assert_eq!(finish_reroll(next, &options, &target(7, None)), Some(found));

    let mut charmed = new_opts();
    charmed.gender_ratio = GenderRatio::SevenToOne;
    let female = target(7, Some(Gender::Female));
    let found = generate_3wild_method5(rng, &charmed, &female).unwrap();
    assert_eq!(found.pid, 0xF9C1_FF14);
    assert_eq!(found.gender, Gender::Female);
    assert_eq!(found.ivs, Ivs { hp: 19, atk: 4, def: 17, spe: 29, spa: 9, spd: 3 });
}

#[test]
fn method_three_or_five() {
    let options = new_opts();
    let rng = Pokerng::new(0x2468_ACE0);
    // the upper half is the second draw from here, 0xF62C
    let (method3, found) = generate_3wild_method3_or_5(rng, &options, 0x000C, &target(7, None));
    assert!(method3);
    let found = found.unwrap();
    assert_eq!(found.pid, 0xF62C_000C);
    assert_eq!(found.ivs, Ivs::new_g3(0x58C7, 0xD7A7));

    // with a rejected value the reroll goes on after the upper half
    let (method3, found) = generate_3wild_method3_or_5(rng, &options, 0x1111, &target(7, None));
    assert!(!method3);
    let mut after = Pokerng::new(0x2468_ACE0);
    after.advance(2);
    assert_eq!(found, finish_reroll(after, &options, &target(7, None)));
    assert_eq!(found, generate_3wild_method5(
        {
            let mut r = Pokerng::new(0x2468_ACE0);
            r.advance(1);
            r
        },
        &options,
        &target(7, None)
    ));
}

#[test]
fn methods_two_and_four() {
    let options = new_opts();
    let rng = Pokerng::new(0x2468_ACE0);
    let t = target(12, None);
    let found = generate_3wild_method2(rng, &options, 0x1234_5678, &t).unwrap();
    assert_eq!(found.pid, 0x1234_5678);
    assert_eq!(found.ivs, Ivs::new_g3(0xF62C, 0x58C7));
    assert_eq!(found.nature, Nature::Serious);
    let found = generate_3wild_method4(rng, &options, 0x1234_5678, &t, 0x7FFF).unwrap();
    assert_eq!(found.ivs, Ivs::new_g3(0x7FFF, 0xF62C));
}

#[test]
fn end_applies_every_filter() {
    let ivs = Ivs { hp: 10, atk: 11, def: 12, spa: 13, spd: 14, spe: 15 };
    let t = target(13, None);
    let pid = 0x1234_1238; // even, low byte 0x38: female at one to one
    let mut options = new_opts();
    options.advance = 77;
    let found = generate_3wild_end(&options, pid, ivs, &t).unwrap();
    assert_eq!(
        found,
        GeneratedPokemon {
            pid,
            shiny: false,
            ability: AbilityType::First,
            gender: Gender::Female,
            ivs,
            nature: Nature::Jolly,
            advance: 77,
            encounter_slot: EncounterSlot::Slot3,
            synch: false,
        }
    );

    let mut o = new_opts();
    o.filter.shiny = true;
    assert_eq!(generate_3wild_end(&o, pid, ivs, &t), None);
    o.sid = 0x000C;
    assert!(generate_3wild_end(&o, pid, ivs, &t).unwrap().shiny);

    let mut o = new_opts();
    o.filter.ability = Some(AbilityType::Second);
    assert_eq!(generate_3wild_end(&o, pid, ivs, &t), None);
    o.filter.ability = Some(AbilityType::First);
    assert!(generate_3wild_end(&o, pid, ivs, &t).is_some());

    let mut o = new_opts();
    o.filter.gender = Some(Gender::Male);
    assert_eq!(generate_3wild_end(&o, pid, ivs, &t), None);
    o.filter.gender = Some(Gender::Female);
    assert!(generate_3wild_end(&o, pid, ivs, &t).is_some());

    let mut o = new_opts();
    o.filter.nature = Some(Nature::Hardy);
    assert_eq!(generate_3wild_end(&o, pid, ivs, &t), None);
    o.filter.nature = Some(Nature::Jolly);
    assert!(generate_3wild_end(&o, pid, ivs, &t).is_some());

    let mut o = new_opts();
    o.filter.min_ivs.spe = 16;
    assert_eq!(generate_3wild_end(&o, pid, ivs, &t), None);
    o.filter.min_ivs.spe = 15;
    o.filter.max_ivs.hp = 10;
    assert!(generate_3wild_end(&o, pid, ivs, &t).is_some());
    o.filter.max_ivs.hp = 9;
    assert_eq!(generate_3wild_end(&o, pid, ivs, &t), None);
}

#[test]
fn lead_influence() {
    let mut o = new_opts();
    o.lead = None;
    assert_eq!(influence_of(&o), Influence::Plain);
    o.lead = Some(Gen3Lead::Synchronize(Nature::Jolly));
    assert_eq!(influence_of(&o), Influence::Synchronize(Nature::Jolly));
    o.lead = Some(Gen3Lead::CuteCharm(Gender::Female));
    assert_eq!(influence_of(&o), Influence::Charm(Gender::Female));
    for ratio in [GenderRatio::Genderless, GenderRatio::MaleOnly, GenderRatio::FemaleOnly] {
        o.gender_ratio = ratio;
        assert_eq!(influence_of(&o), Influence::Plain);
    }
}

#[test]
fn outbreak_flag_swaps_the_table() {
    let mut o = new_opts();
    o.outbreak_slots = SlotTable { bounds: vec![50, 100] };
    assert_eq!(slot_for(&o, 45), EncounterSlot::Slot2);
    assert_eq!(slot_for(&o, 99), EncounterSlot::Slot11);
    o.mass_outbreak = true;
    assert_eq!(slot_for(&o, 45), EncounterSlot::Slot0);
    assert_eq!(slot_for(&o, 99), EncounterSlot::Slot1);
}
