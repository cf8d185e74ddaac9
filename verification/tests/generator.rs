use rng_tools::gen3::{EncounterSlot, Gen3Method, SlotTable};
use rng_tools::generator::{
    create_if_passes_filter, generate_gen3_wild, generate_gen3_wild_method2,
    generate_gen3_wild_method3, generate_gen3_wild_method4, generate_gen3_wild_method5,
    passes_ivs_filter, passes_pid_filter, to_result, Gen3EncounterType, Species,
    Wild3EncounterSlotInfo,
    Wild3EncounterTable, Wild3GeneratorOptions, Wild3GeneratorResult,
};
use rng_tools::generator_ng::{generate_pokemons, GeneratedPokemonCycle};
use rng_tools::pkm::{AbilityType, Gender, GenderRatio, Ivs, Nature, PkmFilter};
use rng_tools::rng::Pokerng;

fn open_opts() -> Wild3GeneratorOptions {
    Wild3GeneratorOptions {
        advance: 0,
        tid: 0,
        sid: 0,
        gender_ratio: GenderRatio::OneToOne,
        map_idx: 0,
        encounter_slot: None,
        methods: vec![
            Gen3Method::Wild1,
            Gen3Method::Wild2,
            Gen3Method::Wild3,
            Gen3Method::Wild4,
            Gen3Method::Wild5,
        ],
        lead: None,
        lead_pid: 0,
        mass_outbreak: false,
        outbreak_slots: SlotTable::land(),
        filter: PkmFilter::any(),
    }
}

const SLOT: EncounterSlot = EncounterSlot::Slot7;
const RANGE: (u64, u64) = (1000, 2000);

#[test]
fn pid_filter() {
    let pid = 0x1234_1238; // nature 13, even, low byte 0x38
    let o = open_opts();
    assert!(passes_pid_filter(&o, pid));
    assert!(passes_pid_filter(&o, 0));
    assert!(passes_pid_filter(&o, u32::MAX));

    let mut o = open_opts();
    o.filter.shiny = true;
    assert!(!passes_pid_filter(&o, pid));
    o.tid = 0x0004;
    o.sid = 0x000B;
    assert!(passes_pid_filter(&o, pid));
    o.sid = 0x0004;
    assert!(!passes_pid_filter(&o, pid));

    let mut o = open_opts();
    o.filter.ability = Some(AbilityType::First);
    assert!(passes_pid_filter(&o, pid));
    assert!(!passes_pid_filter(&o, pid + 1));

    let mut o = open_opts();
    o.filter.gender = Some(Gender::Female);
    assert!(passes_pid_filter(&o, pid));
    assert!(!passes_pid_filter(&o, 0x1234_12F8));
    o.gender_ratio = GenderRatio::SevenToOne;
    assert!(!passes_pid_filter(&o, pid));

    let mut o = open_opts();
    o.filter.nature = Some(Nature::from_pid(pid));
    assert!(passes_pid_filter(&o, pid));
    assert!(!passes_pid_filter(&o, pid + 1));
}

#[test]
fn ivs_filter() {
    let ivs = Ivs { hp: 10, atk: 11, def: 12, spa: 13, spd: 14, spe: 15 };
    let mut o = open_opts();
    assert!(passes_ivs_filter(&o, &ivs));
    o.filter.min_ivs = ivs;
    o.filter.max_ivs = ivs;
    assert!(passes_ivs_filter(&o, &ivs));
    o.filter.min_ivs.def = 13;
    assert!(!passes_ivs_filter(&o, &ivs));
    o.filter.min_ivs.def = 0;
    o.filter.max_ivs.spa = 12;
    assert!(!passes_ivs_filter(&o, &ivs));
}

#[test]
fn result_is_created_if_the_ivs_pass() {
    let ivs = Ivs { hp: 10, atk: 11, def: 12, spa: 13, spd: 14, spe: 15 };
    let mut o = open_opts();
    // the personality value is not looked at
    o.filter.shiny = true;
    o.filter.nature = Some(Nature::Hardy);
    assert_eq!(
        create_if_passes_filter(&o, 77, ivs, Gen3Method::Wild4, SLOT, RANGE),
        Some(Wild3GeneratorResult {
            encounter_slot: SLOT,
            pid: 77,
            ivs,
            method: Gen3Method::Wild4,
            cycle_range: RANGE
        })
    );
    o.filter.min_ivs.hp = 11;
    assert_eq!(create_if_passes_filter(&o, 77, ivs, Gen3Method::Wild4, SLOT, RANGE), None);
}

#[test]
fn method_two_alone() {
    // the draws from this state are 0xFA7E, 0xF62C, 0x58C7, 0xD7A7, ...
    let rng = Pokerng::new(0x2468_ACE0);
    let mut o = open_opts();
    let r = generate_gen3_wild_method2(rng, &o, SLOT, 0xABCD_EF01, RANGE).unwrap();
    assert_eq!(r.pid, 0xABCD_EF01);
    assert_eq!(r.ivs, Ivs::new_g3(0xF62C, 0x58C7));
    assert_eq!(r.method, Gen3Method::Wild2);
    assert_eq!(r.encounter_slot, SLOT);
    assert_eq!(r.cycle_range, RANGE);
    o.filter.min_ivs.hp = 13;
    assert_eq!(generate_gen3_wild_method2(rng, &o, SLOT, 0xABCD_EF01, RANGE), None);
    o.filter.min_ivs.hp = 12;
    assert!(generate_gen3_wild_method2(rng, &o, SLOT, 0xABCD_EF01, RANGE).is_some());
}

#[test]
fn method_four_alone() {
    let rng = Pokerng::new(0x2468_ACE0);
    let o = open_opts();
    let r = generate_gen3_wild_method4(rng, &o, SLOT, 0xABCD_EF01, 0x1234, RANGE).unwrap();
    assert_eq!(r.ivs, Ivs::new_g3(0x1234, 0xF62C));
    assert_eq!(r.method, Gen3Method::Wild4);
    assert_eq!(r.pid, 0xABCD_EF01);
}

#[test]
fn method_three_alone() {
    let rng = Pokerng::new(0x2468_ACE0);
    let mut o = open_opts();
    // upper half 0xF62C; with the lower half 0x000C the nature is 7
    let r = generate_gen3_wild_method3(rng, &o, SLOT, 0x000C, None, Nature::Relaxed, RANGE);
    let r = r.unwrap();
    assert_eq!(r.pid, 0xF62C_000C);
    assert_eq!(r.ivs, Ivs::new_g3(0x58C7, 0xD7A7));
    assert_eq!(r.method, Gen3Method::Wild3);
    // other nature asked for
    assert_eq!(
        generate_gen3_wild_method3(rng, &o, SLOT, 0x000C, None, Nature::Impish, RANGE),
        None
    );
    // gender asked for
    assert!(generate_gen3_wild_method3(
        rng,
        &o,
        SLOT,
        0x000C,
        Some(Gender::Female),
        Nature::Relaxed,
        RANGE
    )
    .is_some());
    assert_eq!(
        generate_gen3_wild_method3(
            rng,
            &o,
            SLOT,
            0x000C,
            Some(Gender::Male),
            Nature::Relaxed,
            RANGE
        ),
        None
    );
    // filter on the personality value
    o.filter.ability = Some(AbilityType::Second);
    assert_eq!(
        generate_gen3_wild_method3(rng, &o, SLOT, 0x000C, None, Nature::Relaxed, RANGE),
        None
    );
    o.filter.ability = Some(AbilityType::First);
    o.filter.max_ivs.hp = 6;
    assert_eq!(
        generate_gen3_wild_method3(rng, &o, SLOT, 0x000C, None, Nature::Relaxed, RANGE),
        None
    );
    o.filter.max_ivs.hp = 7;
    assert!(generate_gen3_wild_method3(rng, &o, SLOT, 0x000C, None, Nature::Relaxed, RANGE)
        .is_some());
}

#[test]
fn method_five_alone() {
    let rng = Pokerng::new(0x2468_ACE0);
    let mut o = open_opts();
    let r = generate_gen3_wild_method5(rng, &o, SLOT, None, Nature::Relaxed, RANGE).unwrap();
    assert_eq!(
        r,
        Wild3GeneratorResult {
            encounter_slot: SLOT,
            pid: 0x21A1_0D50,
            ivs: Ivs { hp: 21, atk: 14, def: 19, spe: 6, spa: 12, spd: 8 },
            method: Gen3Method::Wild5,
            cycle_range: RANGE,
        }
    );
    // the accepted value has to pass the filter; the search does not go on
    o.filter.ability = Some(AbilityType::Second);
    assert_eq!(generate_gen3_wild_method5(rng, &o, SLOT, None, Nature::Relaxed, RANGE), None);

    let mut o = open_opts();
    o.gender_ratio = GenderRatio::SevenToOne;
    let r = generate_gen3_wild_method5(rng, &o, SLOT, Some(Gender::Female), Nature::Relaxed, RANGE);
    let r = r.unwrap();
    assert_eq!(r.pid, 0xF9C1_FF14);
    assert_eq!(r.ivs, Ivs { hp: 19, atk: 4, def: 17, spe: 29, spa: 9, spd: 3 });
}

#[test]
fn flat_results_follow_the_record() {
    let o = open_opts();
    for seed in [0u32, 0x5A0, 0x2468_ACE0, 0xFFFF_FFFF] {
        let mut a = Pokerng::new(seed);
        let mut b = Pokerng::new(seed);
        let record = generate_pokemons(&mut a, &o);
        let flat = generate_gen3_wild(&mut b, &o);
        assert_eq!(a, b);
        let mut expected: Vec<Wild3GeneratorResult> = Vec::new();
        expected.extend(record.method3.iter().map(|c| to_result(c, Gen3Method::Wild3)));
        expected.extend(record.method5.iter().map(|c| to_result(c, Gen3Method::Wild5)));
        expected.extend(record.method2.iter().map(|c| to_result(c, Gen3Method::Wild2)));
        expected.extend(record.method4.iter().map(|c| to_result(c, Gen3Method::Wild4)));
        expected.extend(record.method1.iter().map(|c| to_result(c, Gen3Method::Wild1)));
        assert_eq!(flat, expected);
    }
}

#[test]
fn methods_not_asked_for_are_left_out() {
    let all = {
        let mut rng = Pokerng::new(0);
        generate_gen3_wild(&mut rng, &open_opts())
    };
    let singles = [
        Gen3Method::Wild1,
        Gen3Method::Wild2,
        Gen3Method::Wild3,
        Gen3Method::Wild4,
        Gen3Method::Wild5,
    ];
    for method in singles {
        let mut o = open_opts();
        o.methods = vec![method];
        let mut rng = Pokerng::new(0);
        let only = generate_gen3_wild(&mut rng, &o);
        let expected: Vec<Wild3GeneratorResult> =
            all.iter().copied().filter(|r| r.method == method).collect();
        assert_eq!(only, expected);
        assert!(!only.is_empty());
        // the draws do not depend on the methods
        assert_eq!(rng.state, 0xFC5E_CC3D);
    }
    let mut o = open_opts();
    o.methods = vec![];
    let mut rng = Pokerng::new(0);
    assert!(generate_gen3_wild(&mut rng, &o).is_empty());
    assert_eq!(rng.state, 0xFC5E_CC3D);
}

#[test]
fn results_have_the_nature_the_roll_settled_on() {
    let mut o = open_opts();
    o.lead = Some(rng_tools::gen3::Gen3Lead::CuteCharm(Gender::Female));
    o.gender_ratio = GenderRatio::OneToThree;
    let mut rng = Pokerng::new(0x0BAD_F00D);
    for _ in 0..2000 {
        let results = generate_gen3_wild(&mut rng.clone(), &o);
        if let Some(first) = results.first() {
            for r in &results {
                assert_eq!(Nature::from_pid(r.pid), Nature::from_pid(first.pid));
                assert_eq!(r.encounter_slot, first.encounter_slot);
                assert!(r.cycle_range.0 <= r.cycle_range.1);
                for v in [r.ivs.hp, r.ivs.atk, r.ivs.def, r.ivs.spa, r.ivs.spd, r.ivs.spe] {
                    assert!(v <= 31);
                }
            }
        }
        rng.next_u32();
    }
}

#[test]
fn record_to_result() {
    let c = GeneratedPokemonCycle {
        cycle_start: 5,
        cycle_end: 9,
        gen_mon: rng_tools::wild_model::GeneratedPokemon {
            pid: 42,
            shiny: false,
            ability: AbilityType::First,
            gender: Gender::Male,
            ivs: Ivs::create_max(),
            nature: Nature::Quiet,
            advance: 3,
            encounter_slot: EncounterSlot::Slot9,
            synch: true,
        },
    };
    assert_eq!(
        to_result(&c, Gen3Method::Wild5),
        Wild3GeneratorResult {
            encounter_slot: EncounterSlot::Slot9,
            pid: 42,
            ivs: Ivs::create_max(),
            method: Gen3Method::Wild5,
            cycle_range: (5, 9),
        }
    );
}

#[test]
fn encounter_tables_are_plain_data() {
    let info = Wild3EncounterSlotInfo {
        min_level: 2,
        max_level: 4,
        species: Species { id: 270 },
        gender_ratio: GenderRatio::OneToOne,
        is_electric_type: false,
        is_steel_type: false,
    };
    let table = Wild3EncounterTable {
        map_id: String::from("route_102"),
        encounter_type: Gen3EncounterType::Land,
        slots: vec![info; 12],
    };
    let copy = table.clone();
    assert_eq!(copy.map_id, "route_102");
    assert_eq!(copy.slots.len(), 12);
    assert_eq!(copy.slots[11], info);
    assert_eq!(copy.encounter_type, Gen3EncounterType::Land);
}
