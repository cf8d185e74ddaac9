use rng_tools::pkm::{
    gen3_shiny, AbilityType, Gender, GenderRatio, Ivs, Nature, PkmFilter, SHINY_THRESHOLD,
};

const NATURES: [Nature; 25] = [
    Nature::Hardy,
    Nature::Lonely,
    Nature::Brave,
    Nature::Adamant,
    Nature::Naughty,
    Nature::Bold,
    Nature::Docile,
    Nature::Relaxed,
    Nature::Impish,
    Nature::Lax,
    Nature::Timid,
    Nature::Hasty,
    Nature::Serious,
    Nature::Jolly,
    Nature::Naive,
    Nature::Modest,
    Nature::Mild,
    Nature::Quiet,
    Nature::Bashful,
    Nature::Rash,
    Nature::Calm,
    Nature::Gentle,
    Nature::Sassy,
    Nature::Careful,
    Nature::Quirky,
];

#[test]
fn natures_are_numbered_in_order() {
    for (i, nature) in NATURES.iter().enumerate() {
        assert_eq!(Nature::from_u8(i as u8), *nature);
        assert_eq!(nature.to_u8(), i as u8);
    }
}

#[test]
fn nature_is_the_value_modulo_25() {
    assert_eq!(Nature::from_u8(25), Nature::Hardy);
    assert_eq!(Nature::from_u8(38), Nature::Jolly);
    assert_eq!(Nature::from_u8(255), Nature::Bold);
    assert_eq!(Nature::from_pid(0), Nature::Hardy);
    assert_eq!(Nature::from_pid(24), Nature::Quirky);
    assert_eq!(Nature::from_pid(0xFC33_67DB), Nature::Bold);
    assert_eq!(Nature::from_pid(0x60A1_E414), Nature::Calm);
    assert_eq!(Nature::from_pid(u32::MAX), NATURES[(u32::MAX % 25) as usize]);
}

#[test]
fn gender_thresholds() {
    let cases = [
        (GenderRatio::SevenToOne, 31u8),
        (GenderRatio::ThreeToOne, 63),
        (GenderRatio::OneToOne, 127),
        (GenderRatio::OneToThree, 191),
    ];
    for (ratio, threshold) in cases {
        assert_eq!(ratio.threshold_value(), threshold);
        assert_eq!(ratio.gender(0), Gender::Female);
        assert_eq!(ratio.gender(threshold - 1), Gender::Female);
        assert_eq!(ratio.gender(threshold), Gender::Male);
        assert_eq!(ratio.gender(255), Gender::Male);
        assert!(ratio.has_multiple_genders());
    }
}

#[test]
fn fixed_genders() {
    for rate in [0u8, 1, 127, 254, 255] {
        assert_eq!(GenderRatio::MaleOnly.gender(rate), Gender::Male);
        assert_eq!(GenderRatio::FemaleOnly.gender(rate), Gender::Female);
        assert_eq!(GenderRatio::Genderless.gender(rate), Gender::Genderless);
    }
    assert!(!GenderRatio::MaleOnly.has_multiple_genders());
    assert!(!GenderRatio::FemaleOnly.has_multiple_genders());
    assert!(!GenderRatio::Genderless.has_multiple_genders());
}

#[test]
fn gender_comes_from_the_low_byte() {
    assert_eq!(GenderRatio::OneToOne.gender_from_pid(0xFFFF_FF7E), Gender::Female);
    assert_eq!(GenderRatio::OneToOne.gender_from_pid(0x0000_007F), Gender::Male);
    assert_eq!(GenderRatio::OneToOne.gender_from_pid(0xFC33_67DB), Gender::Male);
    assert_eq!(GenderRatio::ThreeToOne.gender_from_pid(0xBF71_B039), Gender::Female);
}

#[test]
fn charm_draws_to_the_other_gender() {
    assert_eq!(Gender::Female.attracted(), Gender::Male);
    assert_eq!(Gender::Male.attracted(), Gender::Female);
    assert_eq!(Gender::Genderless.attracted(), Gender::Female);
}

#[test]
fn ability_is_the_low_bit() {
    assert_eq!(AbilityType::from_gen3_pid(0), AbilityType::First);
    assert_eq!(AbilityType::from_gen3_pid(1), AbilityType::Second);
    assert_eq!(AbilityType::from_gen3_pid(0xFFFF_FFFE), AbilityType::First);
    assert_eq!(AbilityType::from_gen3_pid(0xFFFF_FFFF), AbilityType::Second);
}

#[test]
fn shininess_threshold() {
    assert_eq!(SHINY_THRESHOLD, 8);
    // halves 0x1234 and 0x1234 cancel, trainer numbers decide
    assert!(gen3_shiny(0x1234_1234, 0, 0));
    assert!(gen3_shiny(0x1234_1234, 0, 7));
    assert!(!gen3_shiny(0x1234_1234, 0, 8));
    assert!(gen3_shiny(0x1234_1234, 0xFFFF, 0xFFF8));
    assert!(!gen3_shiny(0x1234_1234, 0xFFFF, 0xFFF7));
    assert!(gen3_shiny(0xABCD_0000, 0xABC8, 0x0002));
    assert!(!gen3_shiny(0xFC33_67DB, 0, 0));
    assert!(gen3_shiny(0xFC33_67DB, 0xFC33 ^ 0x67DB, 5));
}

#[test]
fn ivs_are_unpacked_from_two_words() {
    // word 1: hp = 31, atk = 1, def = 6; word 2: spe = 16, spa = 1, spd = 5
    let iv1: u16 = 31 | (1 << 5) | (6 << 10);
    let iv2: u16 = 16 | (1 << 5) | (5 << 10);
    let ivs = Ivs::new_g3(iv1, iv2);
    assert_eq!(ivs, Ivs { hp: 31, atk: 1, def: 6, spa: 1, spd: 5, spe: 16 });
    // the top bit of a word is ignored
    assert_eq!(Ivs::new_g3(iv1 | 0x8000, iv2 | 0x8000), ivs);
    assert_eq!(Ivs::new_g3(0, 0), Ivs::create_min());
    assert_eq!(Ivs::new_g3(0x7FFF, 0xFFFF), Ivs::create_max());
    assert_eq!(
        Ivs::new_g3(0x67DB, 0xC8AB),
        Ivs { hp: 27, atk: 30, def: 25, spa: 5, spd: 18, spe: 11 }
    );
}

#[test]
fn ivs_in_the_other_word_order() {
    let iv1: u16 = 31 | (1 << 5) | (6 << 10);
    let iv2: u16 = 16 | (1 << 5) | (5 << 10);
    assert_eq!(
        Ivs::new_g3_reversed(iv2, iv1),
        Ivs { hp: 31, atk: 1, def: 6, spa: 1, spd: 5, spe: 16 }
    );
    assert_eq!(
        Ivs::new_g3_reversed(iv1, iv2),
        Ivs { hp: 16, atk: 1, def: 5, spa: 1, spd: 6, spe: 31 }
    );
}

#[test]
fn unpacked_ivs_are_in_range() {
    let mut word: u16 = 0;
    for _ in 0..3000 {
        let ivs = Ivs::new_g3(word, word.wrapping_mul(31).wrapping_add(7));
        for v in [ivs.hp, ivs.atk, ivs.def, ivs.spa, ivs.spd, ivs.spe] {
            assert!(v <= 31);
        }
        word = word.wrapping_add(21_937);
    }
}

#[test]
fn iv_filter_bounds_are_inclusive() {
    let ivs = Ivs { hp: 10, atk: 11, def: 12, spa: 13, spd: 14, spe: 15 };
    assert!(ivs.filter(&Ivs::create_min(), &Ivs::create_max()));
    assert!(ivs.filter(&ivs, &ivs));
    let stats: [fn(&mut Ivs) -> &mut u8; 6] = [
        |i| &mut i.hp,
        |i| &mut i.atk,
        |i| &mut i.def,
        |i| &mut i.spa,
        |i| &mut i.spd,
        |i| &mut i.spe,
    ];
    for stat in stats {
        let mut min = ivs;
        *stat(&mut min) += 1;
        assert!(!ivs.filter(&min, &Ivs::create_max()));
        let mut max = ivs;
        *stat(&mut max) -= 1;
        assert!(!ivs.filter(&Ivs::create_min(), &max));
    }
}

#[test]
fn the_open_filter_asks_for_nothing() {
    let filter = PkmFilter::any();
    assert!(!filter.shiny);
    assert_eq!(filter.nature, None);
    assert_eq!(filter.gender, None);
    assert_eq!(filter.ability, None);
    assert_eq!(filter.min_ivs, Ivs::create_min());
    assert_eq!(filter.max_ivs, Ivs::create_max());
}
