use rng_tools::modulo_cycle_count_calc::{
    calc_modulo_cycle_s, calc_modulo_cycle_u, calc_modulo_cycle_u_from_lua,
    calculate_distribution_modulo_cycle_u_24_upto, find_longest_modulo_cycle_u_upto,
};

#[test]
fn test_calc_modulo_cycle_u() {
    assert_eq!(calc_modulo_cycle_u(0x4747745, 1), 868);
    assert_eq!(calc_modulo_cycle_s(0x4747745, 1), 888);

    assert_eq!(calc_modulo_cycle_u(0x59999995, 24), 900);

    assert_eq!(calc_modulo_cycle_u(0x5d555550, 25), 900);

    assert_eq!(calc_modulo_cycle_u(24, 25), 18);
    assert_eq!(calc_modulo_cycle_u(25, 25), 126);

    assert_eq!(calc_modulo_cycle_u(1140479406, 25), 767);
    assert_eq!(calc_modulo_cycle_u(1141359974, 25), 836);
    assert_eq!(calc_modulo_cycle_u(1270576878, 25), 777);
    assert_eq!(calc_modulo_cycle_u(1355424535, 25), 767);
    assert_eq!(calc_modulo_cycle_u(1584375516, 25), 807);
    assert_eq!(calc_modulo_cycle_u(1708021406, 25), 776);
    assert_eq!(calc_modulo_cycle_u(1749665817, 25), 754);
    assert_eq!(calc_modulo_cycle_u(2081426142, 25), 804);
    assert_eq!(calc_modulo_cycle_u(524763481, 25), 777);
    assert_eq!(calc_modulo_cycle_u(927365657, 25), 735);

    assert_eq!(calc_modulo_cycle_u(1455995688, 100), 799);
    assert_eq!(calc_modulo_cycle_u(1969433148, 100), 783);
    assert_eq!(calc_modulo_cycle_u(704919059, 100), 803);
    assert_eq!(calc_modulo_cycle_u(1025776836, 100), 768);
    assert_eq!(calc_modulo_cycle_u(765851278, 100), 762);
    assert_eq!(calc_modulo_cycle_u(1609208851, 100), 774);
    assert_eq!(calc_modulo_cycle_u(1915624704, 100), 729);

    assert_eq!(calc_modulo_cycle_u(133070802, 44), 773);
    assert_eq!(calc_modulo_cycle_u(2690473360, 91), 780);
    assert_eq!(calc_modulo_cycle_u(517978802, 82), 777);
    assert_eq!(calc_modulo_cycle_u(932746226, 64), 801);
    assert_eq!(calc_modulo_cycle_u(1447158151, 94), 808);
    assert_eq!(calc_modulo_cycle_u(1586160591, 81), 798);
    assert_eq!(calc_modulo_cycle_u(2533948937, 55), 848);
}

#[test]
fn test_calc_modulo_cycle_u_from_lua() {
    assert_eq!(calc_modulo_cycle_u_from_lua(-5304908, 74), 783);
    assert_eq!(calc_modulo_cycle_u_from_lua(-3153559, 76), 808);
    assert_eq!(calc_modulo_cycle_u_from_lua(-10278414, 10), 854);
    assert_eq!(calc_modulo_cycle_u_from_lua(-11024636, 87), 728);
    assert_eq!(calc_modulo_cycle_u_from_lua(-3041458, 22), 750);
    assert_eq!(calc_modulo_cycle_u_from_lua(-2424550, 41), 803);
    assert_eq!(calc_modulo_cycle_u_from_lua(-10575121, 75), 727);
    assert_eq!(calc_modulo_cycle_u_from_lua(-3202050, 10), 866);
    assert_eq!(calc_modulo_cycle_u_from_lua(-9188001, 97), 764);
    assert_eq!(calc_modulo_cycle_u_from_lua(-1854680, 4), 843);
}

#[test]
fn test_calc_modulo_cycle_s() {
    assert_eq!(calc_modulo_cycle_s(1881135926, 25), 836);
    assert_eq!(calc_modulo_cycle_s(375357918, 25), 792);
    assert_eq!(calc_modulo_cycle_s(1413825380, 25), 801);
    assert_eq!(calc_modulo_cycle_s(-118428064, 25), 781);
    assert_eq!(calc_modulo_cycle_s(1657444058, 25), 827);
    assert_eq!(calc_modulo_cycle_s(38557744, 25), 782);
    assert_eq!(calc_modulo_cycle_s(-1372116835, 25), 762);

    assert_eq!(calc_modulo_cycle_s(1321724843, 99), 811);
    assert_eq!(calc_modulo_cycle_s(-974761848, 99), 782);
    assert_eq!(calc_modulo_cycle_s(660664920, 99), 751);
    assert_eq!(calc_modulo_cycle_s(1843514586, 99), 803);
    assert_eq!(calc_modulo_cycle_s(-1436296528, 99), 777);
    assert_eq!(calc_modulo_cycle_s(-432991421, 99), 785);

    assert_eq!(calc_modulo_cycle_s(1403756501, 49), 812);
    assert_eq!(calc_modulo_cycle_s(-493429862, 48), 802);
    assert_eq!(calc_modulo_cycle_s(-1001956674, 33), 824);
    assert_eq!(calc_modulo_cycle_s(-321103627, 36), 765);
    assert_eq!(calc_modulo_cycle_s(904862469, 14), 874);
    assert_eq!(calc_modulo_cycle_s(-357004509, 83), 769);
    assert_eq!(calc_modulo_cycle_s(396388959, 21), 785);
    assert_eq!(calc_modulo_cycle_s(-367289968, 12), 843);
    assert_eq!(calc_modulo_cycle_s(771082162, 15), 857);
}

#[test]
fn zero_divisor_costs_nothing() {
    assert_eq!(calc_modulo_cycle_u(0, 0), 0);
    assert_eq!(calc_modulo_cycle_u(123456, 0), 0);
    assert_eq!(calc_modulo_cycle_u_from_lua(-1, 0), 0);
    assert_eq!(calc_modulo_cycle_s(0, 0), 0);
    assert_eq!(calc_modulo_cycle_s(-77, 0), 0);
}

#[test]
fn small_dividend_takes_the_short_way() {
    assert_eq!(calc_modulo_cycle_u(0, 1), 18);
    assert_eq!(calc_modulo_cycle_u(99, 100), 18);
    // entry 20, positive divisor 4, positive dividend 4, way out 32
    assert_eq!(calc_modulo_cycle_s(3, 25), 60);
    // entry 20, positive divisor 4, way out 28
    assert_eq!(calc_modulo_cycle_s(-3, 25), 52);
    assert_eq!(calc_modulo_cycle_s(0, 25), 52);
    // entry 20, positive dividend 4, way out 32
    assert_eq!(calc_modulo_cycle_s(3, -25), 56);
}

#[test]
fn signed_extremes_do_not_fault() {
    // the magnitude of the smallest i32 is 2^31
    assert_eq!(calc_modulo_cycle_s(i32::MIN, i32::MIN), 20 + 8 + 10 + 2 + 10 + 44 + 12 + 32);
    assert_eq!(calc_modulo_cycle_s(i32::MAX, i32::MIN), 20 + 4 + 32);
    assert_eq!(calc_modulo_cycle_u(u32::MAX, u32::MAX), 24 + 10 + 10 + 44 + 12 + 18);
}

#[test]
fn unit_in_the_top_bits_marks_a_subtraction() {
    // 0xC0000000 / 1: the unit is aligned to bit 31 and the half subtraction
    // of the only round lands on bit 30
    assert_eq!(calc_modulo_cycle_u(0xC000_0000, 1), 24 + 7 * 20 + 10 + 3 * 20 + 10 + 51 + 12 + 73);
}

#[test]
fn longest_in_a_range_is_the_first_maximum() {
    let last: u32 = 5000;
    for divisor in [1u32, 3, 24, 25, 100] {
        let best = find_longest_modulo_cycle_u_upto(divisor, last);
        let top = calc_modulo_cycle_u(best, divisor);
        for d in 0..=last {
            let c = calc_modulo_cycle_u(d, divisor);
            assert!(c <= top);
            if d < best {
                assert!(c < top);
            }
        }
    }
    assert_eq!(find_longest_modulo_cycle_u_upto(0, 1000), 0);
    assert_eq!(find_longest_modulo_cycle_u_upto(25, 0), 0);
}

#[test]
fn distribution_counts_every_dividend_once() {
    let last: u32 = 20000;
    let dist = calculate_distribution_modulo_cycle_u_24_upto(last);
    assert_eq!(dist.len(), 1000);
    let total: u64 = dist.iter().map(|&c| c as u64).sum();
    assert_eq!(total, last as u64 + 1);
    // the dividends below the divisor all take the short way
    assert_eq!(dist[18], 24);
    // 24 itself costs what 25 % 25 costs
    assert!(dist[126] >= 1);
    let mut expected = vec![0u32; 1000];
    for d in 0..=last {
        expected[calc_modulo_cycle_u(d, 24)] += 1;
    }
    assert_eq!(dist, expected);
    let single = calculate_distribution_modulo_cycle_u_24_upto(0);
    assert_eq!(single[18], 1);
    assert_eq!(single.iter().filter(|&&c| c != 0).count(), 1);
}
