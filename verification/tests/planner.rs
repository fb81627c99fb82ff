use launchr::math::fixed_point::{
    bit_position, checked_pow10, integer_ln, integer_ln_positive, integer_ln_step, mul_q64,
    pow_q64, reciprocal_q64, LN_2_Q64, Q64_64,
};
use launchr::math::orbit_math::{
    bin_index_to_price, calculate_seed_distribution, create_graduation_fee_config,
    get_bin_array_lower_index, get_bin_array_offset, price_to_bin_index, price_to_q64_64,
    q64_64_to_price, BinDeposit, OrbitFeeConfig, SeedDistributionParams, BIN_ARRAY_SIZE,
};

#[test]
fn test_bin_array_lower_index() {
    assert_eq!(get_bin_array_lower_index(0), 0);
    assert_eq!(get_bin_array_lower_index(1), 0);
    assert_eq!(get_bin_array_lower_index(63), 0);
    assert_eq!(get_bin_array_lower_index(64), 64);
    assert_eq!(get_bin_array_lower_index(65), 64);
    assert_eq!(get_bin_array_lower_index(-1), -64);
    assert_eq!(get_bin_array_lower_index(-64), -64);
    assert_eq!(get_bin_array_lower_index(-65), -128);
}

#[test]
fn test_bin_index_to_price_roundtrip() {
    let bin_step = 25u16;

    for bin in [-100, -50, 0, 50, 100].iter() {
        let price = bin_index_to_price(*bin, bin_step);
        let recovered_bin = price_to_bin_index(price, bin_step);

        // The logarithm counts whole doublings of the price, and 1.0025^100
        // is less than one doubling: each of these prices lies in bin 0.
        // Only bin 0 itself comes back within one bin.
        assert_eq!(recovered_bin, 0);
        assert_eq!((recovered_bin - bin).abs() <= 1, *bin == 0);
    }
}

#[test]
fn test_seed_distribution() {
    let params = SeedDistributionParams {
        total_tokens: 100_000_000_000,
        total_sol: 10_000_000_000,
        active_bin_index: 1000,
        num_bins: 10,
        bin_step_bps: 25,
    };

    let deposits = calculate_seed_distribution(params);

    assert!(!deposits.is_empty());

    let below_active: Vec<_> = deposits.iter().filter(|d| d.bin_index < 1000).collect();
    assert!(below_active.iter().all(|d| d.token_amount > 0 || d.sol_amount == 0));

    let above_active: Vec<_> = deposits.iter().filter(|d| d.bin_index > 1000).collect();
    assert!(above_active.iter().all(|d| d.sol_amount > 0 || d.token_amount == 0));
}

#[test]
fn seed_distribution_has_exact_values() {
    let params = SeedDistributionParams {
        total_tokens: 100_000_000_000,
        total_sol: 10_000_000_000,
        active_bin_index: 1000,
        num_bins: 10,
        bin_step_bps: 25,
    };
    let expected: Vec<(i32, u64, u64)> = vec![
        (995, 6_666_666_666, 0),
        (996, 8_000_000_000, 0),
        (997, 9_333_333_333, 0),
        (998, 10_666_666_666, 0),
        (999, 12_000_000_000, 0),
        (1000, 6_666_666_666, 666_666_666),
        (1001, 0, 1_200_000_000),
        (1002, 0, 1_066_666_666),
        (1003, 0, 933_333_333),
        (1004, 0, 800_000_000),
    ];
    let deposits = calculate_seed_distribution(params);
    let got: Vec<(i32, u64, u64)> =
        deposits.iter().map(|d| (d.bin_index, d.token_amount, d.sol_amount)).collect();
    assert_eq!(got, expected);
}

#[test]
fn seed_distribution_leaves_out_empty_bins() {
    let params = SeedDistributionParams {
        total_tokens: 5,
        total_sol: 0,
        active_bin_index: -2,
        num_bins: 3,
        bin_step_bps: 25,
    };
    let deposits = calculate_seed_distribution(params);
    assert_eq!(
        deposits,
        vec![
            BinDeposit { bin_index: -3, token_amount: 1, sol_amount: 0 },
            BinDeposit { bin_index: -2, token_amount: 1, sol_amount: 0 },
        ]
    );
}

#[test]
fn seed_distribution_over_no_bins_is_empty() {
    let params = SeedDistributionParams {
        total_tokens: 5,
        total_sol: 7,
        active_bin_index: i32::MIN,
        num_bins: 0,
        bin_step_bps: 25,
    };
    assert!(calculate_seed_distribution(params).is_empty());
    assert_eq!(BinDeposit::default(), BinDeposit { bin_index: 0, token_amount: 0, sol_amount: 0 });
}

#[test]
fn bin_array_lower_index_at_the_ends() {
    assert_eq!(BIN_ARRAY_SIZE, 64);
    assert_eq!(get_bin_array_lower_index(i32::MIN), i32::MIN);
    assert_eq!(get_bin_array_lower_index(i32::MIN + 63), i32::MIN);
    assert_eq!(get_bin_array_lower_index(i32::MIN + 64), i32::MIN + 64);
    assert_eq!(get_bin_array_lower_index(i32::MAX), i32::MAX - 63);
    assert_eq!(get_bin_array_lower_index(-6655), -6656);
    assert_eq!(get_bin_array_lower_index(-128), -128);
}

#[test]
fn bin_array_offset_counts_from_the_lower_index() {
    assert_eq!(get_bin_array_offset(-1, -64), 63);
    assert_eq!(get_bin_array_offset(64, 64), 0);
    assert_eq!(get_bin_array_offset(100, get_bin_array_lower_index(100)), 36);
    assert_eq!(get_bin_array_offset(i32::MAX, i32::MIN), u32::MAX);
}

#[test]
fn graduation_fee_config_carries_the_creator_cut() {
    let config = create_graduation_fee_config(20);
    assert_eq!(
        config,
        OrbitFeeConfig {
            split_holders_microbps: 300_000,
            split_nft_microbps: 200_000,
            split_creator_extra_microbps: 0,
            base_fee_bps: 30,
            creator_cut_bps: 20,
            dynamic_fee_enabled: true,
            max_dynamic_fee_bps: 100,
        }
    );
    assert_eq!(OrbitFeeConfig::default(), create_graduation_fee_config(0));
}

#[test]
fn price_to_fixed_point_has_exact_values() {
    assert_eq!(price_to_q64_64(37, 9), 682_529_530_727);
    assert_eq!(price_to_q64_64(1_000_000_000, 9), Q64_64);
    assert_eq!(price_to_q64_64(0, 9), 0);
    assert_eq!(price_to_q64_64(5, 0), 5 * Q64_64);
    assert_eq!(price_to_q64_64(u64::MAX, 9), 340_282_366_920_938_463_444_927_863_358);
    assert_eq!(price_to_q64_64(u64::MAX, 38), 3);
    assert_eq!(price_to_q64_64(u64::MAX, 39), 0);
    assert_eq!(price_to_q64_64(u64::MAX, 255), 0);
}

#[test]
fn fixed_point_to_price_has_exact_values() {
    assert_eq!(q64_64_to_price(682_529_530_727, 9), 36);
    assert_eq!(q64_64_to_price(Q64_64, 9), 1_000_000_000);
    assert_eq!(q64_64_to_price(0, 200), 0);
    assert_eq!(q64_64_to_price(Q64_64 / 2 * 7, 0), 3);
    assert_eq!(q64_64_to_price(u128::MAX, 0), u64::MAX);
    assert_eq!(q64_64_to_price(u128::MAX, 1), u64::MAX);
    assert_eq!(q64_64_to_price(1, 39), u64::MAX);
    assert_eq!(q64_64_to_price(5_000_000_000, 9), 0);
}

#[test]
fn bin_index_of_a_price_has_exact_values() {
    assert_eq!(price_to_bin_index(0, 25), i32::MIN);
    assert_eq!(price_to_bin_index(Q64_64, 0), 0);
    assert_eq!(price_to_bin_index(12345, 0), 0);
    assert_eq!(price_to_bin_index(Q64_64, 25), 0);
    assert_eq!(price_to_bin_index(2 * Q64_64, 25), 277);
    assert_eq!(price_to_bin_index(3 * Q64_64, 100), 69);
    assert_eq!(price_to_bin_index(Q64_64 / 2, 25), -278);
    assert_eq!(price_to_bin_index(Q64_64 / 2 + 1, 25), 0);
    assert_eq!(price_to_bin_index(682_529_530_727, 25), -6655);
    assert_eq!(price_to_bin_index(1, 25), -17745);
    assert_eq!(price_to_bin_index(1, 1), -443_615);
    assert_eq!(price_to_bin_index(u128::MAX, 1), 436_682);
}

#[test]
fn price_of_a_bin_has_exact_values() {
    assert_eq!(bin_index_to_price(0, 25), Q64_64);
    assert_eq!(bin_index_to_price(1, 25), 18_492_860_933_893_825_495);
    assert_eq!(bin_index_to_price(2, 25), 18_539_093_086_228_560_058);
    assert_eq!(bin_index_to_price(-1, 25), 18_400_742_218_164_141_262);
    assert_eq!(bin_index_to_price(100, 25), 23_678_699_809_202_412_839);
    assert_eq!(bin_index_to_price(-100, 25), 14_370_821_441_331_513_976);
    assert_eq!(bin_index_to_price(100, 100), 49_895_008_478_369_174_352);
    assert_eq!(bin_index_to_price(3, 0), Q64_64);
    assert_eq!(bin_index_to_price(i32::MIN, 0), Q64_64);
    assert_eq!(bin_index_to_price(i32::MAX, 25), u128::MAX);
    assert_eq!(bin_index_to_price(i32::MIN, 25), 1);
}

#[test]
fn bin_zero_survives_the_round_trip() {
    for step in [10u16, 25, 100] {
        let price = bin_index_to_price(0, step);
        assert_eq!(price, Q64_64);
        assert_eq!(price_to_bin_index(price, step), 0);
    }
}

#[test]
fn neighbours_of_bin_zero_come_back_within_one_bin() {
    for step in [10u16, 25, 100] {
        for bin in [-1i32, 1] {
            let recovered = price_to_bin_index(bin_index_to_price(bin, step), step);
            assert_eq!(recovered, 0);
            assert!((recovered - bin).abs() <= 1);
        }
    }
}

#[test]
fn the_logarithm_counts_whole_doublings_only() {
    // 1.0025^100 is about 1.28, less than one doubling: it lands in bin 0.
    assert_eq!(price_to_bin_index(bin_index_to_price(100, 25), 25), 0);
    assert_eq!(price_to_bin_index(bin_index_to_price(-50, 10), 10), 0);
    // 1.01^100 is about 2.70, one doubling: ln(2) / 0.01 is 69.3.
    assert_eq!(price_to_bin_index(bin_index_to_price(100, 100), 100), 69);
    assert_eq!(price_to_bin_index(bin_index_to_price(70, 100), 100), 69);
    assert_eq!(price_to_bin_index(bin_index_to_price(-100, 100), 100), -70);
}

#[test]
fn fixed_point_product_rounds_down_and_saturates() {
    assert_eq!(mul_q64(Q64_64 / 2 * 3, Q64_64 / 2 * 3), 41_505_174_165_846_491_136);
    assert_eq!(mul_q64(Q64_64, 12_345), 12_345);
    assert_eq!(mul_q64(12_345, Q64_64), 12_345);
    assert_eq!(mul_q64(3, 5), 0);
    assert_eq!(mul_q64(0, u128::MAX), 0);
    assert_eq!(mul_q64(u128::MAX, u128::MAX), u128::MAX);
    assert_eq!(mul_q64(u128::MAX, Q64_64), u128::MAX);
    assert_eq!(mul_q64(u128::MAX, Q64_64 + 1), u128::MAX);
    assert_eq!(mul_q64(u128::MAX, Q64_64 - 1), u128::MAX - Q64_64);
    assert_eq!(mul_q64(1 << 127, 2 * Q64_64 - 1), u128::MAX - (1 << 63) + 1);
}

#[test]
fn fixed_point_power_has_exact_values() {
    assert_eq!(pow_q64(Q64_64, 5), Q64_64);
    assert_eq!(pow_q64(12_345, 0), Q64_64);
    assert_eq!(pow_q64(12_345, 1), 12_345);
    assert_eq!(pow_q64(0, 3), 0);
    assert_eq!(pow_q64(2 * Q64_64, 3), 8 * Q64_64);
    assert_eq!(pow_q64(2 * Q64_64, 63), 1 << 127);
    assert_eq!(pow_q64(2 * Q64_64, 64), u128::MAX);
    assert_eq!(pow_q64(Q64_64 / 2, 2), Q64_64 / 4);
    assert_eq!(pow_q64(Q64_64 + Q64_64 * 25 / 10000, 10), 18_913_135_561_744_016_848);
}

#[test]
fn reciprocal_is_the_floor_of_the_quotient() {
    assert_eq!(reciprocal_q64(2), 1 << 127);
    assert_eq!(reciprocal_q64(3), 113_427_455_640_312_821_154_458_202_477_256_070_485);
    assert_eq!(reciprocal_q64(7), 48_611_766_702_991_209_066_196_372_490_252_601_636);
    assert_eq!(reciprocal_q64(Q64_64), Q64_64);
    assert_eq!(reciprocal_q64(u128::MAX), 1);
    assert_eq!(reciprocal_q64((1 << 127) + 1), 1);
    assert_eq!(reciprocal_q64(1 << 127), 2);
}

#[test]
fn bit_position_is_the_highest_set_bit() {
    assert_eq!(bit_position(0), 0);
    assert_eq!(bit_position(1), 0);
    assert_eq!(bit_position(2), 1);
    assert_eq!(bit_position(3), 1);
    assert_eq!(bit_position(Q64_64 - 1), 63);
    assert_eq!(bit_position(Q64_64), 64);
    assert_eq!(bit_position(u128::MAX), 127);
    for shift in 0..128u32 {
        assert_eq!(bit_position(1u128 << shift), 127 - (1u128 << shift).leading_zeros());
    }
}

#[test]
fn logarithm_has_exact_values() {
    assert_eq!(LN_2_Q64, 12_786_308_645_202_655_660);
    assert_eq!(integer_ln_positive(Q64_64), 0);
    assert_eq!(integer_ln_positive(Q64_64 - 1), 0);
    assert_eq!(integer_ln_positive(2 * Q64_64), LN_2_Q64);
    assert_eq!(integer_ln_positive(u128::MAX), 63 * LN_2_Q64);
    assert_eq!(integer_ln(Q64_64), 0);
    assert_eq!(integer_ln(2 * Q64_64 - 1), 0);
    assert_eq!(integer_ln(2 * Q64_64), LN_2_Q64 as i128);
    assert_eq!(integer_ln(Q64_64 / 2), -(LN_2_Q64 as i128));
    assert_eq!(integer_ln(1), -64 * (LN_2_Q64 as i128));
    assert_eq!(integer_ln(3), -62 * (LN_2_Q64 as i128));
    assert_eq!(integer_ln(u128::MAX), 63 * (LN_2_Q64 as i128));
    assert_eq!(integer_ln_step(0), 0);
    assert_eq!(integer_ln_step(1), 1_844_674_407_370_955);
    assert_eq!(integer_ln_step(25), 46_116_860_184_273_879);
    assert_eq!(integer_ln_step(100), 184_467_440_737_095_516);
    assert_eq!(integer_ln_step(u16::MAX), 120_890_737_287_055_546_515);
}

#[test]
fn powers_of_ten_stop_at_128_bits() {
    assert_eq!(checked_pow10(0), Some(1));
    assert_eq!(checked_pow10(9), Some(1_000_000_000));
    assert_eq!(checked_pow10(38), Some(100_000_000_000_000_000_000_000_000_000_000_000_000));
    assert_eq!(checked_pow10(39), None);
    assert_eq!(checked_pow10(255), None);
}
