use dw_apb_i2c::lhcnt::DwI2cSclLHCnt;
use dw_apb_i2c::timing::{I2cSpeedMode, I2cTiming};

#[test]
fn div_round_closest_rounds_half_up() {
    assert_eq!(DwI2cSclLHCnt::div_round_closest_ull(1_499_999, 1_000_000), 1);
    assert_eq!(DwI2cSclLHCnt::div_round_closest_ull(1_500_000, 1_000_000), 2);
    assert_eq!(DwI2cSclLHCnt::div_round_closest_ull(0, 1_000_000), 0);
}

#[test]
fn scl_lcnt_standard_mode_at_100_mhz() {
    // 100000 kHz * (4700 + 300) ns = 500 ticks, less one
    assert_eq!(DwI2cSclLHCnt::scl_lcnt(100_000, 4700, 300, 0), 499);
}

#[test]
fn scl_hcnt_both_rules() {
    // 100000 kHz * (4000 + 300) ns = 430 ticks, less three
    assert_eq!(DwI2cSclLHCnt::scl_hcnt(100_000, 4000, 300, false, 0), 427);
    // 100000 kHz * 4000 ns = 400 ticks, less eight
    assert_eq!(DwI2cSclLHCnt::scl_hcnt(100_000, 4000, 300, true, 0), 392);
}

#[test]
fn builder_defaults_for_fast_mode() {
    let timing = I2cTiming::new_builder(I2cSpeedMode::FastMode, true).build().unwrap();
    assert_eq!(timing.get_bus_freq_hz(), 400_000);
    assert_eq!(timing.get_scl_rise_ns(), 300);
    assert_eq!(timing.get_scl_fall_ns(), 300);
    assert_eq!(timing.get_sda_hold_ns(), 0);
}

#[test]
fn builder_defaults_for_every_mode() {
    let cases = [
        (I2cSpeedMode::StandMode, 100_000, 1000, 300),
        (I2cSpeedMode::FastMode, 400_000, 300, 300),
        (I2cSpeedMode::FastPlusMode, 1_000_000, 120, 120),
        (I2cSpeedMode::TurboMode, 1_400_000, 120, 120),
        (I2cSpeedMode::HighSpeedMode, 3_400_000, 120, 120),
        (I2cSpeedMode::UltraFastMode, 5_000_000, 120, 120),
    ];
    for (mode, freq, rise, fall) in cases {
        let timing = I2cTiming::new_builder(mode, true).build().unwrap();
        assert_eq!(timing.get_bus_freq_hz(), freq);
        assert_eq!(timing.get_scl_rise_ns(), rise);
        assert_eq!(timing.get_scl_fall_ns(), fall);
        assert_eq!(timing.get_sda_fall_ns(), 0);
        assert_eq!(I2cSpeedMode::from_bus_freq(freq), mode);
    }
}

#[test]
fn builder_without_defaults_is_all_zero() {
    let timing = I2cTiming::new_builder(I2cSpeedMode::HighSpeedMode, false).build().unwrap();
    assert_eq!(timing.get_bus_freq_hz(), 0);
    assert_eq!(timing.get_scl_rise_ns(), 0);
    assert_eq!(timing.get_scl_fall_ns(), 0);
    assert_eq!(timing.get_sda_fall_ns(), 0);
    assert_eq!(timing.get_sda_hold_ns(), 0);
}

#[test]
fn builder_setters_override_defaults() {
    let timing = I2cTiming::new_builder(I2cSpeedMode::FastMode, true)
        .scl_fall_ns(77)
        .sda_fall_ns(88)
        .sda_hold_ns(99)
        .scl_int_delay_ns(1)
        .digital_filter_width_ns(2)
        .analog_filter_cutoff_freq_hz(3)
        .build()
        .unwrap();
    assert_eq!(timing.get_bus_freq_hz(), 400_000);
    assert_eq!(timing.get_scl_fall_ns(), 77);
    assert_eq!(timing.get_sda_fall_ns(), 88);
    assert_eq!(timing.get_sda_hold_ns(), 99);
    assert_eq!(timing.scl_int_delay_ns, 1);
    assert_eq!(timing.digital_filter_width_ns, 2);
    assert_eq!(timing.analog_filter_cutoff_freq_hz, 3);
}

#[test]
fn speed_mode_of_an_unknown_frequency_is_standard() {
    assert_eq!(I2cSpeedMode::from_bus_freq(0), I2cSpeedMode::StandMode);
    assert_eq!(I2cSpeedMode::from_bus_freq(123), I2cSpeedMode::StandMode);
}

#[test]
fn div_round_closest_keeps_the_low_32_bits() {
    assert_eq!(DwI2cSclLHCnt::div_round_closest_ull(0x1_0000_0005, 1), 5);
    assert_eq!(DwI2cSclLHCnt::div_round_closest_ull(7, 2), 4);
    assert_eq!(DwI2cSclLHCnt::div_round_closest_ull(5, 3), 2);
    assert_eq!(DwI2cSclLHCnt::div_round_closest_ull(4, 3), 1);
}

#[test]
fn scl_counts_take_their_offset() {
    assert_eq!(DwI2cSclLHCnt::scl_lcnt(100_000, 4700, 300, 5), 504);
    assert_eq!(DwI2cSclLHCnt::scl_hcnt(100_000, 4000, 300, false, 5), 432);
    assert_eq!(DwI2cSclLHCnt::scl_hcnt(100_000, 4000, 300, true, 5), 397);
}

#[test]
fn scl_counts_round_to_the_nearest_tick() {
    // 333 kHz * 4500 ns = 1.4985 ticks, rounded to 1; 333 kHz * 4506 ns = 1.500498, rounded to 2
    assert_eq!(DwI2cSclLHCnt::scl_lcnt(333, 4200, 300, 0), 0);
    assert_eq!(DwI2cSclLHCnt::scl_lcnt(333, 4206, 300, 0), 1);
}

#[test]
fn scl_count_range_checks() {
    assert!(DwI2cSclLHCnt::scl_lcnt_in_range(100_000, 4700, 300, 0));
    // no tick at all: the count would be below zero
    assert!(!DwI2cSclLHCnt::scl_lcnt_in_range(0, 4700, 300, 0));
    assert!(!DwI2cSclLHCnt::scl_lcnt_in_range(100_000, 4700, 300, u32::MAX));
    assert!(!DwI2cSclLHCnt::scl_lcnt_in_range(u32::MAX, u32::MAX, u32::MAX, 0));
    assert!(DwI2cSclLHCnt::scl_hcnt_in_range(100_000, 4000, 300, false, 0));
    assert!(!DwI2cSclLHCnt::scl_hcnt_in_range(1, 4000, 300, false, 0));
    assert!(DwI2cSclLHCnt::scl_hcnt_in_range(100_000, 4000, 300, true, 0));
    // seven ticks, eight to take off
    assert!(!DwI2cSclLHCnt::scl_hcnt_in_range(1_750, 4000, 300, true, 0));
    assert!(DwI2cSclLHCnt::scl_hcnt_in_range(2_000, 4000, 300, true, 0));
}

#[test]
fn scl_counts_reach_the_largest_32_bit_value() {
    // 10^6 kHz * 2^32 ns = 2^32 ticks: less one, the largest count
    assert!(DwI2cSclLHCnt::scl_lcnt_in_range(1_000_000, u32::MAX, 1, 0));
    assert_eq!(DwI2cSclLHCnt::scl_lcnt(1_000_000, u32::MAX, 1, 0), u32::MAX);
    assert!(!DwI2cSclLHCnt::scl_lcnt_in_range(1_000_000, u32::MAX, 1, 1));
    // 2^32 + 2 ticks, less three
    assert!(DwI2cSclLHCnt::scl_hcnt_in_range(1_000_000, u32::MAX, 3, false, 0));
    assert_eq!(DwI2cSclLHCnt::scl_hcnt(1_000_000, u32::MAX, 3, false, 0), u32::MAX);
    // one tick more no longer fits
    assert!(!DwI2cSclLHCnt::scl_hcnt_in_range(1_000_000, u32::MAX, 4, false, 0));
    assert!(!DwI2cSclLHCnt::scl_lcnt_in_range(1_000_000, u32::MAX, 2, 0));
}

#[test]
fn scl_counts_do_not_fall_when_an_argument_grows() {
    let mut last_l = 0;
    let mut last_h = 0;
    for clk in [1_000u32, 10_000, 100_000, 133_333, 400_000] {
        let l = DwI2cSclLHCnt::scl_lcnt(clk, 4700, 300, 0);
        let h = DwI2cSclLHCnt::scl_hcnt(clk, 4000, 300, false, 0);
        assert!(l >= last_l);
        assert!(h >= last_h);
        last_l = l;
        last_h = h;
    }
    assert!(
        DwI2cSclLHCnt::scl_lcnt(100_000, 1300, 300, 0)
            <= DwI2cSclLHCnt::scl_lcnt(100_000, 4700, 300, 0)
    );
    assert!(
        DwI2cSclLHCnt::scl_hcnt(100_000, 600, 120, false, 0)
            <= DwI2cSclLHCnt::scl_hcnt(100_000, 600, 300, false, 0)
    );
}

#[test]
fn defaults_are_all_zero() {
    let timing = I2cTiming::default();
    assert_eq!(timing.get_bus_freq_hz(), 0);
    assert_eq!(timing.get_scl_rise_ns(), 0);
    assert_eq!(timing.get_scl_fall_ns(), 0);
    assert_eq!(timing.get_sda_fall_ns(), 0);
    assert_eq!(timing.get_sda_hold_ns(), 0);
    assert_eq!(timing.scl_int_delay_ns, 0);
    assert_eq!(timing.digital_filter_width_ns, 0);
    assert_eq!(timing.analog_filter_cutoff_freq_hz, 0);
    assert_eq!(I2cTiming::new_builder(I2cSpeedMode::FastMode, false).build().unwrap(), timing);
    let counts = DwI2cSclLHCnt::default();
    assert_eq!(counts, DwI2cSclLHCnt::new());
    assert_eq!(counts.ss_hcnt, 0);
    assert_eq!(counts.hs_lcnt, 0);
}

#[test]
fn div_round_closest_keeps_the_whole_quotient() {
    assert_eq!(DwI2cSclLHCnt::div_round_closest(0x1_0000_0005, 1), 0x1_0000_0005);
    assert_eq!(DwI2cSclLHCnt::div_round_closest(1_500_000, 1_000_000), 2);
    assert_eq!(DwI2cSclLHCnt::div_round_closest(1_499_999, 1_000_000), 1);
}
