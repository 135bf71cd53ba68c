use dw_apb_i2c::controller::{read_and_clean_intrbits, I2cDwCoreDriver, I2cDwDriverConfig};
use dw_apb_i2c::error::Errno;
use dw_apb_i2c::flags::I2cFuncFlags;
use dw_apb_i2c::lhcnt::DwI2cSclLHCnt;
use dw_apb_i2c::poll::{PollAction, PollTimeout};
use dw_apb_i2c::registers::{HwOp, Reg};
use dw_apb_i2c::timing::{I2cSpeedMode, I2cTiming};

fn core_with(freq: u32, sda_hold_ns: u32, clk: u32) -> I2cDwCoreDriver {
    let timing = I2cTiming::new_builder(I2cSpeedMode::StandMode, false)
        .bus_freq_hz(freq)
        .sda_hold_ns(sda_hold_ns)
        .build()
        .unwrap();
    I2cDwCoreDriver::new(I2cDwDriverConfig::new(timing, clk))
}

#[test]
fn component_type_check() {
    let core = core_with(100_000, 0, 100_000);
    assert_eq!(core.com_type_check(0x4457_0140), Ok(()));
    assert_eq!(core.com_type_check(0x0000_0140), Err(Errno::NoSuchDevice));
    assert_eq!(core.com_type_check(0x4001_5744), Err(Errno::NoSuchDevice));
    assert_eq!(core.com_type_check(0), Err(Errno::NoSuchDevice));
    assert_eq!(core.com_type_check(0xffff_ffff), Err(Errno::NoSuchDevice));
}

#[test]
fn speed_check_accepts_the_four_speeds() {
    for (freq, mode) in [
        (100_000, I2cSpeedMode::StandMode),
        (400_000, I2cSpeedMode::FastMode),
        (1_000_000, I2cSpeedMode::FastPlusMode),
        (3_400_000, I2cSpeedMode::HighSpeedMode),
    ] {
        let mut core = core_with(freq, 0, 100_000);
        assert_eq!(core.speed_check(0x0c), Ok(()));
        assert_eq!(core.bus_freq_hz, freq);
        assert_eq!(core.speed_mode, mode);
    }
}

#[test]
fn speed_check_rejects_other_speeds() {
    for freq in [0, 99_999, 100_001, 1_400_000, 5_000_000, u32::MAX] {
        let mut core = core_with(freq, 0, 100_000);
        assert_eq!(core.speed_check(0x0c), Err(Errno::InvalidArgs));
        assert_eq!(core.bus_freq_hz, 0);
        assert_eq!(core.speed_mode, I2cSpeedMode::StandMode);
    }
}

#[test]
fn speed_check_falls_back_from_high_speed() {
    // the maximum speed mode field says standard, fast or nothing
    for comp_param_1 in [0x00, 0x04, 0x08, 0xffff_fff3, 0xffff_fff7, 0xffff_fffb] {
        let mut core = core_with(3_400_000, 0, 100_000);
        assert_eq!(core.speed_check(comp_param_1), Ok(()));
        assert_eq!(core.bus_freq_hz, 400_000);
        assert_eq!(core.speed_mode, I2cSpeedMode::FastMode);
    }
    // the field says high speed
    for comp_param_1 in [0x0c, 0xffff_ffff] {
        let mut core = core_with(3_400_000, 0, 100_000);
        assert_eq!(core.speed_check(comp_param_1), Ok(()));
        assert_eq!(core.bus_freq_hz, 3_400_000);
        assert_eq!(core.speed_mode, I2cSpeedMode::HighSpeedMode);
    }
}

#[test]
fn speed_check_leaves_the_other_speeds_alone() {
    for (freq, mode) in [
        (100_000, I2cSpeedMode::StandMode),
        (400_000, I2cSpeedMode::FastMode),
        (1_000_000, I2cSpeedMode::FastPlusMode),
    ] {
        let mut core = core_with(freq, 0, 100_000);
        assert_eq!(core.speed_check(0x00), Ok(()));
        assert_eq!(core.bus_freq_hz, freq);
        assert_eq!(core.speed_mode, mode);
    }
}

#[test]
fn cfg_init_speed_sets_the_speed_field() {
    let mut core = core_with(100_000, 0, 100_000);
    core.speed_check(0).unwrap();
    assert_eq!(core.cfg_init_speed(0), 0x2);
    assert_eq!(core.cfg_init_speed(0x67), 0x63);
    let mut core = core_with(400_000, 0, 100_000);
    core.speed_check(0).unwrap();
    assert_eq!(core.cfg_init_speed(0x61), 0x65);
    let mut core = core_with(3_400_000, 0, 100_000);
    core.speed_check(0x0c).unwrap();
    assert_eq!(core.cfg_init_speed(0x61), 0x67);
}

#[test]
fn sda_hold_time_on_old_hardware_is_left_alone() {
    let mut core = core_with(100_000, 300, 100_000);
    assert_eq!(core.sda_hold_time_init(0x3131_3129, 0x55), Ok(()));
    assert_eq!(core.sda_hold_time, None);
    assert!(core.write_sda_hold_time().is_empty());
}

#[test]
fn sda_hold_time_from_hardware_gets_a_receive_hold() {
    let mut core = core_with(100_000, 0, 100_000);
    core.sda_hold_time_init(0x3131_312a, 0x0000_0005).unwrap();
    assert_eq!(core.sda_hold_time, Some(0x0001_0005));
    let mut core = core_with(100_000, 0, 100_000);
    core.sda_hold_time_init(0x3131_312a, 0x0020_0005).unwrap();
    assert_eq!(core.sda_hold_time, Some(0x0020_0005));
    assert_eq!(
        core.write_sda_hold_time(),
        vec![HwOp::Write { reg: Reg::SdaHold, value: 0x0020_0005 }]
    );
}

#[test]
fn sda_hold_time_from_nanoseconds_is_rounded_to_ticks() {
    // 100000 kHz * 300 ns = 30 ticks
    let mut core = core_with(100_000, 300, 100_000);
    core.sda_hold_time_init(0x3230_322a, 0).unwrap();
    assert_eq!(core.sda_hold_time, Some(0x0001_001e));
    // 133333 kHz * 10 ns = 1.33333 ticks, rounded to 1
    let mut core = core_with(100_000, 10, 133_333);
    core.sda_hold_time_init(0x3230_322a, 0).unwrap();
    assert_eq!(core.sda_hold_time, Some(0x0001_0001));
    // 150000 kHz * 10 ns = 1.5 ticks, rounded to 2
    let mut core = core_with(100_000, 10, 150_000);
    core.sda_hold_time_init(0x3230_322a, 0).unwrap();
    assert_eq!(core.sda_hold_time, Some(0x0001_0002));
    // a product past 32 bits is still computed
    let mut core = core_with(100_000, 100_000, 100_000);
    core.sda_hold_time_init(0x3230_322a, 0).unwrap();
    assert_eq!(core.sda_hold_time, Some(10_000 | 0x0001_0000));
}

#[test]
fn functionality_init_adds_flags() {
    let mut core = core_with(100_000, 0, 100_000);
    assert_eq!(core.functionality.bits(), 0x0f7e_0001);
    core.functionality_init(I2cFuncFlags::ten_bit_addr());
    assert_eq!(core.functionality.bits(), 0x0f7e_0003);
}

#[test]
fn write_lhcnt_skips_high_speed_unless_selected() {
    let lhcnt = DwI2cSclLHCnt {
        ss_hcnt: 1,
        ss_lcnt: 2,
        fs_hcnt: 3,
        fs_lcnt: 4,
        fp_hcnt: 5,
        fp_lcnt: 6,
        hs_hcnt: 7,
        hs_lcnt: 8,
    };
    let mut core = core_with(400_000, 0, 100_000);
    core.speed_check(0x0c).unwrap();
    assert_eq!(
        core.write_lhcnt(&lhcnt),
        vec![
            HwOp::Write { reg: Reg::SsSclLcnt, value: 2 },
            HwOp::Write { reg: Reg::SsSclHcnt, value: 1 },
            HwOp::Write { reg: Reg::FsSclLcnt, value: 4 },
            HwOp::Write { reg: Reg::FsSclHcnt, value: 3 },
        ]
    );
    let mut core = core_with(3_400_000, 0, 100_000);
    core.speed_check(0x0c).unwrap();
    let ops = core.write_lhcnt(&lhcnt);
    assert_eq!(ops.len(), 6);
    assert_eq!(ops[4], HwOp::Write { reg: Reg::HsSclLcnt, value: 8 });
    assert_eq!(ops[5], HwOp::Write { reg: Reg::HsSclHcnt, value: 7 });
}

#[test]
fn write_fifo_sets_both_thresholds() {
    let core = core_with(100_000, 0, 100_000);
    assert_eq!(
        core.write_fifo(32, 0),
        vec![HwOp::Write { reg: Reg::TxTl, value: 32 }, HwOp::Write { reg: Reg::RxTl, value: 0 }]
    );
}

#[test]
fn interrupts_are_acknowledged_one_by_one_in_order() {
    let (ops, source) = read_and_clean_intrbits(0xfff, 0x1234, 0);
    assert_eq!(
        ops,
        vec![
            HwOp::Touch { reg: Reg::ClrRxUnder },
            HwOp::Touch { reg: Reg::ClrRxOver },
            HwOp::Touch { reg: Reg::ClrTxOver },
            HwOp::Touch { reg: Reg::ClrRdReq },
            HwOp::Touch { reg: Reg::ClrTxAbrt },
            HwOp::Touch { reg: Reg::ClrRxDone },
            HwOp::Touch { reg: Reg::ClrActivity },
            HwOp::Touch { reg: Reg::ClrStopDet },
            HwOp::Touch { reg: Reg::ClrStartDet },
            HwOp::Touch { reg: Reg::ClrGenCall },
        ]
    );
    assert_eq!(source, 0x1234);
}

#[test]
fn rx_full_and_tx_empty_have_no_clear_register() {
    let (ops, source) = read_and_clean_intrbits(0x14, 0x1234, 0);
    assert!(ops.is_empty());
    assert_eq!(source, 0);
}

#[test]
fn stop_det_waits_for_outstanding_reads() {
    let (ops, _) = read_and_clean_intrbits(0x200, 0, 3);
    assert!(ops.is_empty());
    let (ops, _) = read_and_clean_intrbits(0x200, 0, 0);
    assert_eq!(ops, vec![HwOp::Touch { reg: Reg::ClrStopDet }]);
    let (ops, _) = read_and_clean_intrbits(0x204, 0, 3);
    assert_eq!(ops, vec![HwOp::Touch { reg: Reg::ClrStopDet }]);
}

#[test]
fn bus_wait_ends_with_busy() {
    let core = core_with(100_000, 0, 100_000);
    let (mut poll, first) = PollTimeout::start(0, 1100, 20000, false);
    assert_eq!(first, PollAction::Sample { sleep_us: 0 });
    assert_eq!(
        core.wait_bus_not_busy(&mut poll, 0x1, 1100),
        PollAction::Sample { sleep_us: 1100 }
    );
    // other status bits do not count
    assert_eq!(
        core.wait_bus_not_busy(&mut poll, 0xffff_fffe, 2200),
        PollAction::Finish { result: Ok(()) }
    );

    let (mut poll, _) = PollTimeout::start(0, 1100, 20000, false);
    assert_eq!(
        core.wait_bus_not_busy(&mut poll, 0x1, 20001),
        PollAction::Sample { sleep_us: 0 }
    );
    assert_eq!(
        core.wait_bus_not_busy(&mut poll, 0x1, 20002),
        PollAction::Finish { result: Err(Errno::Busy) }
    );

    // an idle bus on the last look is still an idle bus
    let (mut poll, _) = PollTimeout::start(0, 1100, 20000, false);
    core.wait_bus_not_busy(&mut poll, 0x1, 20001);
    assert_eq!(
        core.wait_bus_not_busy(&mut poll, 0x0, 30000),
        PollAction::Finish { result: Ok(()) }
    );
}
