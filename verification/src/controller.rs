//! What the driver decides about the controller itself: which interrupt
//! conditions to acknowledge, and how.

use crate::error::Errno;
use crate::flags::{I2cFuncFlags, DW_I2C_DEFAULT_FUNCTIONALITY};
use crate::lhcnt::{ticks, DwI2cSclLHCnt, MICRO};
use crate::poll::{poll_step, PollAction, PollTimeout};
use crate::registers::{
    bit, bit_is_set, field_is_set, field_modify, field_read, reg_is_set, reg_modify, reg_read,
    HwOp, Reg,
};
use crate::registers::{
    DW_IC_COMP_TYPE_VALUE, DW_IC_SDA_HOLD_MIN_VERS, IC_COMP_PARAM_1_MAX_SPEED_MODE,
    IC_COMP_PARAM_1_MAX_SPEED_MODE_MASK, IC_CON_SPEED, IC_CON_SPEED_MASK, IC_INTR_ACTIVITY,
    IC_INTR_GEN_CALL, IC_INTR_RD_REQ, IC_INTR_RX_DONE, IC_INTR_RX_FULL, IC_INTR_RX_OVER,
    IC_INTR_RX_UNDER, IC_INTR_START_DET, IC_INTR_STOP_DET, IC_INTR_TX_ABRT, IC_INTR_TX_OVER,
    IC_SDA_HOLD_RX, IC_SDA_HOLD_RX_MASK, IC_STATUS_ACTIVITY,
};
use crate::timing::{I2cSpeedMode, I2cTiming};
use crate::timing::{
    I2C_MAX_FAST_MODE_FREQ, I2C_MAX_FAST_MODE_PLUS_FREQ, I2C_MAX_HIGH_SPEED_MODE_FREQ,
    I2C_MAX_STANDARD_MODE_FREQ,
};
use vstd::prelude::*;

verus! {

/// A read of `reg` where `cond` holds, nothing where it does not.
pub open spec fn touch_if(cond: bool, reg: Reg) -> Seq<HwOp> {
    if cond {
        seq![HwOp::Touch { reg }]
    } else {
        Seq::empty()
    }
}

/// Whether a stop that the status reports may be acknowledged: only when no
/// read is outstanding, or when the receive FIFO is full at the same time.
pub open spec fn stop_det_clearable(stat: u32, rx_outstanding: nat) -> bool {
    bit(stat, IC_INTR_STOP_DET) && (rx_outstanding == 0 || bit(stat, IC_INTR_RX_FULL))
}

/// The reads that acknowledge the conditions that the interrupt status
/// `stat` reports, each through its own clear register, in the order in which
/// they are made.
pub open spec fn intr_clear_ops(stat: u32, rx_outstanding: nat) -> Seq<HwOp> {
    touch_if(bit(stat, IC_INTR_RX_UNDER), Reg::ClrRxUnder) + touch_if(
        bit(stat, IC_INTR_RX_OVER),
        Reg::ClrRxOver,
    ) + touch_if(bit(stat, IC_INTR_TX_OVER), Reg::ClrTxOver) + touch_if(
        bit(stat, IC_INTR_RD_REQ),
        Reg::ClrRdReq,
    ) + touch_if(bit(stat, IC_INTR_TX_ABRT), Reg::ClrTxAbrt) + touch_if(
        bit(stat, IC_INTR_RX_DONE),
        Reg::ClrRxDone,
    ) + touch_if(bit(stat, IC_INTR_ACTIVITY), Reg::ClrActivity) + touch_if(
        stop_det_clearable(stat, rx_outstanding),
        Reg::ClrStopDet,
    ) + touch_if(bit(stat, IC_INTR_START_DET), Reg::ClrStartDet) + touch_if(
        bit(stat, IC_INTR_GEN_CALL),
        Reg::ClrGenCall,
    )
}

/// The abort source to keep for an interrupt: the register as it stood
/// before the abort was acknowledged, or 0 where no abort is reported.
pub open spec fn captured_abort_source(stat: u32, abort_source: u32) -> u32 {
    if bit(stat, IC_INTR_TX_ABRT) {
        abort_source
    } else {
        0
    }
}

/// Every access of `ops` is a read for its side effect.
pub open spec fn all_touches(ops: Seq<HwOp>) -> bool {
    forall|i: int| 0 <= i < ops.len() ==> (#[trigger] ops[i]) is Touch
}

proof fn lemma_touches_then_touch(ops: Seq<HwOp>, cond: bool, reg: Reg)
    requires
        all_touches(ops),
    ensures
        all_touches(ops + touch_if(cond, reg)),
{
    let more = ops + touch_if(cond, reg);
    assert forall|i: int| 0 <= i < more.len() implies (#[trigger] more[i]) is Touch by {
        if i < ops.len() {
            assert(more[i] == ops[i]);
        } else {
            assert(more[i] == touch_if(cond, reg)[i - ops.len()]);
        }
    }
}

/// Acknowledging interrupts only reads registers.
pub proof fn lemma_clear_ops_are_touches(stat: u32, rx_outstanding: nat)
    ensures
        all_touches(intr_clear_ops(stat, rx_outstanding)),
{
    let s0 = touch_if(bit(stat, IC_INTR_RX_UNDER), Reg::ClrRxUnder);
    assert(all_touches(s0));
    let s1 = s0 + touch_if(bit(stat, IC_INTR_RX_OVER), Reg::ClrRxOver);
    lemma_touches_then_touch(s0, bit(stat, IC_INTR_RX_OVER), Reg::ClrRxOver);
    let s2 = s1 + touch_if(bit(stat, IC_INTR_TX_OVER), Reg::ClrTxOver);
    lemma_touches_then_touch(s1, bit(stat, IC_INTR_TX_OVER), Reg::ClrTxOver);
    let s3 = s2 + touch_if(bit(stat, IC_INTR_RD_REQ), Reg::ClrRdReq);
    lemma_touches_then_touch(s2, bit(stat, IC_INTR_RD_REQ), Reg::ClrRdReq);
    let s4 = s3 + touch_if(bit(stat, IC_INTR_TX_ABRT), Reg::ClrTxAbrt);
    lemma_touches_then_touch(s3, bit(stat, IC_INTR_TX_ABRT), Reg::ClrTxAbrt);
    let s5 = s4 + touch_if(bit(stat, IC_INTR_RX_DONE), Reg::ClrRxDone);
    lemma_touches_then_touch(s4, bit(stat, IC_INTR_RX_DONE), Reg::ClrRxDone);
    let s6 = s5 + touch_if(bit(stat, IC_INTR_ACTIVITY), Reg::ClrActivity);
    lemma_touches_then_touch(s5, bit(stat, IC_INTR_ACTIVITY), Reg::ClrActivity);
    let s7 = s6 + touch_if(stop_det_clearable(stat, rx_outstanding), Reg::ClrStopDet);
    lemma_touches_then_touch(s6, stop_det_clearable(stat, rx_outstanding), Reg::ClrStopDet);
    let s8 = s7 + touch_if(bit(stat, IC_INTR_START_DET), Reg::ClrStartDet);
    lemma_touches_then_touch(s7, bit(stat, IC_INTR_START_DET), Reg::ClrStartDet);
    lemma_touches_then_touch(s8, bit(stat, IC_INTR_GEN_CALL), Reg::ClrGenCall);
}

fn push_touch(ops: &mut Vec<HwOp>, cond: bool, reg: Reg)
    ensures
        final(ops)@ == old(ops)@ + touch_if(cond, reg),
{
    if cond {
        ops.push(HwOp::Touch { reg });
        assert(ops@ =~= old(ops)@ + touch_if(cond, reg));
    } else {
        assert(ops@ =~= old(ops)@ + touch_if(cond, reg));
    }
}

/// Decides how to acknowledge an interrupt. `stat` is IC_INTR_STAT and
/// `abort_source` is IC_TX_ABRT_SOURCE, both read before any of the returned
/// accesses is made: reading IC_CLR_TX_ABRT resets the abort source.
/// Returns the reads to make and the abort source to keep.
pub fn read_and_clean_intrbits(stat: u32, abort_source: u32, rx_outstanding: u32) -> (r: (
    Vec<HwOp>,
    u32,
))
    ensures
        r.0@ == intr_clear_ops(stat, rx_outstanding as nat),
        r.1 == captured_abort_source(stat, abort_source),
{
    let mut ops: Vec<HwOp> = Vec::new();
    let mut captured: u32 = 0;
    assert(ops@ =~= Seq::empty());
    push_touch(&mut ops, bit_is_set(stat, IC_INTR_RX_UNDER), Reg::ClrRxUnder);
    assert(ops@ =~= touch_if(bit(stat, IC_INTR_RX_UNDER), Reg::ClrRxUnder));
    push_touch(&mut ops, bit_is_set(stat, IC_INTR_RX_OVER), Reg::ClrRxOver);
    push_touch(&mut ops, bit_is_set(stat, IC_INTR_TX_OVER), Reg::ClrTxOver);
    push_touch(&mut ops, bit_is_set(stat, IC_INTR_RD_REQ), Reg::ClrRdReq);
    let aborted = bit_is_set(stat, IC_INTR_TX_ABRT);
    if aborted {
        captured = abort_source;
    }
    push_touch(&mut ops, aborted, Reg::ClrTxAbrt);
    push_touch(&mut ops, bit_is_set(stat, IC_INTR_RX_DONE), Reg::ClrRxDone);
    push_touch(&mut ops, bit_is_set(stat, IC_INTR_ACTIVITY), Reg::ClrActivity);
    let stop = bit_is_set(stat, IC_INTR_STOP_DET) && (rx_outstanding == 0 || bit_is_set(
        stat,
        IC_INTR_RX_FULL,
    ));
    push_touch(&mut ops, stop, Reg::ClrStopDet);
    push_touch(&mut ops, bit_is_set(stat, IC_INTR_START_DET), Reg::ClrStartDet);
    push_touch(&mut ops, bit_is_set(stat, IC_INTR_GEN_CALL), Reg::ClrGenCall);
    (ops, captured)
}

/// What the platform tells the driver of the adapter.
#[derive(Clone, Copy, Debug, PartialEq, Eq, Structural)]
pub struct I2cDwDriverConfig {
    /// The timing of the bus.
    pub timing: I2cTiming,
    /// The rate of the controller's clock, in kHz.
    pub clk_rate_khz: u32,
}

impl I2cDwDriverConfig {
    /// A configuration.
    pub fn new(timing: I2cTiming, clk_rate_khz: u32) -> (config: Self)
        ensures
            config == (I2cDwDriverConfig { timing, clk_rate_khz }),
    {
        I2cDwDriverConfig { timing, clk_rate_khz }
    }
}

/// The bus frequency is one that the controller can run at.
pub open spec fn speed_supported(bus_freq_hz: u32) -> bool {
    ||| bus_freq_hz == I2C_MAX_STANDARD_MODE_FREQ
    ||| bus_freq_hz == I2C_MAX_FAST_MODE_FREQ
    ||| bus_freq_hz == I2C_MAX_FAST_MODE_PLUS_FREQ
    ||| bus_freq_hz == I2C_MAX_HIGH_SPEED_MODE_FREQ
}

/// The content of the maximum speed mode field of IC_COMP_PARAM_1 that
/// advertises high speed.
pub const DW_IC_COMP_PARAM_1_SPEED_MODE_HIGH: u32 = 3;

/// IC_COMP_PARAM_1 advertises high speed.
pub open spec fn high_speed_advertised(comp_param_1: u32) -> bool {
    field_read(
        comp_param_1,
        IC_COMP_PARAM_1_MAX_SPEED_MODE_MASK,
        IC_COMP_PARAM_1_MAX_SPEED_MODE,
    ) == DW_IC_COMP_PARAM_1_SPEED_MODE_HIGH
}

/// The frequency that the bus runs at where `bus_freq_hz` is asked for:
/// fast mode in place of high speed where IC_COMP_PARAM_1 does not
/// advertise high speed.
pub open spec fn effective_bus_freq(bus_freq_hz: u32, comp_param_1: u32) -> u32 {
    if bus_freq_hz == I2C_MAX_HIGH_SPEED_MODE_FREQ && !high_speed_advertised(comp_param_1) {
        I2C_MAX_FAST_MODE_FREQ
    } else {
        bus_freq_hz
    }
}

/// High speed is kept only where it is advertised: on every other content of
/// the maximum speed mode field a request for high speed runs in fast mode.
pub proof fn lemma_high_speed_needs_advertisement(comp_param_1: u32)
    ensures
        high_speed_advertised(comp_param_1) ==> effective_bus_freq(
            I2C_MAX_HIGH_SPEED_MODE_FREQ,
            comp_param_1,
        ) == I2C_MAX_HIGH_SPEED_MODE_FREQ,
        !high_speed_advertised(comp_param_1) ==> effective_bus_freq(
            I2C_MAX_HIGH_SPEED_MODE_FREQ,
            comp_param_1,
        ) == I2C_MAX_FAST_MODE_FREQ && I2cSpeedMode::of_bus_freq(
            effective_bus_freq(I2C_MAX_HIGH_SPEED_MODE_FREQ, comp_param_1),
        ) == I2cSpeedMode::FastMode,
{
}

/// The content of the speed field of IC_CON for a speed mode.
pub open spec fn speed_field(mode: I2cSpeedMode) -> u32 {
    match mode {
        I2cSpeedMode::StandMode => 1,
        I2cSpeedMode::HighSpeedMode => 3,
        _ => 2,
    }
}

/// A hold time with a receive hold of at least one tick: a receive hold of
/// zero lets a target that pulls SDA low right after the falling edge of
/// SCL cost the transmitter the arbitration.
pub open spec fn with_rx_hold(hold: u32) -> u32 {
    if field_is_set(hold, IC_SDA_HOLD_RX_MASK, IC_SDA_HOLD_RX) {
        hold
    } else {
        field_modify(hold, IC_SDA_HOLD_RX_MASK, IC_SDA_HOLD_RX, 1)
    }
}

/// The SDA hold time to store. A controller older than
/// `DW_IC_SDA_HOLD_MIN_VERS` has none to set. Else it is the hold time
/// asked for, in ticks of the controller's clock (their low 32 bits), or
/// what IC_SDA_HOLD holds where none is asked for; either with a receive
/// hold of at least one tick.
pub open spec fn sda_hold_time_spec(
    config: I2cDwDriverConfig,
    comp_version: u32,
    sda_hold: u32,
) -> Option<u32> {
    if comp_version < DW_IC_SDA_HOLD_MIN_VERS {
        None
    } else if config.timing.sda_hold_ns == 0 {
        Some(with_rx_hold(sda_hold))
    } else {
        Some(
            with_rx_hold(
                (ticks(config.clk_rate_khz, config.timing.sda_hold_ns as int) % 0x1_0000_0000) as u32,
            ),
        )
    }
}

/// The stores that set the SCL counts of standard and fast speed, and those
/// of high speed where the bus runs at it.
pub open spec fn lhcnt_ops(lhcnt: DwI2cSclLHCnt, mode: I2cSpeedMode) -> Seq<HwOp> {
    seq![
        HwOp::Write { reg: Reg::SsSclLcnt, value: lhcnt.ss_lcnt as u32 },
        HwOp::Write { reg: Reg::SsSclHcnt, value: lhcnt.ss_hcnt as u32 },
        HwOp::Write { reg: Reg::FsSclLcnt, value: lhcnt.fs_lcnt as u32 },
        HwOp::Write { reg: Reg::FsSclHcnt, value: lhcnt.fs_hcnt as u32 },
    ] + (if mode == I2cSpeedMode::HighSpeedMode {
        seq![
            HwOp::Write { reg: Reg::HsSclLcnt, value: lhcnt.hs_lcnt as u32 },
            HwOp::Write { reg: Reg::HsSclHcnt, value: lhcnt.hs_hcnt as u32 },
        ]
    } else {
        Seq::empty()
    })
}

/// The store that sets the SDA hold time, where there is one to set.
pub open spec fn sda_hold_ops(sda_hold_time: Option<u32>) -> Seq<HwOp> {
    match sda_hold_time {
        Some(value) => seq![HwOp::Write { reg: Reg::SdaHold, value }],
        None => Seq::empty(),
    }
}

/// The stores that set the FIFO thresholds.
pub open spec fn fifo_ops(ic_tx: u32, ic_rx: u32) -> Seq<HwOp> {
    seq![HwOp::Write { reg: Reg::TxTl, value: ic_tx }, HwOp::Write { reg: Reg::RxTl, value: ic_rx }]
}

/// One look at the bus while a transfer waits for it. `status` is
/// IC_STATUS: the bus is idle when its activity bit is clear. The poll
/// goes on as `poll_step` says, and a poll that ends without an idle bus
/// ends with `Busy`.
pub open spec fn bus_wait_step(poll: PollTimeout, status: u32, now: u64) -> (
    PollTimeout,
    PollAction,
) {
    let polled = poll_step(poll, !bit(status, IC_STATUS_ACTIVITY), now);
    (
        polled.0,
        match polled.1 {
            PollAction::Finish { result: Err(_) } => PollAction::Finish {
                result: Err(Errno::Busy),
            },
            other => other,
        },
    )
}

/// What the driver knows of the controller, apart from a transaction.
#[derive(Clone, Copy, Debug)]
pub struct I2cDwCoreDriver {
    /// The configuration from outside.
    pub ext_config: I2cDwDriverConfig,
    /// The bus frequency that the controller runs at.
    pub bus_freq_hz: u32,
    /// The SDA hold time to store, where the controller takes one.
    pub sda_hold_time: Option<u32>,
    /// What the adapter can do.
    pub functionality: I2cFuncFlags,
    /// The speed mode of `bus_freq_hz`.
    pub speed_mode: I2cSpeedMode,
}

impl I2cDwCoreDriver {
    /// A driver that has not looked at its controller yet.
    pub fn new(config: I2cDwDriverConfig) -> (core: Self)
        ensures
            core.ext_config == config,
            core.bus_freq_hz == 0,
            core.sda_hold_time.is_none(),
            core.functionality.spec_bits() == DW_I2C_DEFAULT_FUNCTIONALITY,
            core.speed_mode == I2cSpeedMode::StandMode,
    {
        I2cDwCoreDriver {
            ext_config: config,
            bus_freq_hz: 0,
            sda_hold_time: None,
            functionality: I2cFuncFlags::from_bits_retain(DW_I2C_DEFAULT_FUNCTIONALITY),
            speed_mode: I2cSpeedMode::StandMode,
        }
    }

    /// Settles the bus frequency. `comp_param_1` is IC_COMP_PARAM_1. A
    /// frequency that the controller cannot run at is an error. High speed on
    /// a controller that does not advertise it is none: the bus then runs
    /// in fast mode.
    pub fn speed_check(&mut self, comp_param_1: u32) -> (r: Result<(), Errno>)
        ensures
            r.is_ok() == speed_supported(old(self).ext_config.timing.bus_freq_hz),
            r.is_err() ==> r == Err::<(), Errno>(Errno::InvalidArgs) && *final(self) == *old(self),
            r.is_ok() ==> *final(self) == (I2cDwCoreDriver {
                bus_freq_hz: effective_bus_freq(
                    old(self).ext_config.timing.bus_freq_hz,
                    comp_param_1,
                ),
                speed_mode: I2cSpeedMode::of_bus_freq(
                    effective_bus_freq(old(self).ext_config.timing.bus_freq_hz, comp_param_1),
                ),
                ..*old(self)
            }),
    {
        let bus_freq_hz = self.ext_config.timing.get_bus_freq_hz();
        if !(bus_freq_hz == I2C_MAX_STANDARD_MODE_FREQ || bus_freq_hz == I2C_MAX_FAST_MODE_FREQ
            || bus_freq_hz == I2C_MAX_FAST_MODE_PLUS_FREQ || bus_freq_hz
            == I2C_MAX_HIGH_SPEED_MODE_FREQ) {
            return Err(Errno::InvalidArgs);
        }
        self.bus_freq_hz = bus_freq_hz;
        if reg_read(
            comp_param_1,
            IC_COMP_PARAM_1_MAX_SPEED_MODE_MASK,
            IC_COMP_PARAM_1_MAX_SPEED_MODE,
        ) != DW_IC_COMP_PARAM_1_SPEED_MODE_HIGH && self.bus_freq_hz
            == I2C_MAX_HIGH_SPEED_MODE_FREQ {
            self.bus_freq_hz = I2C_MAX_FAST_MODE_FREQ;
        }
        self.speed_mode = I2cSpeedMode::from_bus_freq(self.bus_freq_hz);
        Ok(())
    }

    /// Checks that the component is a DesignWare I2C block seen through a
    /// 32-bit little-endian bus. `com_type` is IC_COMP_TYPE.
    pub fn com_type_check(&self, com_type: u32) -> (r: Result<(), Errno>)
        ensures
            r == (if com_type == DW_IC_COMP_TYPE_VALUE {
                Ok::<(), Errno>(())
            } else {
                Err::<(), Errno>(Errno::NoSuchDevice)
            }),
    {
        if com_type == DW_IC_COMP_TYPE_VALUE {
            Ok(())
        } else {
            Err(Errno::NoSuchDevice)
        }
    }

    /// Adds to what the adapter can do.
    pub fn functionality_init(&mut self, functionality: I2cFuncFlags)
        ensures
            final(self).functionality.spec_bits() == old(self).functionality.spec_bits()
                | functionality.spec_bits(),
            *final(self) == (I2cDwCoreDriver {
                functionality: final(self).functionality,
                ..*old(self)
            }),
    {
        self.functionality = self.functionality.union(functionality);
    }

    /// `cfg`, a value for IC_CON, with the speed field set for the speed mode.
    pub fn cfg_init_speed(&self, cfg: u32) -> (r: u32)
        ensures
            r == field_modify(cfg, IC_CON_SPEED_MASK, IC_CON_SPEED, speed_field(self.speed_mode)),
    {
        match self.speed_mode {
            I2cSpeedMode::StandMode => reg_modify(cfg, IC_CON_SPEED_MASK, IC_CON_SPEED, 1),
            I2cSpeedMode::HighSpeedMode => reg_modify(cfg, IC_CON_SPEED_MASK, IC_CON_SPEED, 3),
            _ => reg_modify(cfg, IC_CON_SPEED_MASK, IC_CON_SPEED, 2),
        }
    }

    /// Settles the SDA hold time. `comp_version` is IC_COMP_VERSION and
    /// `sda_hold` is IC_SDA_HOLD.
    pub fn sda_hold_time_init(&mut self, comp_version: u32, sda_hold: u32) -> (r: Result<(), Errno>)
        ensures
            r.is_ok(),
            *final(self) == (I2cDwCoreDriver {
                sda_hold_time: sda_hold_time_spec(old(self).ext_config, comp_version, sda_hold),
                ..*old(self)
            }),
    {
        let ext_sda_hold_ns = self.ext_config.timing.get_sda_hold_ns();
        if comp_version < DW_IC_SDA_HOLD_MIN_VERS {
            self.sda_hold_time = None;
            return Ok(());
        }
        let mut hold: u32 = sda_hold;
        if ext_sda_hold_ns != 0 {
            let clk = self.ext_config.clk_rate_khz;
            assert(0 <= clk * ext_sda_hold_ns <= 0xffff_ffff * 0xffff_ffff) by (nonlinear_arith);
            hold = DwI2cSclLHCnt::div_round_closest_ull(clk as u64 * ext_sda_hold_ns as u64, MICRO);
        }
        if !reg_is_set(hold, IC_SDA_HOLD_RX_MASK, IC_SDA_HOLD_RX) {
            hold = reg_modify(hold, IC_SDA_HOLD_RX_MASK, IC_SDA_HOLD_RX, 1);
        }
        self.sda_hold_time = Some(hold);
        Ok(())
    }

    /// Takes one look at the bus for a transfer that waits for it to be
    /// idle. `status` is IC_STATUS, `now` the clock value read with it.
    pub fn wait_bus_not_busy(&self, poll: &mut PollTimeout, status: u32, now: u64) -> (action:
        PollAction)
        ensures
            *final(poll) == bus_wait_step(*old(poll), status, now).0,
            action == bus_wait_step(*old(poll), status, now).1,
    {
        let idle = !bit_is_set(status, IC_STATUS_ACTIVITY);
        match poll.read_poll_timeout(idle, now) {
            PollAction::Finish { result: Err(_) } => PollAction::Finish {
                result: Err(Errno::Busy),
            },
            other => other,
        }
    }

    /// The stores that set the SCL counts.
    pub fn write_lhcnt(&self, lhcnt: &DwI2cSclLHCnt) -> (ops: Vec<HwOp>)
        ensures
            ops@ == lhcnt_ops(*lhcnt, self.speed_mode),
    {
        let mut ops: Vec<HwOp> = Vec::new();
        ops.push(HwOp::Write { reg: Reg::SsSclLcnt, value: lhcnt.ss_lcnt as u32 });
        ops.push(HwOp::Write { reg: Reg::SsSclHcnt, value: lhcnt.ss_hcnt as u32 });
        ops.push(HwOp::Write { reg: Reg::FsSclLcnt, value: lhcnt.fs_lcnt as u32 });
        ops.push(HwOp::Write { reg: Reg::FsSclHcnt, value: lhcnt.fs_hcnt as u32 });
        if self.speed_mode == I2cSpeedMode::HighSpeedMode {
            ops.push(HwOp::Write { reg: Reg::HsSclLcnt, value: lhcnt.hs_lcnt as u32 });
            ops.push(HwOp::Write { reg: Reg::HsSclHcnt, value: lhcnt.hs_hcnt as u32 });
        }
        assert(ops@ =~= lhcnt_ops(*lhcnt, self.speed_mode));
        ops
    }

    /// The store that sets the SDA hold time, where there is one to set.
    pub fn write_sda_hold_time(&self) -> (ops: Vec<HwOp>)
        ensures
            ops@ == sda_hold_ops(self.sda_hold_time),
    {
        let mut ops: Vec<HwOp> = Vec::new();
        if let Some(value) = self.sda_hold_time {
            ops.push(HwOp::Write { reg: Reg::SdaHold, value });
        }
        assert(ops@ =~= sda_hold_ops(self.sda_hold_time));
        ops
    }

    /// The stores that set the FIFO thresholds.
    pub fn write_fifo(&self, ic_tx: u32, ic_rx: u32) -> (ops: Vec<HwOp>)
        ensures
            ops@ == fifo_ops(ic_tx, ic_rx),
    {
        let mut ops: Vec<HwOp> = Vec::new();
        ops.push(HwOp::Write { reg: Reg::TxTl, value: ic_tx });
        ops.push(HwOp::Write { reg: Reg::RxTl, value: ic_rx });
        assert(ops@ =~= fifo_ops(ic_tx, ic_rx));
        ops
    }
}

} // verus!
