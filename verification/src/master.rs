//! The master driver: setup, the course of a transfer, and the interrupt handler.

use crate::controller::{
    bus_wait_step, effective_bus_freq, fifo_ops, lhcnt_ops, sda_hold_ops, sda_hold_time_spec, speed_field,
    speed_supported, I2cDwCoreDriver, I2cDwDriverConfig,
};
use crate::error::Errno;
use crate::flags::{I2cFuncFlags, DW_I2C_DEFAULT_FUNCTIONALITY, I2C_FUNC_10BIT_ADDR};
use crate::lhcnt::{
    fall_time_or_default, lhcnt_fits, lhcnt_spec, low_16_bits, zero_counts, DwI2cSclLHCnt,
};
use crate::msg::{msg_views, msgs_wf, I2cMsg, MsgView};
use crate::poll::{PollAction, PollPhase, PollTimeout};
use crate::registers::{
    bit, bit_is_set, field_modify, field_read, master_intr_mask, reg_modify, reg_read, HwOp, Reg,
};
use crate::registers::{
    DW_IC_COMP_TYPE_VALUE, DW_IC_INTR_MASTER_MASK, IC_INTR_TX_ABRT, IC_INTR_TX_EMPTY, IC_COMP_PARAM_1_BUFFER_DEPTH_MASK,
    IC_COMP_PARAM_1_RX_BUFFER_DEPTH, IC_COMP_PARAM_1_TX_BUFFER_DEPTH,
    IC_CON_BUS_CLEAR_FEATURE_CTRL, IC_CON_MASTER_MODE, IC_CON_RESTART_EN, IC_CON_SLAVE_DISABLE,
    IC_CON_SPEED, IC_CON_SPEED_MASK, IC_ENABLE_ENABLE,
};
use crate::sequence::{
    disable_begin, disable_step, DisablePhase, DisableSeq, Next, Step, StepView,
    BUS_POLL_SLEEP_US, BUS_POLL_TIMEOUT_US,
};
use crate::timing::I2cSpeedMode;
use crate::xfer::{
    exit_ops, exit_result, irq_process_spec, irq_rx_taken, rx_demand, same_target, prepare_ops, prepared, FifoConfig, IrqEvent, MasterXfer,
    TransferResult, XferView,
};
use vstd::prelude::*;

verus! {

/// What the driver is in the middle of.
#[derive(Clone, Copy, Debug, PartialEq, Eq, Structural)]
pub enum Phase {
    /// Nothing.
    Idle,
    /// Setup: the controller is being switched off before it is programmed.
    SetupDisable,
    /// A transfer: the bus is being waited for.
    BusWait,
    /// A transfer: the controller is being switched off before the target is programmed.
    PrepareDisable,
    /// A transfer: the interrupt handler moves the transaction forward.
    Running,
    /// A transfer ran out of time: the controller is being switched off.
    TimeoutDisable,
}

/// The registers that setup looks at before it decides anything.
#[derive(Clone, Copy, Debug, PartialEq, Eq, Structural)]
pub struct HwProbe {
    /// IC_COMP_TYPE.
    pub comp_type: u32,
    /// IC_COMP_PARAM_1.
    pub comp_param_1: u32,
    /// IC_COMP_VERSION.
    pub comp_version: u32,
    /// IC_CON.
    pub ic_con: u32,
    /// IC_SDA_HOLD.
    pub sda_hold: u32,
}

/// What the caller hands to `advance`.
#[derive(Clone, Copy, Debug, PartialEq, Eq, Structural)]
pub enum Event {
    /// The register that the step before asked for, and the clock value read with it.
    Sample { value: u32, now: u64 },
    /// The interrupt handler signalled the end of the transaction.
    Completed,
    /// The wait for that signal ran out of time.
    TimedOut,
}

/// The driver, as contracts see it.
pub struct DriverView {
    /// The value kept for IC_CON.
    pub cfg: u32,
    pub core: I2cDwCoreDriver,
    pub lhcnt: DwI2cSclLHCnt,
    pub tx_fifo_depth: u32,
    pub rx_fifo_depth: u32,
    pub xfer: XferView,
    pub phase: Phase,
    /// The poll of the bus.
    pub poll: PollTimeout,
    /// The switching off under way.
    pub seq: DisableSeq,
    /// The messages of a transfer that has not been prepared yet.
    pub pending: Seq<MsgView>,
    /// How many messages the transfer under way has.
    pub msg_num: i32,
}

impl DriverView {
    /// What the transfer steps need to know of the configuration.
    pub open spec fn fifo_config(self) -> FifoConfig {
        FifoConfig {
            restart_en: bit(self.cfg, IC_CON_RESTART_EN),
            tx_fifo_depth: self.tx_fifo_depth,
            rx_fifo_depth: self.rx_fifo_depth,
        }
    }

    /// The state is one that the driver's own steps lead to.
    pub open spec fn wf(self) -> bool {
        &&& self.xfer.wf()
        &&& msgs_wf(self.pending)
        &&& (self.phase == Phase::BusWait || self.phase == Phase::PrepareDisable)
            ==> self.pending.len() > 0
    }
}

/// The value kept for IC_CON after setup: master mode, slave disabled,
/// restarts enabled, the bus clear feature where `ic_con` shows it
/// enabled, and the speed field of the mode.
pub open spec fn config_spec(cfg: u32, ic_con: u32, mode: I2cSpeedMode) -> u32 {
    let master = field_modify(cfg, 1, IC_CON_MASTER_MODE, 1);
    let no_slave = field_modify(master, 1, IC_CON_SLAVE_DISABLE, 1);
    let restart = field_modify(no_slave, 1, IC_CON_RESTART_EN, 1);
    let bus_clear = if bit(ic_con, IC_CON_BUS_CLEAR_FEATURE_CTRL) {
        field_modify(restart, 1, IC_CON_BUS_CLEAR_FEATURE_CTRL, 1)
    } else {
        restart
    };
    field_modify(bus_clear, IC_CON_SPEED_MASK, IC_CON_SPEED, speed_field(mode))
}

/// The depth of a FIFO: one more than the field of IC_COMP_PARAM_1 at `shift`.
pub open spec fn fifo_depth(comp_param_1: u32, shift: u32) -> u32 {
    (field_read(comp_param_1, IC_COMP_PARAM_1_BUFFER_DEPTH_MASK, shift) + 1) as u32
}

/// The stores that program the controller after it was switched off: the
/// SCL counts, the SDA hold time, the FIFO thresholds and IC_CON.
pub open spec fn master_setup_ops(d: DriverView) -> Seq<HwOp> {
    lhcnt_ops(d.lhcnt, d.core.speed_mode) + sda_hold_ops(d.core.sda_hold_time) + fifo_ops(
        d.tx_fifo_depth / 2,
        0,
    ) + seq![HwOp::Write { reg: Reg::Con, value: d.cfg }]
}

/// The step that ends a sequence with an error and touches no register.
pub open spec fn err_step(e: Errno) -> StepView {
    StepView { ops: Seq::empty(), next: Next::Done { result: Err(e) } }
}

/// The step that asks for IC_RAW_INTR_STAT, with which switching the
/// controller off begins.
pub open spec fn disable_first_step() -> StepView {
    StepView { ops: Seq::empty(), next: Next::Sample { reg: Reg::RawIntrStat, sleep_us: 0 } }
}

/// The speed mode that setup settles on.
pub open spec fn setup_mode(config: I2cDwDriverConfig, probe: HwProbe) -> I2cSpeedMode {
    I2cSpeedMode::of_bus_freq(effective_bus_freq(config.timing.bus_freq_hz, probe.comp_param_1))
}

/// Setup accepts the controller and the bus frequency.
pub open spec fn setup_accepts(config: I2cDwDriverConfig, probe: HwProbe) -> bool {
    probe.comp_type == DW_IC_COMP_TYPE_VALUE && speed_supported(config.timing.bus_freq_hz)
}

/// The SCL counts of the configuration can be computed for the speed mode
/// that setup settles on.
pub open spec fn setup_computable(config: I2cDwDriverConfig, probe: HwProbe) -> bool {
    lhcnt_fits(
        config.clk_rate_khz,
        fall_time_or_default(config.timing.scl_fall_ns),
        fall_time_or_default(config.timing.sda_fall_ns),
        setup_mode(config, probe) == I2cSpeedMode::FastPlusMode,
        setup_mode(config, probe) == I2cSpeedMode::HighSpeedMode,
    )
}

/// What setup settles, from the configuration and the registers probed.
pub open spec fn setup_core(d: DriverView, probe: HwProbe) -> DriverView {
    let config = d.core.ext_config;
    let mode = setup_mode(config, probe);
    DriverView {
        cfg: config_spec(d.cfg, probe.ic_con, mode),
        core: I2cDwCoreDriver {
            bus_freq_hz: effective_bus_freq(config.timing.bus_freq_hz, probe.comp_param_1),
            speed_mode: mode,
            sda_hold_time: sda_hold_time_spec(config, probe.comp_version, probe.sda_hold),
            functionality: I2cFuncFlags { bits: d.core.functionality.bits | I2C_FUNC_10BIT_ADDR },
            ..d.core
        },
        lhcnt: lhcnt_spec(
            d.lhcnt,
            config.clk_rate_khz,
            fall_time_or_default(config.timing.scl_fall_ns),
            fall_time_or_default(config.timing.sda_fall_ns),
            mode == I2cSpeedMode::FastPlusMode,
            mode == I2cSpeedMode::HighSpeedMode,
        ),
        tx_fifo_depth: fifo_depth(probe.comp_param_1, IC_COMP_PARAM_1_TX_BUFFER_DEPTH),
        rx_fifo_depth: fifo_depth(probe.comp_param_1, IC_COMP_PARAM_1_RX_BUFFER_DEPTH),
        ..d
    }
}

/// The driver after `setup` and the first step of setup.
///
/// A component that is no DesignWare I2C block gives `NoSuchDevice`, a bus
/// frequency that the controller cannot run at gives `InvalidArgs`, and a
/// driver that is in the middle of something answers `Busy`; none of these
/// changes the driver or touches a register. Otherwise everything is
/// settled and the controller is switched off, to be programmed once it
/// is off.
pub open spec fn setup_spec(d: DriverView, probe: HwProbe) -> (DriverView, StepView) {
    if probe.comp_type != DW_IC_COMP_TYPE_VALUE {
        (d, err_step(Errno::NoSuchDevice))
    } else if !speed_supported(d.core.ext_config.timing.bus_freq_hz) {
        (d, err_step(Errno::InvalidArgs))
    } else if d.phase != Phase::Idle {
        (d, err_step(Errno::Busy))
    } else {
        (
            DriverView { phase: Phase::SetupDisable, seq: disable_begin(), ..setup_core(d, probe) },
            disable_first_step(),
        )
    }
}

/// The driver after `master_transfer` and the first step of the transfer:
/// a look at the bus, which has `BUS_POLL_TIMEOUT_US` to become idle. A
/// driver that is in the middle of something answers `Busy`.
pub open spec fn transfer_begin_spec(d: DriverView, msgs: Seq<MsgView>, now: u64) -> (
    DriverView,
    StepView,
) {
    if d.phase != Phase::Idle {
        (d, err_step(Errno::Busy))
    } else {
        (
            DriverView {
                phase: Phase::BusWait,
                pending: msgs,
                msg_num: msgs.len() as i32,
                poll: PollTimeout {
                    sleep_us: BUS_POLL_SLEEP_US,
                    timeout_us: BUS_POLL_TIMEOUT_US,
                    deadline: crate::poll::deadline_of(now, BUS_POLL_TIMEOUT_US),
                    phase: PollPhase::Sampling,
                },
                ..d
            },
            StepView { ops: Seq::empty(), next: Next::Sample { reg: Reg::Status, sleep_us: 0 } },
        )
    }
}

/// What follows once the controller is off: the step that ends the phase `d.phase`.
///
/// At setup the controller is programmed and every interrupt masked. Before
/// a transaction the target is programmed, the controller enabled, pending
/// interrupts dropped and the transaction's interrupts unmasked; the caller
/// then waits for the end of the transaction. After a transfer that ran out
/// of time the controller is programmed afresh, pending interrupts are
/// dropped and every interrupt masked, and the transfer ends with `TimeOut`.
pub open spec fn after_disable(d: DriverView) -> (DriverView, StepView) {
    match d.phase {
        Phase::SetupDisable => (
            DriverView { phase: Phase::Idle, ..d },
            StepView {
                ops: master_setup_ops(d) + seq![HwOp::Write { reg: Reg::IntrMask, value: 0 }],
                next: Next::Done { result: Ok(0) },
            },
        ),
        Phase::PrepareDisable => (
            DriverView {
                phase: Phase::Running,
                xfer: prepared(d.pending),
                pending: Seq::empty(),
                ..d
            },
            StepView {
                ops: prepare_ops(d.pending[0]) + seq![
                    HwOp::Touch { reg: Reg::ClrIntr },
                    HwOp::Write { reg: Reg::IntrMask, value: DW_IC_INTR_MASTER_MASK },
                ],
                next: Next::AwaitCompletion,
            },
        ),
        Phase::TimeoutDisable => (
            DriverView { phase: Phase::Idle, ..d },
            StepView {
                ops: master_setup_ops(d) + seq![
                    HwOp::Touch { reg: Reg::ClrIntr },
                    HwOp::Write { reg: Reg::IntrMask, value: 0 },
                ],
                next: Next::Done { result: Err(Errno::TimeOut) },
            },
        ),
        _ => (d, err_step(Errno::InvalidArgs)),
    }
}

/// The driver after one event, and the next step.
///
/// While the bus is waited for, a sample of IC_STATUS goes to the poll: an
/// idle bus starts the switching off that precedes a transaction, a bus
/// that stays busy ends the transfer with `Busy`. While the controller is
/// switched off, a sample goes to that sequence, and `after_disable`
/// follows when it is over. While a transaction runs, the end of it closes
/// the transaction, switches the controller off at once and gives the
/// number of messages or the transaction's error; running out of time
/// starts the switching off that precedes `TimeOut`. An event that the
/// phase does not wait for is answered with `InvalidArgs` and changes nothing.
pub open spec fn advance_spec(d: DriverView, ev: Event) -> (DriverView, StepView) {
    match (d.phase, ev) {
        (Phase::BusWait, Event::Sample { value, now }) => {
            let polled = bus_wait_step(d.poll, value, now);
            match polled.1 {
                PollAction::Sample { sleep_us } => (
                    DriverView { poll: polled.0, ..d },
                    StepView {
                        ops: Seq::empty(),
                        next: Next::Sample { reg: Reg::Status, sleep_us },
                    },
                ),
                PollAction::Finish { result: Ok(_) } => (
                    DriverView {
                        poll: polled.0,
                        phase: Phase::PrepareDisable,
                        seq: disable_begin(),
                        ..d
                    },
                    disable_first_step(),
                ),
                PollAction::Finish { result: Err(_) } => (
                    DriverView { poll: polled.0, phase: Phase::Idle, pending: Seq::empty(), ..d },
                    err_step(Errno::Busy),
                ),
            }
        },
        (Phase::SetupDisable, Event::Sample { value, now })
        | (Phase::PrepareDisable, Event::Sample { value, now })
        | (Phase::TimeoutDisable, Event::Sample { value, now }) => {
            let stepped = disable_step(d.seq, value, now);
            if stepped.0.phase == DisablePhase::Done {
                after_disable(DriverView { seq: stepped.0, ..d })
            } else {
                (DriverView { seq: stepped.0, ..d }, stepped.1)
            }
        },
        (Phase::Running, Event::Completed) => (
            DriverView { phase: Phase::Idle, xfer: XferView { active: false, ..d.xfer }, ..d },
            StepView {
                ops: exit_ops(),
                next: Next::Done {
                    result: match exit_result(d.xfer) {
                        Ok(_) => Ok(d.msg_num),
                        Err(e) => Err(e),
                    },
                },
            },
        ),
        (Phase::Running, Event::TimedOut) => (
            DriverView { phase: Phase::TimeoutDisable, seq: disable_begin(), ..d },
            disable_first_step(),
        ),
        _ => (d, err_step(Errno::InvalidArgs)),
    }
}

/// Whether the controller asks for the handler: it is enabled, and a
/// condition other than bus activity is raised in IC_RAW_INTR_STAT.
pub open spec fn irq_pending(enable: u32, raw_stat: u32) -> bool {
    bit(enable, IC_ENABLE_ENABLE) && raw_stat & !0x100u32 != 0
}

/// What the interrupt handler hands back.
#[derive(Debug)]
pub struct IrqOutcome {
    /// The interrupt was the controller's.
    pub handled: bool,
    /// The register accesses to make, in order.
    pub ops: Vec<HwOp>,
    /// The transaction is over: the waiting caller is to be signalled.
    pub complete: bool,
    /// How many of the bytes handed in were stored in a message.
    pub rx_taken: usize,
}

/// How many bytes the handler can store at most for an interrupt: none for
/// an interrupt that is not the controller's, else what the transaction says.
pub open spec fn driver_rx_demand(d: DriverView, enable: u32, raw_stat: u32, stat: u32) -> nat {
    if irq_pending(enable, raw_stat) {
        rx_demand(d.xfer, stat)
    } else {
        0
    }
}

/// How many of the bytes `rx` the handler stores for an interrupt.
pub open spec fn driver_rx_taken(
    d: DriverView,
    enable: u32,
    raw_stat: u32,
    stat: u32,
    rx: Seq<u8>,
) -> nat {
    if irq_pending(enable, raw_stat) {
        irq_rx_taken(d.xfer, stat, rx)
    } else {
        0
    }
}

/// The driver after one interrupt, whether the interrupt was the
/// controller's, the register accesses to make, and whether the
/// transaction is over.
///
/// An interrupt that is not the controller's changes nothing. Otherwise the
/// transaction is moved forward. An interrupt without an active
/// transaction, and an abort, mask every interrupt; an abort and the end of
/// the transaction signal the waiting caller.
pub open spec fn irq_handler_spec(
    d: DriverView,
    enable: u32,
    raw_stat: u32,
    stat: u32,
    abort_source: u32,
    rx: Seq<u8>,
    tx_level: u32,
    rx_level: u32,
) -> (DriverView, bool, Seq<HwOp>, bool) {
    if !irq_pending(enable, raw_stat) {
        (d, false, Seq::empty(), false)
    } else {
        let p = irq_process_spec(
            d.xfer,
            d.fifo_config(),
            stat,
            abort_source,
            rx,
            tx_level,
            rx_level,
        );
        let mask_all = seq![HwOp::Write { reg: Reg::IntrMask, value: 0 }];
        (
            DriverView { xfer: p.0, ..d },
            true,
            match p.1 {
                TransferResult::UnexpectedInterrupt | TransferResult::Abort => p.2 + mask_all,
                _ => p.2,
            },
            p.1 == TransferResult::Abort || p.1 == TransferResult::Finish,
        )
    }
}

/// The driver of one controller.
#[derive(Debug)]
pub struct I2cDwMasterDriver {
    cfg: u32,
    driver: I2cDwCoreDriver,
    lhcnt: DwI2cSclLHCnt,
    tx_fifo_depth: u32,
    rx_fifo_depth: u32,
    xfer: MasterXfer,
    phase: Phase,
    poll: PollTimeout,
    seq: DisableSeq,
    pending: Vec<I2cMsg>,
    msg_num: i32,
}

impl View for I2cDwMasterDriver {
    type V = DriverView;

    closed spec fn view(&self) -> DriverView {
        DriverView {
            cfg: self.cfg,
            core: self.driver,
            lhcnt: self.lhcnt,
            tx_fifo_depth: self.tx_fifo_depth,
            rx_fifo_depth: self.rx_fifo_depth,
            xfer: self.xfer@,
            phase: self.phase,
            poll: self.poll,
            seq: self.seq,
            pending: msg_views(self.pending@),
            msg_num: self.msg_num,
        }
    }
}

proof fn lemma_depth_field(v: u32)
    by (bit_vector)
    ensures
        field_read(v, 0xff, 8) <= 0xff,
        field_read(v, 0xff, 16) <= 0xff,
{
}

impl I2cDwMasterDriver {
    /// The state is one that the driver's own steps lead to.
    pub closed spec fn wf(&self) -> bool {
        &&& self@.wf()
        &&& self.xfer.wf()
    }

    /// A driver for a controller with the given configuration.
    pub fn new(config: I2cDwDriverConfig) -> (d: Self)
        ensures
            d.wf(),
            d@.cfg == 0,
            d@.core.ext_config == config,
            d@.core.bus_freq_hz == 0,
            d@.core.sda_hold_time.is_none(),
            d@.core.functionality.spec_bits() == DW_I2C_DEFAULT_FUNCTIONALITY,
            d@.core.speed_mode == I2cSpeedMode::StandMode,
            d@.lhcnt == zero_counts(),
            d@.tx_fifo_depth == 0,
            d@.rx_fifo_depth == 0,
            MasterXfer::fresh(d@.xfer, Seq::empty()),
            d@.phase == Phase::Idle,
            d@.poll == (PollTimeout {
                sleep_us: 0,
                timeout_us: 0,
                deadline: 0,
                phase: PollPhase::Done,
            }),
            d@.seq == disable_begin(),
            d@.pending.len() == 0,
            d@.msg_num == 0,
    {
        let d = I2cDwMasterDriver {
            cfg: 0,
            driver: I2cDwCoreDriver::new(config),
            lhcnt: DwI2cSclLHCnt::new(),
            tx_fifo_depth: 0,
            rx_fifo_depth: 0,
            xfer: MasterXfer::new(),
            phase: Phase::Idle,
            poll: PollTimeout { sleep_us: 0, timeout_us: 0, deadline: 0, phase: PollPhase::Done },
            seq: DisableSeq::begin().0,
            pending: Vec::new(),
            msg_num: 0,
        };
        assert(d@.pending =~= Seq::empty());
        d
    }

    /// What the adapter can do.
    pub fn get_functionality(&self) -> (r: I2cFuncFlags)
        ensures
            r == self@.core.functionality,
    {
        self.driver.functionality
    }

    /// What the transfer steps need to know of the configuration.
    pub fn fifo_config(&self) -> (r: FifoConfig)
        ensures
            r == self@.fifo_config(),
    {
        FifoConfig {
            restart_en: bit_is_set(self.cfg, IC_CON_RESTART_EN),
            tx_fifo_depth: self.tx_fifo_depth,
            rx_fifo_depth: self.rx_fifo_depth,
        }
    }

    /// The interrupts that a running transaction listens to.
    pub fn master_default_intr_mask() -> (mask: u32)
        ensures
            mask == DW_IC_INTR_MASTER_MASK,
    {
        master_intr_mask(true)
    }

    /// Settles what the adapter can do and the value kept for IC_CON.
    /// `ic_con` is IC_CON as the controller holds it.
    fn config_init(&mut self, ic_con: u32) -> (r: Result<(), Errno>)
        ensures
            r.is_ok(),
            final(self)@ == (DriverView {
                cfg: config_spec(old(self)@.cfg, ic_con, old(self)@.core.speed_mode),
                core: final(self)@.core,
                ..old(self)@
            }),
            final(self)@.core == (I2cDwCoreDriver {
                functionality: final(self)@.core.functionality,
                ..old(self)@.core
            }),
            final(self)@.core.functionality.spec_bits() == old(self)@.core.functionality.spec_bits()
                | I2C_FUNC_10BIT_ADDR,
            final(self).xfer == old(self).xfer,
    {
        self.driver.functionality_init(I2cFuncFlags::ten_bit_addr());
        let mut cfg = self.cfg;
        cfg = reg_modify(cfg, 1, IC_CON_MASTER_MODE, 1);
        cfg = reg_modify(cfg, 1, IC_CON_SLAVE_DISABLE, 1);
        cfg = reg_modify(cfg, 1, IC_CON_RESTART_EN, 1);
        if bit_is_set(ic_con, IC_CON_BUS_CLEAR_FEATURE_CTRL) {
            cfg = reg_modify(cfg, 1, IC_CON_BUS_CLEAR_FEATURE_CTRL, 1);
        }
        self.cfg = self.driver.cfg_init_speed(cfg);
        Ok(())
    }

    /// Settles the depths of the two FIFOs. `comp_param_1` is IC_COMP_PARAM_1.
    fn fifo_size_init(&mut self, comp_param_1: u32)
        ensures
            final(self)@ == (DriverView {
                tx_fifo_depth: fifo_depth(comp_param_1, IC_COMP_PARAM_1_TX_BUFFER_DEPTH),
                rx_fifo_depth: fifo_depth(comp_param_1, IC_COMP_PARAM_1_RX_BUFFER_DEPTH),
                ..old(self)@
            }),
            final(self).xfer == old(self).xfer,
    {
        proof {
            lemma_depth_field(comp_param_1);
        }
        self.tx_fifo_depth = reg_read(
            comp_param_1,
            IC_COMP_PARAM_1_BUFFER_DEPTH_MASK,
            IC_COMP_PARAM_1_TX_BUFFER_DEPTH,
        ) + 1;
        self.rx_fifo_depth = reg_read(
            comp_param_1,
            IC_COMP_PARAM_1_BUFFER_DEPTH_MASK,
            IC_COMP_PARAM_1_RX_BUFFER_DEPTH,
        ) + 1;
    }

    /// Computes the SCL counts from the clock rate and the fall times of
    /// the configuration, with 300 ns in place of a fall time of zero.
    pub fn scl_lhcnt_init(&mut self) -> (r: Result<(), Errno>)
        requires
            lhcnt_fits(
                old(self)@.core.ext_config.clk_rate_khz,
                fall_time_or_default(old(self)@.core.ext_config.timing.scl_fall_ns),
                fall_time_or_default(old(self)@.core.ext_config.timing.sda_fall_ns),
                old(self)@.core.speed_mode == I2cSpeedMode::FastPlusMode,
                old(self)@.core.speed_mode == I2cSpeedMode::HighSpeedMode,
            ),
        ensures
            r.is_ok(),
            final(self)@ == (DriverView {
                lhcnt: lhcnt_spec(
                    old(self)@.lhcnt,
                    old(self)@.core.ext_config.clk_rate_khz,
                    fall_time_or_default(old(self)@.core.ext_config.timing.scl_fall_ns),
                    fall_time_or_default(old(self)@.core.ext_config.timing.sda_fall_ns),
                    old(self)@.core.speed_mode == I2cSpeedMode::FastPlusMode,
                    old(self)@.core.speed_mode == I2cSpeedMode::HighSpeedMode,
                ),
                ..old(self)@
            }),
            old(self).wf() ==> final(self).wf(),
    {
        let ic_clk = self.driver.ext_config.clk_rate_khz;
        let mut scl_fall_ns = self.driver.ext_config.timing.get_scl_fall_ns();
        let mut sda_fall_ns = self.driver.ext_config.timing.get_sda_fall_ns();
        if scl_fall_ns == 0 {
            scl_fall_ns = 300;
        }
        if sda_fall_ns == 0 {
            sda_fall_ns = 300;
        }
        // tLOW = 4.7 us and tHIGH = 4 us, both without offset
        self.lhcnt.ss_lcnt = low_16_bits(DwI2cSclLHCnt::scl_lcnt(ic_clk, 4700, scl_fall_ns, 0));
        self.lhcnt.ss_hcnt = low_16_bits(
            DwI2cSclLHCnt::scl_hcnt(ic_clk, 4000, sda_fall_ns, false, 0),
        );
        let speed_mode = self.driver.speed_mode;
        if speed_mode == I2cSpeedMode::FastPlusMode {
            self.lhcnt.fs_lcnt = low_16_bits(DwI2cSclLHCnt::scl_lcnt(ic_clk, 500, scl_fall_ns, 0));
            self.lhcnt.fs_hcnt = low_16_bits(
                DwI2cSclLHCnt::scl_hcnt(ic_clk, 260, sda_fall_ns, false, 0),
            );
        } else {
            self.lhcnt.fs_lcnt = low_16_bits(DwI2cSclLHCnt::scl_lcnt(ic_clk, 1300, scl_fall_ns, 0));
            self.lhcnt.fs_hcnt = low_16_bits(
                DwI2cSclLHCnt::scl_hcnt(ic_clk, 600, sda_fall_ns, false, 0),
            );
        }
        if speed_mode == I2cSpeedMode::HighSpeedMode {
            self.lhcnt.hs_lcnt = low_16_bits(DwI2cSclLHCnt::scl_lcnt(ic_clk, 320, scl_fall_ns, 0));
            self.lhcnt.hs_hcnt = low_16_bits(
                DwI2cSclLHCnt::scl_hcnt(ic_clk, 160, sda_fall_ns, false, 0),
            );
        }
        Ok(())
    }

    /// Whether the SCL counts can be computed for the speed mode that
    /// setup would settle on with these registers.
    pub fn setup_computable(&self, probe: &HwProbe) -> (b: bool)
        ensures
            b == setup_computable(self@.core.ext_config, *probe),
    {
        let config = self.driver.ext_config;
        let mut mode_probe = self.driver;
        let mode = match mode_probe.speed_check(probe.comp_param_1) {
            Ok(_) => mode_probe.speed_mode,
            Err(_) => I2cSpeedMode::from_bus_freq(config.timing.get_bus_freq_hz()),
        };
        let ic_clk = config.clk_rate_khz;
        let scl_fall_ns = if config.timing.get_scl_fall_ns() == 0 {
            300
        } else {
            config.timing.get_scl_fall_ns()
        };
        let sda_fall_ns = if config.timing.get_sda_fall_ns() == 0 {
            300
        } else {
            config.timing.get_sda_fall_ns()
        };
        let fast_plus = mode == I2cSpeedMode::FastPlusMode;
        let high_speed = mode == I2cSpeedMode::HighSpeedMode;
        DwI2cSclLHCnt::scl_lcnt_in_range(ic_clk, 4700, scl_fall_ns, 0)
            && DwI2cSclLHCnt::scl_hcnt_in_range(ic_clk, 4000, sda_fall_ns, false, 0)
            && DwI2cSclLHCnt::scl_lcnt_in_range(
            ic_clk,
            if fast_plus {
                500
            } else {
                1300
            },
            scl_fall_ns,
            0,
        ) && DwI2cSclLHCnt::scl_hcnt_in_range(
            ic_clk,
            if fast_plus {
                260
            } else {
                600
            },
            sda_fall_ns,
            false,
            0,
        ) && (!high_speed || DwI2cSclLHCnt::scl_lcnt_in_range(ic_clk, 320, scl_fall_ns, 0))
            && (!high_speed || DwI2cSclLHCnt::scl_hcnt_in_range(ic_clk, 160, sda_fall_ns, false, 0))
    }

    /// Initializes the driver and begins to program the controller. `probe`
    /// holds the registers that setup decides on. The steps that follow
    /// are taken with `advance`.
    pub fn setup(&mut self, probe: &HwProbe) -> (step: Step)
        requires
            old(self).wf(),
            old(self)@.phase == Phase::Idle && setup_accepts(old(self)@.core.ext_config, *probe)
                ==> setup_computable(old(self)@.core.ext_config, *probe),
        ensures
            final(self).wf(),
            final(self)@ == setup_spec(old(self)@, *probe).0,
            step@ == setup_spec(old(self)@, *probe).1,
    {
        // the component and the speed are checked before anything is settled
        if let Err(e) = self.driver.com_type_check(probe.comp_type) {
            return Step { ops: Vec::new(), next: Next::Done { result: Err(e) } };
        }
        let mut settled = self.driver;
        if let Err(e) = settled.speed_check(probe.comp_param_1) {
            return Step { ops: Vec::new(), next: Next::Done { result: Err(e) } };
        }
        if self.phase != Phase::Idle {
            return Step { ops: Vec::new(), next: Next::Done { result: Err(Errno::Busy) } };
        }
        self.driver = settled;
        let _ = self.config_init(probe.ic_con);
        let _ = self.scl_lhcnt_init();
        let _ = self.driver.sda_hold_time_init(probe.comp_version, probe.sda_hold);
        self.fifo_size_init(probe.comp_param_1);
        let begun = DisableSeq::begin();
        self.seq = begun.0;
        self.phase = Phase::SetupDisable;
        begun.1
    }

    /// Begins a transfer of `msgs` at clock value `now`. The steps that
    /// follow are taken with `advance`; the interrupt handler moves the
    /// transaction forward while the caller waits for its end.
    pub fn master_transfer(&mut self, msgs: Vec<I2cMsg>, now: u64) -> (step: Step)
        requires
            old(self).wf(),
            0 < msgs@.len() <= i32::MAX,
            msgs_wf(msg_views(msgs@)),
        ensures
            final(self).wf(),
            final(self)@ == transfer_begin_spec(old(self)@, msg_views(msgs@), now).0,
            step@ == transfer_begin_spec(old(self)@, msg_views(msgs@), now).1,
    {
        if self.phase != Phase::Idle {
            return Step { ops: Vec::new(), next: Next::Done { result: Err(Errno::Busy) } };
        }
        self.msg_num = msgs.len() as i32;
        self.pending = msgs;
        self.poll = PollTimeout::start(now, BUS_POLL_SLEEP_US, BUS_POLL_TIMEOUT_US, false).0;
        self.phase = Phase::BusWait;
        Step { ops: Vec::new(), next: Next::Sample { reg: Reg::Status, sleep_us: 0 } }
    }

    /// The step that follows once the controller is off.
    fn after_disable(&mut self) -> (step: Step)
        requires
            old(self).wf(),
        ensures
            final(self).wf(),
            final(self)@ == after_disable(old(self)@).0,
            step@ == after_disable(old(self)@).1,
    {
        match self.phase {
            Phase::SetupDisable => {
                let mut ops = self.master_setup();
                ops.push(HwOp::Write { reg: Reg::IntrMask, value: 0 });
                self.phase = Phase::Idle;
                assert(ops@ =~= after_disable(old(self)@).1.ops);
                Step { ops, next: Next::Done { result: Ok(0) } }
            },
            Phase::PrepareDisable => {
                let mut msgs: Vec<I2cMsg> = Vec::new();
                std::mem::swap(&mut self.pending, &mut msgs);
                let mut ops = self.xfer.prepare(msgs);
                ops.push(HwOp::Touch { reg: Reg::ClrIntr });
                ops.push(HwOp::Write { reg: Reg::IntrMask, value: Self::master_default_intr_mask() });
                self.phase = Phase::Running;
                assert(self@.pending =~= Seq::empty());
                assert(ops@ =~= after_disable(old(self)@).1.ops);
                Step { ops, next: Next::AwaitCompletion }
            },
            Phase::TimeoutDisable => {
                let mut ops = self.master_setup();
                ops.push(HwOp::Touch { reg: Reg::ClrIntr });
                ops.push(HwOp::Write { reg: Reg::IntrMask, value: 0 });
                self.phase = Phase::Idle;
                assert(ops@ =~= after_disable(old(self)@).1.ops);
                Step { ops, next: Next::Done { result: Err(Errno::TimeOut) } }
            },
            _ => Step { ops: Vec::new(), next: Next::Done { result: Err(Errno::InvalidArgs) } },
        }
    }

    /// Takes the answer to the step before and decides the next step.
    pub fn advance(&mut self, ev: Event) -> (step: Step)
        requires
            old(self).wf(),
        ensures
            final(self).wf(),
            final(self)@ == advance_spec(old(self)@, ev).0,
            step@ == advance_spec(old(self)@, ev).1,
    {
        match (self.phase, ev) {
            (Phase::BusWait, Event::Sample { value, now }) => {
                match self.driver.wait_bus_not_busy(&mut self.poll, value, now) {
                    PollAction::Sample { sleep_us } => Step {
                        ops: Vec::new(),
                        next: Next::Sample { reg: Reg::Status, sleep_us },
                    },
                    PollAction::Finish { result: Ok(_) } => {
                        let begun = DisableSeq::begin();
                        self.seq = begun.0;
                        self.phase = Phase::PrepareDisable;
                        begun.1
                    },
                    PollAction::Finish { result: Err(_) } => {
                        self.pending = Vec::new();
                        self.phase = Phase::Idle;
                        assert(self@.pending =~= Seq::empty());
                        Step { ops: Vec::new(), next: Next::Done { result: Err(Errno::Busy) } }
                    },
                }
            },
            (Phase::SetupDisable, Event::Sample { value, now })
            | (Phase::PrepareDisable, Event::Sample { value, now })
            | (Phase::TimeoutDisable, Event::Sample { value, now }) => {
                let step = self.seq.disable_controler(value, now);
                if self.seq.is_done() {
                    self.after_disable()
                } else {
                    step
                }
            },
            (Phase::Running, Event::Completed) => {
                let closed = self.xfer.exit();
                let result = match closed.1 {
                    Ok(_) => Ok(self.msg_num),
                    Err(e) => Err(e),
                };
                self.phase = Phase::Idle;
                Step { ops: closed.0, next: Next::Done { result } }
            },
            (Phase::Running, Event::TimedOut) => {
                let begun = DisableSeq::begin();
                self.seq = begun.0;
                self.phase = Phase::TimeoutDisable;
                begun.1
            },
            _ => Step { ops: Vec::new(), next: Next::Done { result: Err(Errno::InvalidArgs) } },
        }
    }

    /// The interrupt service routine. `enable` is IC_ENABLE and `raw_stat`
    /// is IC_RAW_INTR_STAT; `irq` holds what was read from the controller
    /// for the transaction.
    pub fn irq_handler(&mut self, enable: u32, raw_stat: u32, irq: &IrqEvent) -> (out: IrqOutcome)
        requires
            old(self).wf(),
        ensures
            final(self).wf(),
            final(self)@ == irq_handler_spec(
                old(self)@,
                enable,
                raw_stat,
                irq.stat,
                irq.abort_source,
                irq.rx@,
                irq.tx_level,
                irq.rx_level,
            ).0,
            out.handled == irq_handler_spec(
                old(self)@,
                enable,
                raw_stat,
                irq.stat,
                irq.abort_source,
                irq.rx@,
                irq.tx_level,
                irq.rx_level,
            ).1,
            out.ops@ == irq_handler_spec(
                old(self)@,
                enable,
                raw_stat,
                irq.stat,
                irq.abort_source,
                irq.rx@,
                irq.tx_level,
                irq.rx_level,
            ).2,
            out.complete == irq_handler_spec(
                old(self)@,
                enable,
                raw_stat,
                irq.stat,
                irq.abort_source,
                irq.rx@,
                irq.tx_level,
                irq.rx_level,
            ).3,
            out.rx_taken == driver_rx_taken(old(self)@, enable, raw_stat, irq.stat, irq.rx@),
            out.rx_taken <= driver_rx_demand(old(self)@, enable, raw_stat, irq.stat),
            out.rx_taken <= irq.rx@.len(),
    {
        if !Self::irq_pending(enable, raw_stat) {
            return IrqOutcome { handled: false, ops: Vec::new(), complete: false, rx_taken: 0 };
        }
        let cfg = self.fifo_config();
        let processed = self.xfer.irq_process(&cfg, irq);
        let mut ops = processed.ops;
        let mut complete = false;
        match processed.result {
            TransferResult::UnexpectedInterrupt => {
                ops.push(HwOp::Write { reg: Reg::IntrMask, value: 0 });
            },
            TransferResult::Abort => {
                ops.push(HwOp::Write { reg: Reg::IntrMask, value: 0 });
                complete = true;
            },
            TransferResult::Finish => {
                complete = true;
            },
            TransferResult::Continue => {},
        }
        IrqOutcome { handled: true, ops, complete, rx_taken: processed.rx_taken }
    }

    /// How many bytes the handler can store at most for an interrupt with
    /// the given IC_ENABLE, IC_RAW_INTR_STAT and IC_INTR_STAT. No more than
    /// these need to be taken from the receive FIFO before the handler is called.
    pub fn rx_demand(&self, enable: u32, raw_stat: u32, stat: u32) -> (n: u32)
        ensures
            n == driver_rx_demand(self@, enable, raw_stat, stat),
    {
        if Self::irq_pending(enable, raw_stat) {
            self.xfer.rx_demand(stat)
        } else {
            0
        }
    }

    /// Whether the controller asks for the handler.
    pub fn irq_pending(enable: u32, raw_stat: u32) -> (r: bool)
        ensures
            r == irq_pending(enable, raw_stat),
    {
        bit_is_set(enable, IC_ENABLE_ENABLE) && raw_stat & !0x100u32 != 0
    }

    /// The SCL counts that setup settled on.
    pub fn lhcnt(&self) -> (r: DwI2cSclLHCnt)
        ensures
            r == self@.lhcnt,
    {
        self.lhcnt
    }

    /// The state of the transaction.
    pub fn xfer(&self) -> (r: &MasterXfer)
        ensures
            r@ == self@.xfer,
    {
        &self.xfer
    }

    /// Hands out the messages of the last transaction, each with what was
    /// sent and received of it.
    pub fn take_msgs(&mut self) -> (r: Vec<I2cMsg>)
        requires
            old(self).wf(),
        ensures
            final(self).wf(),
            msg_views(r@) == old(self)@.xfer.msgs,
            final(self)@ == (DriverView {
                xfer: XferView { msgs: Seq::empty(), read_idx: 0, write_idx: 0, ..old(self)@.xfer },
                ..old(self)@
            }),
    {
        self.xfer.take_msgs()
    }

    /// The stores that program the controller after it was switched off.
    fn master_setup(&self) -> (ops: Vec<HwOp>)
        ensures
            ops@ == master_setup_ops(self@),
    {
        let mut ops = self.driver.write_lhcnt(&self.lhcnt);
        let mut hold = self.driver.write_sda_hold_time();
        let mut fifo = self.driver.write_fifo(self.tx_fifo_depth / 2, 0);
        ops.append(&mut hold);
        ops.append(&mut fifo);
        ops.push(HwOp::Write { reg: Reg::Con, value: self.cfg });
        assert(ops@ =~= master_setup_ops(self@));
        ops
    }
}


/// A bus frequency that the controller cannot run at fails setup with
/// `InvalidArgs`: the driver stays as it was and no register is touched.
pub proof fn lemma_unsupported_speed_rejected(d: DriverView, probe: HwProbe)
    requires
        probe.comp_type == DW_IC_COMP_TYPE_VALUE,
        !speed_supported(d.core.ext_config.timing.bus_freq_hz),
    ensures
        setup_spec(d, probe).0 == d,
        setup_spec(d, probe).1.next == (Next::Done { result: Err(Errno::InvalidArgs) }),
        setup_spec(d, probe).1.ops.len() == 0,
{
}

/// A component that is no DesignWare I2C block fails setup with
/// `NoSuchDevice`, whatever else the registers hold.
pub proof fn lemma_unknown_component_rejected(d: DriverView, probe: HwProbe)
    requires
        probe.comp_type != DW_IC_COMP_TYPE_VALUE,
    ensures
        setup_spec(d, probe).0 == d,
        setup_spec(d, probe).1.next == (Next::Done { result: Err(Errno::NoSuchDevice) }),
        setup_spec(d, probe).1.ops.len() == 0,
{
}

/// The SCL counts that setup settles on do not tell a fall time of zero
/// from one of 300 ns.
pub proof fn lemma_setup_defaults_fall_times(a: DriverView, b: DriverView, probe: HwProbe)
    requires
        a.lhcnt == b.lhcnt,
        a.core.ext_config.clk_rate_khz == b.core.ext_config.clk_rate_khz,
        a.core.ext_config.timing.bus_freq_hz == b.core.ext_config.timing.bus_freq_hz,
        a.core.ext_config.timing.scl_fall_ns == 0,
        b.core.ext_config.timing.scl_fall_ns == 300,
        a.core.ext_config.timing.sda_fall_ns == 0,
        b.core.ext_config.timing.sda_fall_ns == 300,
        a.phase == b.phase,
    ensures
        setup_core(a, probe).lhcnt == setup_core(b, probe).lhcnt,
        setup_spec(a, probe).0.lhcnt == setup_spec(b, probe).0.lhcnt,
{
}

/// Closing a transaction clears the active flag, however the transaction
/// went, and leaves the driver idle. It takes one store, which switches the
/// controller off, and waits for nothing: whether the controller ever
/// confirms that it is off does not matter.
pub proof fn lemma_completed_clears_active(d: DriverView)
    requires
        d.phase == Phase::Running,
    ensures
        !advance_spec(d, Event::Completed).0.xfer.active,
        advance_spec(d, Event::Completed).0.phase == Phase::Idle,
        advance_spec(d, Event::Completed).1.next is Done,
        advance_spec(d, Event::Completed).1.ops == seq![
            HwOp::Write { reg: Reg::Enable, value: 0 },
        ],
{
}

/// No access of `ops` stores a word in IC_DATA_CMD.
pub open spec fn queues_nothing(ops: Seq<HwOp>) -> bool {
    forall|i: int|
        0 <= i < ops.len() ==> !(#[trigger] ops[i] matches HwOp::Write { reg: Reg::DataCmd, .. })
}

proof fn lemma_queues_nothing_concat(a: Seq<HwOp>, b: Seq<HwOp>)
    requires
        queues_nothing(a),
        queues_nothing(b),
    ensures
        queues_nothing(a + b),
{
    let both = a + b;
    assert forall|i: int| 0 <= i < both.len() implies !(#[trigger] both[i] matches HwOp::Write {
        reg: Reg::DataCmd,
        ..
    }) by {
        if i < a.len() {
            assert(both[i] == a[i]);
        } else {
            assert(both[i] == b[i - a.len()]);
        }
    }
}

proof fn lemma_master_setup_queues_nothing(d: DriverView)
    ensures
        queues_nothing(master_setup_ops(d)),
{
    let counts = lhcnt_ops(d.lhcnt, d.core.speed_mode);
    let low = seq![
        HwOp::Write { reg: Reg::SsSclLcnt, value: d.lhcnt.ss_lcnt as u32 },
        HwOp::Write { reg: Reg::SsSclHcnt, value: d.lhcnt.ss_hcnt as u32 },
        HwOp::Write { reg: Reg::FsSclLcnt, value: d.lhcnt.fs_lcnt as u32 },
        HwOp::Write { reg: Reg::FsSclHcnt, value: d.lhcnt.fs_hcnt as u32 },
    ];
    let high = if d.core.speed_mode == I2cSpeedMode::HighSpeedMode {
        seq![
            HwOp::Write { reg: Reg::HsSclLcnt, value: d.lhcnt.hs_lcnt as u32 },
            HwOp::Write { reg: Reg::HsSclHcnt, value: d.lhcnt.hs_hcnt as u32 },
        ]
    } else {
        Seq::empty()
    };
    assert(queues_nothing(low));
    assert(queues_nothing(high));
    lemma_queues_nothing_concat(low, high);
    assert(counts == low + high);
    let hold = sda_hold_ops(d.core.sda_hold_time);
    assert(queues_nothing(hold));
    lemma_queues_nothing_concat(counts, hold);
    let fifo = fifo_ops(d.tx_fifo_depth / 2, 0);
    assert(queues_nothing(fifo));
    lemma_queues_nothing_concat(counts + hold, fifo);
    let con = seq![HwOp::Write { reg: Reg::Con, value: d.cfg }];
    assert(queues_nothing(con));
    lemma_queues_nothing_concat(counts + hold + fifo, con);
}

/// Commands are queued by the interrupt handler alone: no step of setup or
/// of a transfer stores a word in IC_DATA_CMD.
pub proof fn lemma_steps_queue_nothing(d: DriverView, ev: Event)
    ensures
        queues_nothing(advance_spec(d, ev).1.ops),
{
    let step = advance_spec(d, ev).1;
    match (d.phase, ev) {
        (Phase::SetupDisable, Event::Sample { value, now })
        | (Phase::PrepareDisable, Event::Sample { value, now })
        | (Phase::TimeoutDisable, Event::Sample { value, now }) => {
            let stepped = disable_step(d.seq, value, now);
            if stepped.0.phase == DisablePhase::Done {
                let e = DriverView { seq: stepped.0, ..d };
                lemma_master_setup_queues_nothing(e);
                match d.phase {
                    Phase::SetupDisable => {
                        let tail = seq![HwOp::Write { reg: Reg::IntrMask, value: 0 }];
                        assert(queues_nothing(tail));
                        lemma_queues_nothing_concat(master_setup_ops(e), tail);
                    },
                    Phase::PrepareDisable => {
                        let tail = seq![
                            HwOp::Touch { reg: Reg::ClrIntr },
                            HwOp::Write { reg: Reg::IntrMask, value: DW_IC_INTR_MASTER_MASK },
                        ];
                        assert(queues_nothing(tail));
                        assert(queues_nothing(prepare_ops(e.pending[0])));
                        lemma_queues_nothing_concat(prepare_ops(e.pending[0]), tail);
                    },
                    _ => {
                        let tail = seq![
                            HwOp::Touch { reg: Reg::ClrIntr },
                            HwOp::Write { reg: Reg::IntrMask, value: 0 },
                        ];
                        assert(queues_nothing(tail));
                        lemma_queues_nothing_concat(master_setup_ops(e), tail);
                    },
                }
            } else {
                assert(queues_nothing(stepped.1.ops));
            }
        },
        _ => {
            assert(queues_nothing(step.ops));
        },
    }
}

/// The driver after the events `events`, each handed to `advance` in turn.
pub open spec fn run_events(d: DriverView, events: Seq<Event>) -> DriverView
    decreases events.len(),
{
    if events.len() == 0 {
        d
    } else {
        advance_spec(run_events(d, events.drop_last()), events.last()).0
    }
}

/// The course of a transfer, from `master_transfer` on an idle driver
/// through any events: while the bus is waited for and the controller is
/// switched off, the messages wait untouched; when the transaction runs, it
/// is the prepared transaction of exactly those messages, until the
/// interrupt handler moves it.
pub proof fn lemma_transfer_course(d: DriverView, msgs: Seq<MsgView>, now: u64, events: Seq<Event>)
    requires
        d.phase == Phase::Idle,
    ensures
        ({
            let r = run_events(transfer_begin_spec(d, msgs, now).0, events);
            &&& r.phase != Phase::SetupDisable
            &&& (r.phase == Phase::BusWait || r.phase == Phase::PrepareDisable) ==> r.pending
                == msgs
            &&& r.phase == Phase::Running ==> r.xfer == prepared(msgs)
        }),
    decreases events.len(),
{
    if events.len() > 0 {
        lemma_transfer_course(d, msgs, now, events.drop_last());
    }
}

/// A transfer of messages that name different targets fails with
/// `InvalidArgs` before any byte is queued. No step from `master_transfer`
/// to the running transaction stores a word in IC_DATA_CMD; the first
/// interrupt that asks for commands stores none either and signals the
/// caller; and the step that follows the signal ends the transfer with
/// `InvalidArgs`.
pub proof fn lemma_mixed_targets_transfer_fails(
    d: DriverView,
    msgs: Seq<MsgView>,
    now: u64,
    events: Seq<Event>,
    enable: u32,
    raw_stat: u32,
    stat: u32,
    abort_source: u32,
    rx: Seq<u8>,
    tx_level: u32,
    rx_level: u32,
)
    requires
        d.phase == Phase::Idle,
        !same_target(msgs),
        run_events(transfer_begin_spec(d, msgs, now).0, events).phase == Phase::Running,
        irq_pending(enable, raw_stat),
        bit(stat, IC_INTR_TX_EMPTY),
        !bit(stat, IC_INTR_TX_ABRT),
    ensures
        queues_nothing(transfer_begin_spec(d, msgs, now).1.ops),
        forall|k: int|
            0 <= k < events.len() ==> queues_nothing(
                #[trigger] advance_spec(
                    run_events(transfer_begin_spec(d, msgs, now).0, events.take(k)),
                    events[k],
                ).1.ops,
            ),
        ({
            let running = run_events(transfer_begin_spec(d, msgs, now).0, events);
            let handled = irq_handler_spec(
                running,
                enable,
                raw_stat,
                stat,
                abort_source,
                rx,
                tx_level,
                rx_level,
            );
            &&& handled.1
            &&& handled.3
            &&& queues_nothing(handled.2)
            &&& advance_spec(handled.0, Event::Completed).1.next == (Next::Done {
                result: Err(Errno::InvalidArgs),
            })
        }),
{
    let begun = transfer_begin_spec(d, msgs, now).0;
    assert forall|k: int| 0 <= k < events.len() implies queues_nothing(
        #[trigger] advance_spec(run_events(begun, events.take(k)), events[k]).1.ops,
    ) by {
        lemma_steps_queue_nothing(run_events(begun, events.take(k)), events[k]);
    }
    let running = run_events(begun, events);
    lemma_transfer_course(d, msgs, now, events);
    crate::xfer::lemma_mixed_targets_fail(
        msgs,
        running.fifo_config(),
        stat,
        abort_source,
        rx,
        tx_level,
        rx_level,
    );
    let handled = irq_handler_spec(
        running,
        enable,
        raw_stat,
        stat,
        abort_source,
        rx,
        tx_level,
        rx_level,
    );
    assert(queues_nothing(handled.2));
}

} // verus!
