use dw_apb_i2c::error::Errno;
use dw_apb_i2c::flags::I2cMsgFlags;
use dw_apb_i2c::msg::I2cMsg;
use dw_apb_i2c::registers::{HwOp, Reg};
use dw_apb_i2c::xfer::{FifoConfig, IrqEvent, MasterXfer, TransferResult};

fn cfg(depth: u32) -> FifoConfig {
    FifoConfig { restart_en: true, tx_fifo_depth: depth, rx_fifo_depth: depth }
}

fn read_flags() -> I2cMsgFlags {
    I2cMsgFlags::master_read()
}

fn irq(stat: u32, rx: Vec<u8>) -> IrqEvent {
    IrqEvent { stat, abort_source: 0, rx, tx_level: 0, rx_level: 0 }
}

fn data_cmds(ops: &[HwOp]) -> Vec<u32> {
    let mut out = Vec::new();
    for op in ops {
        if let HwOp::Write { reg: Reg::DataCmd, value } = op {
            out.push(*value);
        }
    }
    out
}

#[test]
fn prepare_programs_a_seven_bit_target() {
    let mut x = MasterXfer::new();
    let ops = x.prepare(vec![I2cMsg::new(0x50, I2cMsgFlags::empty(), vec![1])]);
    assert_eq!(
        ops,
        vec![
            HwOp::Modify { reg: Reg::Con, mask: 1, shift: 4, value: 0 },
            HwOp::Write { reg: Reg::Tar, value: 0x50 },
            HwOp::Write { reg: Reg::IntrMask, value: 0 },
            HwOp::Write { reg: Reg::Enable, value: 1 },
            HwOp::Touch { reg: Reg::EnableStatus },
        ]
    );
    assert!(x.is_active());
    assert!(!x.is_write_in_progress());
    assert_eq!(x.rx_outstanding(), 0);
}

#[test]
fn prepare_programs_a_ten_bit_target() {
    let mut x = MasterXfer::new();
    let ops = x.prepare(vec![I2cMsg::new(0x2a5, I2cMsgFlags::addr_ten(), vec![1])]);
    assert_eq!(ops[0], HwOp::Modify { reg: Reg::Con, mask: 1, shift: 4, value: 1 });
    assert_eq!(ops[1], HwOp::Write { reg: Reg::Tar, value: 0x12a5 });
}

#[test]
fn write_msgs_queues_a_write_with_stop_on_the_last_byte() {
    let mut x = MasterXfer::new();
    x.prepare(vec![I2cMsg::new(0x50, I2cMsgFlags::empty(), vec![7, 9])]);
    let out = x.write_msgs(&cfg(8), 0, 0);
    assert_eq!(out.cmds, vec![0x007, 0x209]);
    assert_eq!(out.intr_mask, 0x244);
    assert!(!x.is_write_in_progress());
}

#[test]
fn write_msgs_stops_when_the_transmit_fifo_is_full() {
    let mut x = MasterXfer::new();
    x.prepare(vec![I2cMsg::new(0x50, I2cMsgFlags::empty(), vec![1, 2, 3, 4, 5])]);
    // depth 4, one slot taken: three commands fit
    let out = x.write_msgs(&cfg(4), 1, 0);
    assert_eq!(out.cmds, vec![1, 2, 3]);
    assert_eq!(out.intr_mask, 0x254);
    assert!(x.is_write_in_progress());
    let out = x.write_msgs(&cfg(4), 0, 0);
    assert_eq!(out.cmds, vec![4, 0x205]);
    assert_eq!(out.intr_mask, 0x244);
    assert!(!x.is_write_in_progress());
}

#[test]
fn write_msgs_queues_nothing_into_a_full_fifo() {
    let mut x = MasterXfer::new();
    x.prepare(vec![I2cMsg::new(0x50, I2cMsgFlags::empty(), vec![1, 2])]);
    let out = x.write_msgs(&cfg(4), 4, 0);
    assert!(out.cmds.is_empty());
    assert_eq!(out.intr_mask, 0x254);
    assert!(x.is_write_in_progress());
    // a level above the depth counts as full
    let out = x.write_msgs(&cfg(4), 9, 0);
    assert!(out.cmds.is_empty());
    // so does a full receive FIFO
    let out = x.write_msgs(&cfg(4), 0, 4);
    assert!(out.cmds.is_empty());
}

#[test]
fn write_msgs_restarts_between_messages() {
    let mut x = MasterXfer::new();
    x.prepare(vec![
        I2cMsg::new(0x50, I2cMsgFlags::empty(), vec![0x10]),
        I2cMsg::new(0x50, read_flags(), vec![0; 2]),
    ]);
    let out = x.write_msgs(&cfg(8), 0, 0);
    // the register address, then two reads: restart on the first, stop on the last
    assert_eq!(out.cmds, vec![0x010, 0x500, 0x300]);
    assert_eq!(out.intr_mask, 0x244);
    assert_eq!(x.rx_outstanding(), 2);
}

#[test]
fn write_msgs_without_restart_enabled_sets_no_restart() {
    let mut x = MasterXfer::new();
    x.prepare(vec![
        I2cMsg::new(0x50, I2cMsgFlags::empty(), vec![0x10]),
        I2cMsg::new(0x50, read_flags(), vec![0; 1]),
    ]);
    let c = FifoConfig { restart_en: false, tx_fifo_depth: 8, rx_fifo_depth: 8 };
    let out = x.write_msgs(&c, 0, 0);
    assert_eq!(out.cmds, vec![0x010, 0x300]);
}

#[test]
fn write_msgs_never_has_more_reads_outstanding_than_the_fifo_holds() {
    let mut x = MasterXfer::new();
    x.prepare(vec![I2cMsg::new(0x50, read_flags(), vec![0; 6])]);
    let c = FifoConfig { restart_en: true, tx_fifo_depth: 16, rx_fifo_depth: 4 };
    let out = x.write_msgs(&c, 0, 0);
    assert_eq!(out.cmds, vec![0x100; 4]);
    assert_eq!(x.rx_outstanding(), 4);
    // nothing more while all four are outstanding
    let out = x.write_msgs(&c, 0, 0);
    assert!(out.cmds.is_empty());
    assert_eq!(x.rx_outstanding(), 4);
    let read = x.read_msgs(&vec![1, 2, 3, 4]);
    assert_eq!(read.taken, 4);
    assert_eq!(x.rx_outstanding(), 0);
    let out = x.write_msgs(&c, 0, 0);
    assert_eq!(out.cmds, vec![0x100, 0x300]);
    assert_eq!(out.intr_mask, 0x244);
}

#[test]
fn two_messages_to_different_addresses_fail_before_any_byte_is_queued() {
    let mut x = MasterXfer::new();
    x.prepare(vec![
        I2cMsg::new(0x50, I2cMsgFlags::empty(), vec![1, 2]),
        I2cMsg::new(0x51, I2cMsgFlags::empty(), vec![3]),
    ]);
    let out = x.irq_process(&cfg(8), &irq(0x10, vec![]));
    assert_eq!(out.result, TransferResult::Finish);
    assert!(data_cmds(&out.ops).is_empty());
    assert_eq!(out.ops, vec![HwOp::Write { reg: Reg::IntrMask, value: 0 }]);
    assert_eq!(x.exit().1, Err(Errno::InvalidArgs));
    assert!(!x.is_active());
}

#[test]
fn tx_empty_then_rx_full_then_stop_det_finishes_with_the_bytes() {
    let mut x = MasterXfer::new();
    x.prepare(vec![I2cMsg::new(0x50, read_flags(), vec![0; 4])]);

    let out = x.irq_process(&cfg(8), &irq(0x10, vec![]));
    assert_eq!(out.result, TransferResult::Continue);
    assert_eq!(data_cmds(&out.ops), vec![0x100, 0x100, 0x100, 0x300]);
    assert_eq!(out.ops.last(), Some(&HwOp::Write { reg: Reg::IntrMask, value: 0x244 }));
    assert_eq!(x.rx_outstanding(), 4);

    let out = x.irq_process(&cfg(8), &irq(0x04, vec![0xde, 0xad, 0xbe, 0xef]));
    assert_eq!(out.result, TransferResult::Continue);
    assert!(out.ops.is_empty());
    assert_eq!(x.rx_outstanding(), 0);

    let out = x.irq_process(&cfg(8), &irq(0x200, vec![]));
    assert_eq!(out.result, TransferResult::Finish);
    assert_eq!(out.ops, vec![HwOp::Touch { reg: Reg::ClrStopDet }]);

    assert_eq!(x.exit().1, Ok(()));
    assert_eq!(x.msgs()[0].data(), &vec![0xde, 0xad, 0xbe, 0xef]);
}

#[test]
fn stop_det_is_not_acknowledged_while_reads_are_outstanding() {
    let mut x = MasterXfer::new();
    x.prepare(vec![I2cMsg::new(0x50, read_flags(), vec![0; 2])]);
    x.irq_process(&cfg(8), &irq(0x10, vec![]));
    // stop detected, nothing received yet
    let out = x.irq_process(&cfg(8), &irq(0x200, vec![]));
    assert_eq!(out.result, TransferResult::Continue);
    assert!(out.ops.is_empty());
    // stop detected together with a full receive FIFO
    let out = x.irq_process(&cfg(8), &irq(0x204, vec![5, 6]));
    assert_eq!(out.result, TransferResult::Finish);
    assert_eq!(out.ops, vec![HwOp::Touch { reg: Reg::ClrStopDet }]);
    assert_eq!(x.exit().1, Ok(()));
}

#[test]
fn abort_with_address_noack_gives_io() {
    let mut x = MasterXfer::new();
    x.prepare(vec![I2cMsg::new(0x50, I2cMsgFlags::empty(), vec![1])]);
    let ev = IrqEvent { stat: 0x40, abort_source: 0x1, rx: vec![], tx_level: 0, rx_level: 0 };
    let out = x.irq_process(&cfg(8), &ev);
    assert_eq!(out.result, TransferResult::Abort);
    assert_eq!(out.ops, vec![HwOp::Touch { reg: Reg::ClrTxAbrt }]);
    assert_eq!(x.rx_outstanding(), 0);
    assert_eq!(x.handle_tx_abort(), Err(Errno::Io));
    assert_eq!(x.exit().1, Err(Errno::Io));
}

#[test]
fn abort_with_arbitration_lost_gives_again() {
    let mut x = MasterXfer::new();
    x.prepare(vec![I2cMsg::new(0x50, I2cMsgFlags::empty(), vec![1])]);
    let ev = IrqEvent { stat: 0x40, abort_source: 0x1000, rx: vec![], tx_level: 0, rx_level: 0 };
    assert_eq!(x.irq_process(&cfg(8), &ev).result, TransferResult::Abort);
    assert_eq!(x.exit().1, Err(Errno::Again));
}

#[test]
fn abort_sources_map_to_errors() {
    let cases: Vec<(u32, Errno)> = vec![
        (0x0000_0002, Errno::Io),
        (0x0000_0004, Errno::Io),
        (0x0000_0008, Errno::Io),
        (0x0000_0010, Errno::Io),
        (0x0000_0020, Errno::InvalidArgs),
        (0x0000_1020, Errno::Again),
        (0x0000_1001, Errno::Io),
        (0x0000_0800, Errno::Io),
        (0x0000_0000, Errno::Io),
    ];
    for (source, expected) in cases {
        let mut x = MasterXfer::new();
        x.prepare(vec![I2cMsg::new(0x50, I2cMsgFlags::empty(), vec![1])]);
        let ev = IrqEvent { stat: 0x40, abort_source: source, rx: vec![], tx_level: 0, rx_level: 0 };
        x.irq_process(&cfg(8), &ev);
        assert_eq!(x.exit().1, Err(expected));
    }
}

#[test]
fn abort_source_is_kept_only_with_an_abort() {
    let mut x = MasterXfer::new();
    x.prepare(vec![I2cMsg::new(0x50, I2cMsgFlags::empty(), vec![1])]);
    // no abort reported: the source register is not kept
    let ev = IrqEvent { stat: 0x200, abort_source: 0x1000, rx: vec![], tx_level: 0, rx_level: 0 };
    let out = x.irq_process(&cfg(8), &ev);
    assert_eq!(out.result, TransferResult::Finish);
    // nothing was left in the middle, so the transaction closes without error
    assert_eq!(x.exit().1, Ok(()));
}

#[test]
fn interrupt_without_a_transaction_is_unexpected() {
    let mut x = MasterXfer::new();
    let out = x.irq_process(&cfg(8), &irq(0x10 | 0x01, vec![]));
    assert_eq!(out.result, TransferResult::UnexpectedInterrupt);
    assert_eq!(out.ops, vec![HwOp::Touch { reg: Reg::ClrRxUnder }]);
}

#[test]
fn exit_reports_a_write_still_in_progress() {
    let mut x = MasterXfer::new();
    x.prepare(vec![I2cMsg::new(0x50, I2cMsgFlags::empty(), vec![1, 2, 3])]);
    x.write_msgs(&cfg(2), 0, 0);
    assert!(x.is_write_in_progress());
    assert_eq!(x.exit().1, Err(Errno::Io));
    assert!(!x.is_active());
}

#[test]
fn smbus_block_read_waits_for_its_length() {
    let flags = read_flags().union(I2cMsgFlags::master_recv_len());
    let mut x = MasterXfer::new();
    x.prepare(vec![I2cMsg::new(0x50, flags, vec![0])]);

    let out = x.irq_process(&cfg(8), &irq(0x10, vec![]));
    // one read for the length byte, no stop, TX_EMPTY masked
    assert_eq!(data_cmds(&out.ops), vec![0x100]);
    assert_eq!(out.ops.last(), Some(&HwOp::Write { reg: Reg::IntrMask, value: 0x244 }));
    assert!(x.is_write_in_progress());

    let out = x.irq_process(&cfg(8), &irq(0x04, vec![3]));
    assert_eq!(out.result, TransferResult::Continue);
    assert_eq!(
        out.ops,
        vec![HwOp::Modify { reg: Reg::IntrMask, mask: 1, shift: 4, value: 1 }]
    );
    assert_eq!(x.rx_outstanding(), 0);

    let out = x.irq_process(&cfg(8), &irq(0x10, vec![]));
    // three more reads, the last with a stop
    assert_eq!(data_cmds(&out.ops), vec![0x100, 0x100, 0x300]);
    assert_eq!(x.rx_outstanding(), 3);

    let out = x.irq_process(&cfg(8), &irq(0x204, vec![0x11, 0x22, 0x33]));
    assert_eq!(out.result, TransferResult::Finish);
    assert_eq!(x.exit().1, Ok(()));
    assert_eq!(x.msgs()[0].data(), &vec![3, 0x11, 0x22, 0x33]);
}

#[test]
fn smbus_block_read_with_an_invalid_length_reads_one_byte() {
    let flags = read_flags().union(I2cMsgFlags::master_recv_len());
    for bad in [0u8, 33, 255] {
        let mut x = MasterXfer::new();
        x.prepare(vec![I2cMsg::new(0x50, flags, vec![0])]);
        x.irq_process(&cfg(8), &irq(0x10, vec![]));
        x.irq_process(&cfg(8), &irq(0x04, vec![bad]));
        let out = x.irq_process(&cfg(8), &irq(0x10, vec![]));
        assert_eq!(data_cmds(&out.ops), vec![0x300]);
        x.irq_process(&cfg(8), &irq(0x204, vec![0x77]));
        assert_eq!(x.msgs()[0].data(), &vec![1, 0x77]);
    }
}

#[test]
fn read_msgs_passes_over_writes_and_fills_reads_in_order() {
    let mut x = MasterXfer::new();
    x.prepare(vec![
        I2cMsg::new(0x50, I2cMsgFlags::empty(), vec![9]),
        I2cMsg::new(0x50, read_flags(), vec![0; 2]),
        I2cMsg::new(0x50, read_flags(), vec![0; 2]),
    ]);
    x.write_msgs(&cfg(8), 0, 0);
    assert_eq!(x.rx_outstanding(), 4);
    let read = x.read_msgs(&vec![1, 2, 3]);
    assert_eq!(read.taken, 3);
    assert!(!read.length_known);
    assert_eq!(x.msgs()[1].data(), &vec![1, 2]);
    assert_eq!(x.msgs()[2].data(), &vec![3]);
    let read = x.read_msgs(&vec![4, 5]);
    // one byte was expected: the second stays
    assert_eq!(read.taken, 1);
    assert_eq!(x.msgs()[2].data(), &vec![3, 4]);
    assert_eq!(x.rx_outstanding(), 0);
}

#[test]
fn read_msgs_takes_no_byte_without_an_outstanding_read() {
    let mut x = MasterXfer::new();
    x.prepare(vec![I2cMsg::new(0x50, read_flags(), vec![0; 2])]);
    let read = x.read_msgs(&vec![1, 2]);
    assert_eq!(read.taken, 0);
    assert!(x.msgs()[0].data().is_empty());
}

#[test]
fn take_msgs_hands_the_messages_out() {
    let mut x = MasterXfer::new();
    x.prepare(vec![I2cMsg::new(0x50, I2cMsgFlags::empty(), vec![1])]);
    let msgs = x.take_msgs();
    assert_eq!(msgs.len(), 1);
    assert!(x.msgs().is_empty());
}

#[test]
fn transaction_stays_active_from_prepare_to_exit() {
    let mut x = MasterXfer::new();
    assert!(!x.is_active());
    x.prepare(vec![I2cMsg::new(0x50, I2cMsgFlags::empty(), vec![1, 2, 3])]);
    assert!(x.is_active());
    x.irq_process(&cfg(2), &irq(0x10, vec![]));
    assert!(x.is_active());
    assert!(x.is_write_in_progress());
    let ev = IrqEvent { stat: 0x40, abort_source: 0x8, rx: vec![], tx_level: 0, rx_level: 0 };
    assert_eq!(x.irq_process(&cfg(2), &ev).result, TransferResult::Abort);
    assert!(x.is_active());
    assert!(!x.is_write_in_progress());
    assert_eq!(x.exit().1, Err(Errno::Io));
    assert!(!x.is_active());
    assert!(x.is_empty_status());
}

#[test]
fn exit_switches_the_controller_off_at_once() {
    let mut x = MasterXfer::new();
    x.prepare(vec![I2cMsg::new(0x50, I2cMsgFlags::empty(), vec![1])]);
    let (ops, result) = x.exit();
    assert_eq!(ops, vec![HwOp::Write { reg: Reg::Enable, value: 0 }]);
    assert_eq!(result, Ok(()));
    // a transaction that failed is closed in the same way
    let mut x = MasterXfer::new();
    x.prepare(vec![I2cMsg::new(0x50, I2cMsgFlags::empty(), vec![1])]);
    let ev = IrqEvent { stat: 0x40, abort_source: 0x1, rx: vec![], tx_level: 0, rx_level: 0 };
    x.irq_process(&cfg(8), &ev);
    let (ops, result) = x.exit();
    assert_eq!(ops, vec![HwOp::Write { reg: Reg::Enable, value: 0 }]);
    assert_eq!(result, Err(Errno::Io));
    assert!(!x.is_active());
}

#[test]
fn default_state_has_no_messages() {
    let x = MasterXfer::default();
    assert!(x.msgs().is_empty());
    assert!(!x.is_active());
    assert_eq!(x.rx_outstanding(), 0);
}

#[test]
fn rx_demand_is_what_is_outstanding_when_bytes_are_read() {
    let mut x = MasterXfer::new();
    // no transaction: nothing is wanted
    assert_eq!(x.rx_demand(0x04), 0);
    x.prepare(vec![I2cMsg::new(0x50, read_flags(), vec![0; 3])]);
    assert_eq!(x.rx_demand(0x04), 0);
    x.irq_process(&cfg(8), &irq(0x10, vec![]));
    assert_eq!(x.rx_demand(0x04), 3);
    // not without RX_FULL, and not with an abort
    assert_eq!(x.rx_demand(0x10), 0);
    assert_eq!(x.rx_demand(0x44), 0);
    let out = x.irq_process(&cfg(8), &irq(0x04, vec![1, 2]));
    assert_eq!(out.rx_taken, 2);
    assert_eq!(x.rx_demand(0x04), 1);
    // a byte too many is not stored, and the count says so
    let out = x.irq_process(&cfg(8), &irq(0x04, vec![3, 4]));
    assert_eq!(out.rx_taken, 1);
    assert_eq!(x.msgs()[0].data(), &vec![1, 2, 3]);
    let out = x.irq_process(&cfg(8), &irq(0x200, vec![9]));
    assert_eq!(out.rx_taken, 0);
}
