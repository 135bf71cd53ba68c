//! The state of one transaction and the steps that move it forward.

use crate::error::Errno;
use crate::flags::{DwI2cCmdErr, DwI2cStatus, I2cMsgFlags};
use crate::msg::{block_length, block_threshold, msg_views, msgs_wf, I2cMsg, MsgView};
use crate::controller::{captured_abort_source, intr_clear_ops, read_and_clean_intrbits};
use crate::registers::{
    bit, bit_is_set, data_cmd, lemma_single_bit_matches, make_data_cmd, make_tar,
    master_intr_mask, matches_any, reg_matches_any, tar_value, HwOp, Reg,
};
use crate::registers::{
    DW_IC_INTR_MASTER_MASK, DW_IC_INTR_MASTER_MASK_NO_TX_EMPTY, IC_CON_10BITADDR_MASTER,
    IC_INTR_RX_FULL, IC_INTR_STOP_DET, IC_INTR_TX_ABRT, IC_INTR_TX_EMPTY,
    IC_TX_ABRT_10ADDR1_NOACK, IC_TX_ABRT_10ADDR2_NOACK, IC_TX_ABRT_7B_ADDR_NOACK,
    IC_TX_ABRT_ARB_LOST, IC_TX_ABRT_GCALL_NOACK, IC_TX_ABRT_GCALL_READ,
    IC_TX_ABRT_TXDATA_NOACK,
};
use vstd::prelude::*;

verus! {

/// What the transfer steps need to know of the controller's configuration.
#[derive(Clone, Copy, Debug, PartialEq, Eq, Structural)]
pub struct FifoConfig {
    /// Restarts between messages are enabled in IC_CON.
    pub restart_en: bool,
    /// How many commands the transmit FIFO holds.
    pub tx_fifo_depth: u32,
    /// How many bytes the receive FIFO holds.
    pub rx_fifo_depth: u32,
}

/// The state of a transaction, as contracts see it.
pub struct XferView {
    /// The messages, each with what has been done of it.
    pub msgs: Seq<MsgView>,
    /// The hardware aborted the transmission.
    pub tx_abrt: bool,
    /// The first message that still expects bytes.
    pub read_idx: nat,
    /// The first message that still has commands to queue.
    pub write_idx: nat,
    /// The error that the driver itself found, if any.
    pub msg_err: Option<Errno>,
    /// The abort source register as it stood at the last interrupt.
    pub abort_source: u32,
    /// Read commands queued whose bytes have not been taken yet.
    pub rx_outstanding: nat,
    /// A transaction has been prepared and not yet closed.
    pub active: bool,
    /// The transmit side stopped in the middle of a message.
    pub write_in_progress: bool,
}

impl XferView {
    /// The cursors lie within the message list and every message is well formed.
    pub open spec fn wf(self) -> bool {
        &&& self.read_idx <= self.msgs.len()
        &&& self.write_idx <= self.msgs.len()
        &&& msgs_wf(self.msgs)
    }
}

/// `a - b`, or 0 where `b` is the larger.
pub open spec fn sat_sub(a: nat, b: nat) -> nat {
    if a >= b {
        (a - b) as nat
    } else {
        0
    }
}

/// The smaller of `a` and `b`.
pub open spec fn minimum(a: nat, b: nat) -> nat {
    if a <= b {
        a
    } else {
        b
    }
}

/// Every message names the target of the first.
pub open spec fn same_target(msgs: Seq<MsgView>) -> bool {
    forall|i: int| 0 <= i < msgs.len() ==> (#[trigger] msgs[i]).addr == msgs[0].addr
}

/// How many commands of `m` one pass queues: as many as the message has
/// left, the transmit FIFO has room for and, for a read, the receive FIFO can
/// take (`rx_limit` free slots now, `rx_room` once all outstanding reads have
/// come in). Nothing is queued while either FIFO is full.
pub open spec fn queue_count(m: MsgView, tx_limit: nat, rx_limit: nat, rx_room: nat) -> nat {
    if tx_limit == 0 || rx_limit == 0 {
        0
    } else if m.read {
        minimum(minimum(m.tx_remaining(), tx_limit), minimum(rx_limit, rx_room))
    } else {
        minimum(m.tx_remaining(), tx_limit)
    }
}

/// The `k`-th command that a pass queues of `m`. It asks for a stop where it
/// is the last command of the last message and the message's length is known,
/// and for a restart where it is the first of the pass and one is due.
pub open spec fn queued_cmd(m: MsgView, k: int, is_last: bool, need_restart: bool) -> u32 {
    data_cmd(
        is_last && !m.recv_len && m.tx_remaining() - k == 1,
        need_restart && k == 0,
        m.read,
        if m.read {
            0
        } else {
            m.data[m.sent + k]
        },
    )
}

/// The first `n` commands that a pass queues of `m`.
pub open spec fn queued_cmds(m: MsgView, n: nat, is_last: bool, need_restart: bool) -> Seq<u32> {
    Seq::new(n, |k: int| queued_cmd(m, k, is_last, need_restart))
}

/// Where a pass over the messages ends.
pub struct WriteRun {
    pub msgs: Seq<MsgView>,
    pub write_idx: nat,
    pub rx_outstanding: nat,
    pub write_in_progress: bool,
    /// The commands queued, in order.
    pub cmds: Seq<u32>,
    /// The pass stopped at a read whose length is not known yet.
    pub awaits_length: bool,
}

/// One pass over the messages from message `i` on. `tx_limit` is the room left
/// in the transmit FIFO, `rx_limit` the room in the receive FIFO as sampled
/// when the pass began.
///
/// Each message queues `queue_count` commands. A read whose length is not
/// known yet ends the pass, and so does a message that could not queue all
/// its commands; both leave `write_in_progress` set. A message that queued
/// them all hands over to the next, which starts with a restart where
/// restarts are enabled.
pub open spec fn write_run(
    msgs: Seq<MsgView>,
    i: nat,
    write_in_progress: bool,
    tx_limit: nat,
    rx_limit: nat,
    rx_outstanding: nat,
    cfg: FifoConfig,
) -> WriteRun
    decreases msgs.len() - i,
{
    if i >= msgs.len() {
        WriteRun {
            msgs,
            write_idx: i,
            rx_outstanding,
            write_in_progress,
            cmds: Seq::empty(),
            awaits_length: false,
        }
    } else {
        let m = msgs[i as int];
        let need_restart = cfg.restart_en && i > 0 && !write_in_progress;
        let n = queue_count(
            m,
            tx_limit,
            rx_limit,
            sat_sub(cfg.rx_fifo_depth as nat, rx_outstanding),
        );
        let cmds = queued_cmds(m, n, i == msgs.len() - 1, need_restart);
        let outstanding = if m.read {
            rx_outstanding + n
        } else {
            rx_outstanding
        };
        let queued = msgs.update(i as int, m.queued(n));
        if m.recv_len || !m.queued(n).send_end() {
            WriteRun {
                msgs: queued,
                write_idx: i,
                rx_outstanding: outstanding,
                write_in_progress: true,
                cmds,
                awaits_length: m.recv_len,
            }
        } else {
            let rest = write_run(
                queued,
                i + 1,
                false,
                (tx_limit - n) as nat,
                rx_limit,
                outstanding,
                cfg,
            );
            WriteRun { cmds: cmds + rest.cmds, ..rest }
        }
    }
}

/// What a pass over the messages hands back.
#[derive(Debug)]
pub struct WriteOut {
    /// The words to store in IC_DATA_CMD, in order.
    pub cmds: Vec<u32>,
    /// The value to store in IC_INTR_MASK afterwards.
    pub intr_mask: u32,
}

/// The state after `write_msgs`, the commands it queues and the interrupt
/// mask it sets.
///
/// Messages that name different targets queue nothing: the error is recorded
/// and every interrupt is masked. Otherwise the pass of `write_run` is made,
/// and TX_EMPTY is masked when the pass waits for a length byte or has
/// queued the last command.
pub open spec fn write_msgs_spec(x: XferView, cfg: FifoConfig, tx_level: u32, rx_level: u32) -> (
    XferView,
    Seq<u32>,
    u32,
) {
    if !same_target(x.msgs) {
        (XferView { msg_err: Some(Errno::InvalidArgs), ..x }, Seq::empty(), 0u32)
    } else {
        let run = write_run(
            x.msgs,
            x.write_idx,
            x.write_in_progress,
            sat_sub(cfg.tx_fifo_depth as nat, tx_level as nat),
            sat_sub(cfg.rx_fifo_depth as nat, rx_level as nat),
            x.rx_outstanding,
            cfg,
        );
        (
            XferView {
                msgs: run.msgs,
                write_idx: run.write_idx,
                rx_outstanding: run.rx_outstanding,
                write_in_progress: run.write_in_progress,
                ..x
            },
            run.cmds,
            if x.msg_err.is_some() {
                0u32
            } else if run.awaits_length || run.write_idx == run.msgs.len() {
                DW_IC_INTR_MASTER_MASK_NO_TX_EMPTY
            } else {
                DW_IC_INTR_MASTER_MASK
            },
        )
    }
}

/// How many bytes a read takes of `avail` bytes in the receive FIFO, the
/// first of them `first`: as many as are there, as read commands are
/// outstanding, and as the message still expects. A length-first read expects
/// what its length byte says.
pub open spec fn take_count(m: MsgView, avail: nat, outstanding: nat, first: u8) -> nat {
    if m.receive_end() {
        0
    } else {
        let threshold = if m.recv_len && avail > 0 && outstanding > 0 {
            block_threshold(first, m.pec)
        } else {
            m.threshold
        };
        minimum(minimum(avail, outstanding), (threshold - m.data.len()) as nat)
    }
}

/// A read after it took `bytes` from the receive FIFO while `outstanding`
/// read commands were outstanding. A length-first read settles its length
/// from the first byte and stores the length it settled on.
pub open spec fn taken_msg(m: MsgView, bytes: Seq<u8>, outstanding: nat) -> MsgView {
    if bytes.len() == 0 {
        m
    } else if m.recv_len {
        m.with_block_length(bytes[0], outstanding).received(
            seq![block_length(bytes[0])] + bytes.skip(1),
        )
    } else {
        m.received(bytes)
    }
}

/// Where a pass over the receive FIFO ends.
pub struct ReadRun {
    pub msgs: Seq<MsgView>,
    pub read_idx: nat,
    pub rx_outstanding: nat,
    /// How many bytes were taken from the receive FIFO.
    pub taken: nat,
    /// A length byte was among them.
    pub length_known: bool,
}

/// One pass over the messages from message `i` on, with `rx` the bytes in the
/// receive FIFO. Writes are passed over. Each read takes `take_count` bytes,
/// one outstanding read command going with each; a read that still expects
/// bytes ends the pass, a read that has them all hands the rest to the next.
pub open spec fn read_run(msgs: Seq<MsgView>, i: nat, rx: Seq<u8>, rx_outstanding: nat) -> ReadRun
    decreases msgs.len() - i,
{
    if i >= msgs.len() {
        ReadRun { msgs, read_idx: i, rx_outstanding, taken: 0, length_known: false }
    } else if !msgs[i as int].read {
        read_run(msgs, i + 1, rx, rx_outstanding)
    } else {
        let m = msgs[i as int];
        let c = take_count(m, rx.len(), rx_outstanding, rx[0]);
        let taken = taken_msg(m, rx.take(c as int), rx_outstanding);
        let outstanding = (rx_outstanding - c) as nat;
        if !taken.receive_end() {
            ReadRun {
                msgs: msgs.update(i as int, taken),
                read_idx: i,
                rx_outstanding: outstanding,
                taken: c,
                length_known: m.recv_len && c > 0,
            }
        } else {
            let rest = read_run(msgs.update(i as int, taken), i + 1, rx.skip(c as int), outstanding);
            ReadRun {
                taken: c + rest.taken,
                length_known: (m.recv_len && c > 0) || rest.length_known,
                ..rest
            }
        }
    }
}

/// The state after `read_msgs` took what it could of the bytes `rx`.
pub open spec fn read_msgs_spec(x: XferView, rx: Seq<u8>) -> XferView {
    let run = read_run(x.msgs, x.read_idx, rx, x.rx_outstanding);
    XferView { msgs: run.msgs, read_idx: run.read_idx, rx_outstanding: run.rx_outstanding, ..x }
}

/// What a pass over the receive FIFO hands back.
#[derive(Clone, Copy, Debug, PartialEq, Eq, Structural)]
pub struct ReadOut {
    /// How many of the bytes were taken.
    pub taken: usize,
    /// A length byte was among them: TX_EMPTY is to be unmasked again.
    pub length_known: bool,
}

/// The accesses that start a transaction to the target of `first`: the
/// addressing mode goes to IC_CON, the target to IC_TAR, every interrupt is
/// masked, the controller is enabled, and the enable status is read once
/// for its side effect.
pub open spec fn prepare_ops(first: MsgView) -> Seq<HwOp> {
    seq![
        HwOp::Modify {
            reg: Reg::Con,
            mask: 1,
            shift: IC_CON_10BITADDR_MASTER,
            value: if first.ten { 1u32 } else { 0u32 },
        },
        HwOp::Write { reg: Reg::Tar, value: tar_value(first.addr, first.ten) },
        HwOp::Write { reg: Reg::IntrMask, value: 0 },
        HwOp::Write { reg: Reg::Enable, value: 1 },
        HwOp::Touch { reg: Reg::EnableStatus },
    ]
}

/// The state that `prepare` leaves: the messages untouched, nothing
/// recorded, the transaction active.
pub open spec fn prepared(msgs: Seq<MsgView>) -> XferView {
    XferView {
        msgs,
        tx_abrt: false,
        read_idx: 0,
        write_idx: 0,
        msg_err: None,
        abort_source: 0,
        rx_outstanding: 0,
        active: true,
        write_in_progress: false,
    }
}

/// How an interrupt left the transaction.
#[derive(Clone, Copy, Debug, PartialEq, Eq, Structural)]
pub enum TransferResult {
    /// No transaction was active.
    UnexpectedInterrupt,
    /// The hardware aborted the transmission.
    Abort,
    /// The transaction is over.
    Finish,
    /// The transaction waits for the next interrupt.
    Continue,
}

/// What the interrupt handler read from the controller.
#[derive(Debug)]
pub struct IrqEvent {
    /// IC_INTR_STAT.
    pub stat: u32,
    /// IC_TX_ABRT_SOURCE, read before any interrupt was acknowledged.
    pub abort_source: u32,
    /// The bytes taken from the receive FIFO, in order: as many as it
    /// holds, and no more than `rx_demand` says.
    pub rx: Vec<u8>,
    /// IC_TXFLR.
    pub tx_level: u32,
    /// IC_RXFLR, read after the bytes of `rx` were taken.
    pub rx_level: u32,
}

/// What the interrupt handler is to do, and how the transaction stands.
#[derive(Debug)]
pub struct IrqOut {
    pub result: TransferResult,
    /// The register accesses to make, in order.
    pub ops: Vec<HwOp>,
    /// How many of the bytes handed in were stored in a message. A byte
    /// beyond these was expected by no message.
    pub rx_taken: usize,
}

/// The interrupt hands received bytes to the messages: a transaction is
/// active, no abort is reported, and RX_FULL is.
pub open spec fn irq_reads(x: XferView, stat: u32) -> bool {
    x.active && !bit(stat, IC_INTR_TX_ABRT) && bit(stat, IC_INTR_RX_FULL)
}

/// How many bytes an interrupt with status `stat` can store at most: as
/// many as reads are outstanding where it hands bytes to the messages, none
/// where it does not.
pub open spec fn rx_demand(x: XferView, stat: u32) -> nat {
    if irq_reads(x, stat) {
        x.rx_outstanding
    } else {
        0
    }
}

/// How many of the bytes `rx` an interrupt with status `stat` stores.
pub open spec fn irq_rx_taken(x: XferView, stat: u32, rx: Seq<u8>) -> nat {
    if irq_reads(x, stat) {
        read_run(x.msgs, x.read_idx, rx, x.rx_outstanding).taken
    } else {
        0
    }
}

/// The stores that queue `cmds` and then set the interrupt mask.
pub open spec fn write_ops(cmds: Seq<u32>, intr_mask: u32) -> Seq<HwOp> {
    Seq::new(cmds.len(), |i: int| HwOp::Write { reg: Reg::DataCmd, value: cmds[i] }).push(
        HwOp::Write { reg: Reg::IntrMask, value: intr_mask },
    )
}

/// The access that unmasks TX_EMPTY and leaves the rest of the mask as it is.
pub open spec fn unmask_tx_empty_op() -> HwOp {
    HwOp::Modify { reg: Reg::IntrMask, mask: 1, shift: IC_INTR_TX_EMPTY, value: 1 }
}

/// What one interrupt does to a transaction: the state after it, the result
/// and the register accesses.
///
/// The conditions reported are acknowledged first and the abort source is
/// kept. Without an active transaction nothing else happens. An abort is
/// recorded and leaves no read outstanding and no message in the middle. Otherwise
/// RX_FULL hands the received bytes to the messages, TX_EMPTY queues
/// commands, and the transaction is finished when a stop was detected or
/// an error is recorded, and no read is outstanding.
pub open spec fn irq_process_spec(
    x: XferView,
    cfg: FifoConfig,
    stat: u32,
    abort_source: u32,
    rx: Seq<u8>,
    tx_level: u32,
    rx_level: u32,
) -> (XferView, TransferResult, Seq<HwOp>) {
    let clears = intr_clear_ops(stat, x.rx_outstanding);
    let x1 = XferView { abort_source: captured_abort_source(stat, abort_source), ..x };
    if !x.active {
        (x1, TransferResult::UnexpectedInterrupt, clears)
    } else if bit(stat, IC_INTR_TX_ABRT) {
        (
            XferView { tx_abrt: true, write_in_progress: false, rx_outstanding: 0, ..x1 },
            TransferResult::Abort,
            clears,
        )
    } else {
        let rx_full = bit(stat, IC_INTR_RX_FULL);
        let tx_empty = bit(stat, IC_INTR_TX_EMPTY);
        let x2 = if rx_full {
            read_msgs_spec(x1, rx)
        } else {
            x1
        };
        let unmask = if rx_full && read_run(x.msgs, x.read_idx, rx, x.rx_outstanding).length_known {
            seq![unmask_tx_empty_op()]
        } else {
            Seq::empty()
        };
        let w = write_msgs_spec(x2, cfg, tx_level, rx_level);
        let x3 = if tx_empty {
            w.0
        } else {
            x2
        };
        let queue = if tx_empty {
            write_ops(w.1, w.2)
        } else {
            Seq::empty()
        };
        (
            x3,
            if (bit(stat, IC_INTR_STOP_DET) || x3.msg_err.is_some()) && x3.rx_outstanding == 0 {
                TransferResult::Finish
            } else {
                TransferResult::Continue
            },
            clears + unmask + queue,
        )
    }
}

/// The abort sources that report a missing acknowledge, each as an
/// unshifted mask, an offset and a value.
pub open spec fn noack_fields() -> Seq<(u32, u32, u32)> {
    seq![
        (1u32, IC_TX_ABRT_7B_ADDR_NOACK, 1u32),
        (1u32, IC_TX_ABRT_10ADDR1_NOACK, 1u32),
        (1u32, IC_TX_ABRT_10ADDR2_NOACK, 1u32),
        (1u32, IC_TX_ABRT_TXDATA_NOACK, 1u32),
        (1u32, IC_TX_ABRT_GCALL_NOACK, 1u32),
    ]
}

/// The abort source reports a missing acknowledge: of a 7-bit address, of
/// either half of a 10-bit address, of a data byte or of a general call.
pub open spec fn abort_noack(source: u32) -> bool {
    ||| bit(source, IC_TX_ABRT_7B_ADDR_NOACK)
    ||| bit(source, IC_TX_ABRT_10ADDR1_NOACK)
    ||| bit(source, IC_TX_ABRT_10ADDR2_NOACK)
    ||| bit(source, IC_TX_ABRT_TXDATA_NOACK)
    ||| bit(source, IC_TX_ABRT_GCALL_NOACK)
}

/// The error that an abort with the given source stands for.
pub open spec fn abort_error(source: u32) -> Errno {
    if abort_noack(source) {
        Errno::Io
    } else if bit(source, IC_TX_ABRT_ARB_LOST) {
        Errno::Again
    } else if bit(source, IC_TX_ABRT_GCALL_READ) {
        Errno::InvalidArgs
    } else {
        Errno::Io
    }
}

/// The store that switches the controller off at once, without waiting
/// for it to confirm.
pub open spec fn exit_ops() -> Seq<HwOp> {
    seq![HwOp::Write { reg: Reg::Enable, value: 0 }]
}

/// What a transaction in state `x` comes to when it is closed: the error the
/// driver recorded; else the error of a recorded abort; else an I/O error
/// where the transmit side is still in the middle of a message; else success.
pub open spec fn exit_result(x: XferView) -> Result<(), Errno> {
    if let Some(e) = x.msg_err {
        Err(e)
    } else if x.tx_abrt {
        Err(abort_error(x.abort_source))
    } else if x.write_in_progress {
        Err(Errno::Io)
    } else {
        Ok(())
    }
}

/// The state of one transaction.
#[derive(Debug)]
pub struct MasterXfer {
    msgs: Vec<I2cMsg>,
    cmd_err: DwI2cCmdErr,
    msg_read_idx: usize,
    msg_write_idx: usize,
    msg_err: Result<(), Errno>,
    abort_source: u32,
    rx_outstanding: u32,
    status: DwI2cStatus,
}

impl View for MasterXfer {
    type V = XferView;

    closed spec fn view(&self) -> XferView {
        XferView {
            msgs: msg_views(self.msgs@),
            tx_abrt: self.cmd_err.tx_abrt(),
            read_idx: self.msg_read_idx as nat,
            write_idx: self.msg_write_idx as nat,
            msg_err: match self.msg_err {
                Ok(_) => None,
                Err(e) => Some(e),
            },
            abort_source: self.abort_source,
            rx_outstanding: self.rx_outstanding as nat,
            active: self.status.active(),
            write_in_progress: self.status.write_in_progress(),
        }
    }
}

fn sub_or_zero(a: u32, b: u32) -> (r: u32)
    ensures
        r == sat_sub(a as nat, b as nat),
{
    if a >= b {
        a - b
    } else {
        0
    }
}

/// Queues what one pass can of `msg` and appends the commands to `cmds`.
fn queue_msg(
    msg: &mut I2cMsg,
    is_last: bool,
    need_restart: bool,
    tx_limit: u32,
    rx_limit: u32,
    rx_room: u32,
    cmds: &mut Vec<u32>,
) -> (n: u32)
    requires
        old(msg).wf(),
    ensures
        final(msg).wf(),
        n == queue_count(old(msg)@, tx_limit as nat, rx_limit as nat, rx_room as nat),
        final(msg)@ == old(msg)@.queued(n as nat),
        final(cmds)@ == old(cmds)@ + queued_cmds(old(msg)@, n as nat, is_last, need_restart),
{
    let read = msg.is_read();
    let recv_len = msg.is_recv_len();
    let remaining = msg.tx_remaining();
    let mut count: u32 = if remaining > tx_limit as usize {
        tx_limit
    } else {
        remaining as u32
    };
    if read {
        let rx: u32 = if rx_limit <= rx_room {
            rx_limit
        } else {
            rx_room
        };
        if rx < count {
            count = rx;
        }
    }
    if tx_limit == 0 || rx_limit == 0 {
        count = 0;
    }
    let mut k: u32 = 0;
    while k < count
        invariant
            k <= count,
            count <= old(msg)@.tx_remaining(),
            msg.wf(),
            msg@ == old(msg)@.queued(k as nat),
            read == old(msg)@.read,
            recv_len == old(msg)@.recv_len,
            old(msg).wf(),
            cmds@ == old(cmds)@ + queued_cmds(old(msg)@, k as nat, is_last, need_restart),
        decreases count - k,
    {
        let stop = is_last && !recv_len && msg.send_left_last();
        let restart = need_restart && k == 0;
        let cmd = if read {
            msg.inc_receive_cmd_cnt();
            make_data_cmd(stop, restart, true, 0)
        } else {
            let b = msg.pop_front_byte();
            make_data_cmd(stop, restart, false, b)
        };
        assert(cmd == queued_cmd(old(msg)@, k as int, is_last, need_restart));
        cmds.push(cmd);
        k = k + 1;
        assert(cmds@ =~= old(cmds)@ + queued_cmds(old(msg)@, k as nat, is_last, need_restart));
    }
    assert(cmds@ =~= old(cmds)@ + queued_cmds(old(msg)@, count as nat, is_last, need_restart));
    count
}

/// Takes what `msg` can of the bytes of `rx` from `pos` on.
impl Default for MasterXfer {
    /// A state with no messages.
    fn default() -> (x: Self)
        ensures
            x.wf(),
            MasterXfer::fresh(x@, Seq::empty()),
    {
        MasterXfer::new()
    }
}

#[verifier::spinoff_prover]
#[verifier::rlimit(40)]
fn take_msg(msg: &mut I2cMsg, rx: &Vec<u8>, pos: usize, outstanding: u32) -> (c: usize)
    requires
        old(msg).wf(),
        old(msg)@.read,
        pos <= rx.len(),
    ensures
        final(msg).wf(),
        c == take_count(
            old(msg)@,
            (rx.len() - pos) as nat,
            outstanding as nat,
            rx@.skip(pos as int)[0],
        ),
        pos + c <= rx.len(),
        c <= outstanding,
        final(msg)@ == taken_msg(
            old(msg)@,
            rx@.subrange(pos as int, pos + c),
            outstanding as nat,
        ),
{
    let avail = rx.len() - pos;
    let ghost m0 = msg@;
    let ghost first = rx@.skip(pos as int)[0];
    let mut c: usize = 0;
    while c < avail && c < outstanding as usize && !msg.receive_end()
        invariant
            old(msg)@ == m0,
            m0.wf(),
            m0.read,
            msg.wf(),
            msg@.read,
            avail == rx.len() - pos,
            pos <= rx.len(),
            c <= avail,
            c <= outstanding,
            first == rx@.skip(pos as int)[0],
            c > 0 ==> !msg@.recv_len,
            c > 0 ==> !m0.receive_end(),
            c <= take_count(m0, avail as nat, outstanding as nat, first) || m0.receive_end(),
            msg@ == taken_msg(m0, rx@.subrange(pos as int, pos + c), outstanding as nat),
            msg@.receive_end() && c > 0 ==> c == take_count(
                m0,
                avail as nat,
                outstanding as nat,
                first,
            ),
        decreases avail - c,
    {
        let ghost before = msg@;
        let mut byte = rx[pos + c];
        if msg.is_recv_len() {
            byte = msg.set_block_length(byte, outstanding as usize);
        }
        msg.push_byte(byte);
        proof {
            let old_bytes = rx@.subrange(pos as int, pos + c);
            let new_bytes = rx@.subrange(pos as int, pos + c + 1);
            assert(new_bytes =~= old_bytes.push(rx@[pos + c]));
            let target = taken_msg(m0, new_bytes, outstanding as nat);
            if c == 0 {
                assert(old_bytes.len() == 0);
                assert(m0 == before);
                assert(new_bytes =~= seq![rx@[pos as int]]);
                if m0.recv_len {
                    assert(new_bytes[0] == first);
                    assert(seq![block_length(new_bytes[0])] + new_bytes.skip(1) =~= seq![byte]);
                    assert(msg@ == target);
                } else {
                    assert(msg@ == target);
                }
            } else {
                if m0.recv_len {
                    assert(old_bytes[0] == new_bytes[0]);
                    assert(seq![block_length(new_bytes[0])] + new_bytes.skip(1) =~= (seq![
                        block_length(old_bytes[0]),
                    ] + old_bytes.skip(1)).push(byte));
                    assert(msg@.data =~= m0.data + (seq![block_length(new_bytes[0])]
                        + new_bytes.skip(1)));
                    assert(msg@ == target);
                } else {
                    assert(msg@.data =~= m0.data + new_bytes);
                    assert(msg@ == target);
                }
            }
        }
        c = c + 1;
    }
    c
}

impl MasterXfer {
    /// The cursors lie within the message list, every message is well
    /// formed, and no status flag is set that the driver does not use.
    pub open spec fn wf(&self) -> bool {
        &&& self@.wf()
        &&& self.status_known()
    }

    /// No status flag is set that the driver does not use.
    pub closed spec fn status_known(&self) -> bool {
        !self.status.read_in_progress()
    }

    /// The state has nothing queued and nothing recorded.
    pub open spec fn fresh(x: XferView, msgs: Seq<MsgView>) -> bool {
        x == (XferView {
            msgs,
            tx_abrt: false,
            read_idx: 0,
            write_idx: 0,
            msg_err: None,
            abort_source: 0,
            rx_outstanding: 0,
            active: false,
            write_in_progress: false,
        })
    }

    /// A state with no messages.
    pub fn new() -> (x: Self)
        ensures
            x.wf(),
            Self::fresh(x@, Seq::empty()),
    {
        let x = MasterXfer {
            msgs: Vec::new(),
            cmd_err: DwI2cCmdErr::empty(),
            msg_read_idx: 0,
            msg_write_idx: 0,
            msg_err: Ok(()),
            abort_source: 0,
            rx_outstanding: 0,
            status: DwI2cStatus::empty(),
        };
        assert(x@.msgs =~= Seq::empty());
        x
    }

    /// Takes a new list of messages and forgets everything else.
    pub fn init(&mut self, msgs: Vec<I2cMsg>)
        requires
            msgs_wf(msg_views(msgs@)),
        ensures
            final(self).wf(),
            Self::fresh(final(self)@, msg_views(msgs@)),
    {
        self.msgs = msgs;
        self.cmd_err = DwI2cCmdErr::empty();
        self.msg_read_idx = 0;
        self.msg_write_idx = 0;
        self.msg_err = Ok(());
        self.abort_source = 0;
        self.rx_outstanding = 0;
        self.status = DwI2cStatus::empty();
    }

    /// The messages, each with what has been sent and received of it.
    pub fn msgs(&self) -> (r: &Vec<I2cMsg>)
        ensures
            msg_views(r@) == self@.msgs,
    {
        &self.msgs
    }

    /// Hands the messages out and leaves the state without any.
    pub fn take_msgs(&mut self) -> (r: Vec<I2cMsg>)
        requires
            old(self).wf(),
        ensures
            final(self).wf(),
            msg_views(r@) == old(self)@.msgs,
            final(self)@ == (XferView { msgs: Seq::empty(), read_idx: 0, write_idx: 0, ..old(self)@ }),
    {
        let mut out: Vec<I2cMsg> = Vec::new();
        std::mem::swap(&mut self.msgs, &mut out);
        self.msg_read_idx = 0;
        self.msg_write_idx = 0;
        assert(self@.msgs =~= Seq::empty());
        out
    }

    /// Whether no status flag is set.
    pub fn is_empty_status(&self) -> (r: bool)
        requires
            self.wf(),
        ensures
            r == (!self@.active && !self@.write_in_progress),
    {
        self.status.is_empty()
    }

    pub fn clear_active(&mut self)
        requires
            old(self).wf(),
        ensures
            final(self).wf(),
            final(self)@ == (XferView { active: false, ..old(self)@ }),
    {
        self.status.set_active(false);
    }

    pub fn set_active(&mut self)
        requires
            old(self).wf(),
        ensures
            final(self).wf(),
            final(self)@ == (XferView { active: true, ..old(self)@ }),
    {
        self.status.set_active(true);
    }

    pub fn is_active(&self) -> (r: bool)
        ensures
            r == self@.active,
    {
        self.status.is_active()
    }

    pub fn is_write_in_progress(&self) -> (r: bool)
        ensures
            r == self@.write_in_progress,
    {
        self.status.is_write_in_progress()
    }

    pub fn set_write_in_progress(&mut self, set: bool)
        requires
            old(self).wf(),
        ensures
            final(self).wf(),
            final(self)@ == (XferView { write_in_progress: set, ..old(self)@ }),
    {
        self.status.set_write_in_progress(set);
    }

    /// Read commands queued whose bytes have not been taken yet.
    pub fn rx_outstanding(&self) -> (r: u32)
        ensures
            r == self@.rx_outstanding,
    {
        self.rx_outstanding
    }

    /// Whether every message names the target of the first.
    pub fn same_target(&self) -> (r: bool)
        ensures
            r == same_target(self@.msgs),
    {
        let n = self.msgs.len();
        let mut i: usize = 0;
        while i < n
            invariant
                n == self.msgs.len(),
                i <= n,
                forall|j: int| 0 <= j < i ==> (#[trigger] self@.msgs[j]).addr == self@.msgs[0].addr,
            decreases n - i,
        {
            if self.msgs[i].addr() != self.msgs[0].addr() {
                assert(self@.msgs[i as int].addr != self@.msgs[0].addr);
                return false;
            }
            i = i + 1;
        }
        true
    }

    /// Runs on TX_EMPTY: queues what the FIFOs can take of the messages not
    /// yet sent. `tx_level` and `rx_level` are the fill levels of the two
    /// FIFOs as read when the interrupt was taken.
    #[verifier::spinoff_prover]
    #[verifier::rlimit(40)]
    pub fn write_msgs(&mut self, cfg: &FifoConfig, tx_level: u32, rx_level: u32) -> (out: WriteOut)
        requires
            old(self).wf(),
        ensures
            final(self).wf(),
            final(self)@ == write_msgs_spec(old(self)@, *cfg, tx_level, rx_level).0,
            out.cmds@ == write_msgs_spec(old(self)@, *cfg, tx_level, rx_level).1,
            out.intr_mask == write_msgs_spec(old(self)@, *cfg, tx_level, rx_level).2,
    {
        let mut cmds: Vec<u32> = Vec::new();
        if !self.same_target() {
            self.msg_err = Err(Errno::InvalidArgs);
            return WriteOut { cmds, intr_mask: 0 };
        }
        let n_msgs = self.msgs.len();
        let tx_limit0 = sub_or_zero(cfg.tx_fifo_depth, tx_level);
        let rx_limit = sub_or_zero(cfg.rx_fifo_depth, rx_level);
        let mut tx_limit = tx_limit0;
        let mut stopped = false;
        let mut awaits_length = false;
        let ghost x0 = self@;
        let ghost run0 = write_run(
            x0.msgs,
            x0.write_idx,
            x0.write_in_progress,
            tx_limit0 as nat,
            rx_limit as nat,
            x0.rx_outstanding,
            *cfg,
        );
        while !stopped && self.msg_write_idx < n_msgs
            invariant
                self.wf(),
                n_msgs == self.msgs.len(),
                self@.msgs.len() == x0.msgs.len(),
                self@.tx_abrt == x0.tx_abrt,
                self@.read_idx == x0.read_idx,
                self@.msg_err == x0.msg_err,
                self@.abort_source == x0.abort_source,
                self@.active == x0.active,
                !stopped ==> !awaits_length,
                ({
                    let t = write_tail(
                        self@,
                        tx_limit as nat,
                        rx_limit as nat,
                        *cfg,
                        stopped,
                        awaits_length,
                    );
                    &&& run0.msgs == t.msgs
                    &&& run0.write_idx == t.write_idx
                    &&& run0.rx_outstanding == t.rx_outstanding
                    &&& run0.write_in_progress == t.write_in_progress
                    &&& run0.awaits_length == t.awaits_length
                    &&& run0.cmds == cmds@ + t.cmds
                }),
            decreases n_msgs - self.msg_write_idx + (if stopped { 0int } else { 1int }),
        {
            let idx = self.msg_write_idx;
            let need_restart = cfg.restart_en && idx > 0 && !self.status.is_write_in_progress();
            let is_last = idx == n_msgs - 1;
            let rx_room = sub_or_zero(cfg.rx_fifo_depth, self.rx_outstanding);
            let ghost before = self@;
            let ghost cmds_before = cmds@;
            let msg = &mut self.msgs[idx];
            let read = msg.is_read();
            let recv_len = msg.is_recv_len();
            let n = queue_msg(msg, is_last, need_restart, tx_limit, rx_limit, rx_room, &mut cmds);
            let done = msg.send_end();
            assert(self@.msgs =~= before.msgs.update(
                idx as int,
                before.msgs[idx as int].queued(n as nat),
            ));
            tx_limit = tx_limit - n;
            if read {
                self.rx_outstanding = self.rx_outstanding + n;
            }
            if recv_len {
                self.status.set_write_in_progress(true);
                awaits_length = true;
                stopped = true;
            } else if !done {
                self.status.set_write_in_progress(true);
                stopped = true;
            } else {
                self.status.set_write_in_progress(false);
                self.msg_write_idx = idx + 1;
            }
            proof {
                let t = write_tail(
                    self@,
                    tx_limit as nat,
                    rx_limit as nat,
                    *cfg,
                    stopped,
                    awaits_length,
                );
                let new = queued_cmds(before.msgs[idx as int], n as nat, is_last, need_restart);
                assert(run0.cmds == cmds_before + (new + t.cmds));
                assert(cmds_before + (new + t.cmds) =~= (cmds_before + new) + t.cmds);
            }
        }
        let tx_empty = !(awaits_length || self.msg_write_idx == n_msgs);
        let intr_mask = if self.msg_err.is_err() {
            0
        } else {
            master_intr_mask(tx_empty)
        };
        assert(cmds@ + Seq::<u32>::empty() =~= cmds@);
        WriteOut { cmds, intr_mask }
    }

    /// Runs on RX_FULL: hands the bytes `rx`, taken from the receive FIFO in
    /// order, to the reads that expect them.
    #[verifier::spinoff_prover]
    #[verifier::rlimit(40)]
    pub fn read_msgs(&mut self, rx: &Vec<u8>) -> (out: ReadOut)
        requires
            old(self).wf(),
        ensures
            final(self).wf(),
            final(self)@ == read_msgs_spec(old(self)@, rx@),
            out.taken == read_run(
                old(self)@.msgs,
                old(self)@.read_idx,
                rx@,
                old(self)@.rx_outstanding,
            ).taken,
            out.length_known == read_run(
                old(self)@.msgs,
                old(self)@.read_idx,
                rx@,
                old(self)@.rx_outstanding,
            ).length_known,
            out.taken <= rx@.len(),
    {
        let n_msgs = self.msgs.len();
        let mut pos: usize = 0;
        let mut length_known = false;
        let mut stopped = false;
        let ghost x0 = self@;
        let ghost run0 = read_run(x0.msgs, x0.read_idx, rx@, x0.rx_outstanding);
        assert(rx@.skip(0) =~= rx@);
        while !stopped && self.msg_read_idx < n_msgs
            invariant
                self.wf(),
                n_msgs == self.msgs.len(),
                pos <= rx.len(),
                self@.tx_abrt == x0.tx_abrt,
                self@.write_idx == x0.write_idx,
                self@.msg_err == x0.msg_err,
                self@.abort_source == x0.abort_source,
                self@.active == x0.active,
                self@.write_in_progress == x0.write_in_progress,
                ({
                    let t = read_tail(self@, rx@.skip(pos as int), stopped);
                    &&& run0.msgs == t.msgs
                    &&& run0.read_idx == t.read_idx
                    &&& run0.rx_outstanding == t.rx_outstanding
                    &&& run0.taken == pos + t.taken
                    &&& run0.length_known == (length_known || t.length_known)
                }),
            decreases n_msgs - self.msg_read_idx + (if stopped { 0int } else { 1int }),
        {
            let idx = self.msg_read_idx;
            if !self.msgs[idx].is_read() {
                self.msg_read_idx = idx + 1;
            } else {
                let ghost before = self@;
                let ghost rest = rx@.skip(pos as int);
                let outstanding = self.rx_outstanding;
                let msg = &mut self.msgs[idx];
                let recv_len = msg.is_recv_len();
                let c = take_msg(msg, rx, pos, outstanding);
                let done = msg.receive_end();
                proof {
                    assert(rest.take(c as int) =~= rx@.subrange(pos as int, pos + c));
                    assert(rest.skip(c as int) =~= rx@.skip(pos + c));
                    assert(self@.msgs =~= before.msgs.update(
                        idx as int,
                        taken_msg(before.msgs[idx as int], rest.take(c as int), outstanding as nat),
                    ));
                }
                self.rx_outstanding = outstanding - c as u32;
                pos = pos + c;
                if recv_len && c > 0 {
                    length_known = true;
                }
                if !done {
                    stopped = true;
                } else {
                    self.msg_read_idx = idx + 1;
                }
            }
        }
        ReadOut { taken: pos, length_known }
    }

    /// Starts a transaction: takes the messages and decides the accesses that
    /// program the target and enable the controller. The controller must have
    /// been disabled before they are made.
    pub fn prepare(&mut self, msgs: Vec<I2cMsg>) -> (ops: Vec<HwOp>)
        requires
            msgs@.len() > 0,
            msgs_wf(msg_views(msgs@)),
        ensures
            final(self).wf(),
            final(self)@ == prepared(msg_views(msgs@)),
            ops@ == prepare_ops(msg_views(msgs@)[0]),
    {
        self.init(msgs);
        let ten = self.msgs[0].flags().contains(I2cMsgFlags::addr_ten());
        let tar = make_tar(self.msgs[0].addr(), ten);
        let mut ops: Vec<HwOp> = Vec::new();
        ops.push(
            HwOp::Modify {
                reg: Reg::Con,
                mask: 1,
                shift: IC_CON_10BITADDR_MASTER,
                value: if ten {
                    1
                } else {
                    0
                },
            },
        );
        ops.push(HwOp::Write { reg: Reg::Tar, value: tar });
        ops.push(HwOp::Write { reg: Reg::IntrMask, value: 0 });
        ops.push(HwOp::Write { reg: Reg::Enable, value: 1 });
        self.set_active();
        ops.push(HwOp::Touch { reg: Reg::EnableStatus });
        assert(ops@ =~= prepare_ops(self@.msgs[0]));
        ops
    }

    /// Moves the transaction forward on one interrupt.
    #[verifier::spinoff_prover]
    #[verifier::rlimit(40)]
    pub fn irq_process(&mut self, cfg: &FifoConfig, irq: &IrqEvent) -> (out: IrqOut)
        requires
            old(self).wf(),
        ensures
            final(self).wf(),
            final(self)@ == irq_process_spec(
                old(self)@,
                *cfg,
                irq.stat,
                irq.abort_source,
                irq.rx@,
                irq.tx_level,
                irq.rx_level,
            ).0,
            out.result == irq_process_spec(
                old(self)@,
                *cfg,
                irq.stat,
                irq.abort_source,
                irq.rx@,
                irq.tx_level,
                irq.rx_level,
            ).1,
            out.ops@ == irq_process_spec(
                old(self)@,
                *cfg,
                irq.stat,
                irq.abort_source,
                irq.rx@,
                irq.tx_level,
                irq.rx_level,
            ).2,
            out.rx_taken == irq_rx_taken(old(self)@, irq.stat, irq.rx@),
            out.rx_taken <= rx_demand(old(self)@, irq.stat),
            out.rx_taken <= irq.rx@.len(),
    {
        proof {
            lemma_read_run_keeps(
                self@.msgs,
                self@.read_idx,
                irq.rx@,
                self@.rx_outstanding,
            );
        }
        let (mut ops, abort_source) = read_and_clean_intrbits(
            irq.stat,
            irq.abort_source,
            self.rx_outstanding,
        );
        self.abort_source = abort_source;
        if !self.is_active() {
            return IrqOut { result: TransferResult::UnexpectedInterrupt, ops, rx_taken: 0 };
        }
        if bit_is_set(irq.stat, IC_INTR_TX_ABRT) {
            self.cmd_err.set_tx_abrt();
            self.status.set_write_in_progress(false);
            self.rx_outstanding = 0;
            return IrqOut { result: TransferResult::Abort, ops, rx_taken: 0 };
        }
        let mut rx_taken: usize = 0;
        if bit_is_set(irq.stat, IC_INTR_RX_FULL) {
            let read = self.read_msgs(&irq.rx);
            rx_taken = read.taken;
            if read.length_known {
                ops.push(HwOp::Modify { reg: Reg::IntrMask, mask: 1, shift: IC_INTR_TX_EMPTY, value: 1 });
            }
        }
        let ghost unmasked = ops@;
        if bit_is_set(irq.stat, IC_INTR_TX_EMPTY) {
            let written = self.write_msgs(cfg, irq.tx_level, irq.rx_level);
            let n = written.cmds.len();
            let mut i: usize = 0;
            while i < n
                invariant
                    n == written.cmds@.len(),
                    i <= n,
                    ops@ == unmasked + Seq::new(
                        i as nat,
                        |j: int| HwOp::Write { reg: Reg::DataCmd, value: written.cmds@[j] },
                    ),
                decreases n - i,
            {
                ops.push(HwOp::Write { reg: Reg::DataCmd, value: written.cmds[i] });
                i = i + 1;
                assert(ops@ =~= unmasked + Seq::new(
                    i as nat,
                    |j: int| HwOp::Write { reg: Reg::DataCmd, value: written.cmds@[j] },
                ));
            }
            ops.push(HwOp::Write { reg: Reg::IntrMask, value: written.intr_mask });
            assert(ops@ =~= unmasked + write_ops(written.cmds@, written.intr_mask));
        } else {
            assert(ops@ =~= unmasked + Seq::<HwOp>::empty());
        }
        let finished = (bit_is_set(irq.stat, IC_INTR_STOP_DET) || self.msg_err.is_err())
            && self.rx_outstanding == 0;
        let result = if finished {
            TransferResult::Finish
        } else {
            TransferResult::Continue
        };
        IrqOut { result, ops, rx_taken }
    }

    /// How many bytes an interrupt with status `stat` can store at most.
    /// No more than these need to be taken from the receive FIFO for it.
    pub fn rx_demand(&self, stat: u32) -> (n: u32)
        ensures
            n == rx_demand(self@, stat),
    {
        if self.is_active() && !bit_is_set(stat, IC_INTR_TX_ABRT) && bit_is_set(
            stat,
            IC_INTR_RX_FULL,
        ) {
            self.rx_outstanding
        } else {
            0
        }
    }

    /// The abort sources that report a missing acknowledge.
    pub fn tx_abort_noack() -> (fields: Vec<(u32, u32, u32)>)
        ensures
            fields@ == noack_fields(),
    {
        let mut fields: Vec<(u32, u32, u32)> = Vec::new();
        fields.push((1, IC_TX_ABRT_7B_ADDR_NOACK, 1));
        fields.push((1, IC_TX_ABRT_10ADDR1_NOACK, 1));
        fields.push((1, IC_TX_ABRT_10ADDR2_NOACK, 1));
        fields.push((1, IC_TX_ABRT_TXDATA_NOACK, 1));
        fields.push((1, IC_TX_ABRT_GCALL_NOACK, 1));
        assert(fields@ =~= noack_fields());
        fields
    }

    /// Names the error that the recorded abort source stands for.
    pub fn handle_tx_abort(&self) -> (r: Result<(), Errno>)
        ensures
            r == Err::<(), Errno>(abort_error(self@.abort_source)),
    {
        let source = self.abort_source;
        let fields = Self::tx_abort_noack();
        proof {
            lemma_single_bit_matches(source, IC_TX_ABRT_7B_ADDR_NOACK);
            lemma_single_bit_matches(source, IC_TX_ABRT_10ADDR1_NOACK);
            lemma_single_bit_matches(source, IC_TX_ABRT_10ADDR2_NOACK);
            lemma_single_bit_matches(source, IC_TX_ABRT_TXDATA_NOACK);
            lemma_single_bit_matches(source, IC_TX_ABRT_GCALL_NOACK);
            let f = noack_fields();
            if abort_noack(source) {
                let k = if bit(source, IC_TX_ABRT_7B_ADDR_NOACK) {
                    0int
                } else if bit(source, IC_TX_ABRT_10ADDR1_NOACK) {
                    1int
                } else if bit(source, IC_TX_ABRT_10ADDR2_NOACK) {
                    2int
                } else if bit(source, IC_TX_ABRT_TXDATA_NOACK) {
                    3int
                } else {
                    4int
                };
                assert(crate::registers::field_matches(source, f[k].0, f[k].1, f[k].2));
            }
            assert(matches_any(source, f) == abort_noack(source));
        }
        if reg_matches_any(source, &fields) {
            return Err(Errno::Io);
        }
        if bit_is_set(source, IC_TX_ABRT_ARB_LOST) {
            Err(Errno::Again)
        } else if bit_is_set(source, IC_TX_ABRT_GCALL_READ) {
            Err(Errno::InvalidArgs)
        } else {
            Err(Errno::Io)
        }
    }

    /// Closes the transaction: switches the controller off at once, so that
    /// it raises no interrupt that could run into the next transaction,
    /// clears the active flag, and says how the transaction went. Returns
    /// the one store to make and the result. Nothing is waited for.
    pub fn exit(&mut self) -> (r: (Vec<HwOp>, Result<(), Errno>))
        requires
            old(self).wf(),
        ensures
            final(self).wf(),
            final(self)@ == (XferView { active: false, ..old(self)@ }),
            r.0@ == exit_ops(),
            r.1 == exit_result(old(self)@),
    {
        let mut ops: Vec<HwOp> = Vec::new();
        ops.push(HwOp::Write { reg: Reg::Enable, value: 0 });
        assert(ops@ =~= exit_ops());
        self.clear_active();
        if let Err(e) = self.msg_err {
            return (ops, Err(e));
        }
        if self.cmd_err.has_tx_abrt() {
            return (ops, self.handle_tx_abort());
        }
        if !self.is_empty_status() {
            return (ops, Err(Errno::Io));
        }
        (ops, Ok(()))
    }
}

/// What is left of a pass: nothing once it has stopped, else the pass from
/// the state's write cursor on.
spec fn write_tail(
    x: XferView,
    tx_limit: nat,
    rx_limit: nat,
    cfg: FifoConfig,
    stopped: bool,
    awaits_length: bool,
) -> WriteRun {
    if stopped {
        WriteRun {
            msgs: x.msgs,
            write_idx: x.write_idx,
            rx_outstanding: x.rx_outstanding,
            write_in_progress: x.write_in_progress,
            cmds: Seq::empty(),
            awaits_length,
        }
    } else {
        write_run(
            x.msgs,
            x.write_idx,
            x.write_in_progress,
            tx_limit,
            rx_limit,
            x.rx_outstanding,
            cfg,
        )
    }
}

/// What is left of a pass over the receive FIFO: nothing once it has stopped,
/// else the pass from the state's read cursor on.
spec fn read_tail(x: XferView, rx: Seq<u8>, stopped: bool) -> ReadRun {
    if stopped {
        ReadRun {
            msgs: x.msgs,
            read_idx: x.read_idx,
            rx_outstanding: x.rx_outstanding,
            taken: 0,
            length_known: false,
        }
    } else {
        read_run(x.msgs, x.read_idx, rx, x.rx_outstanding)
    }
}

/// A pass over the messages queues commands and changes nothing else: the
/// list keeps its length, every message its target, and no more reads are
/// outstanding than the receive FIFO holds.
pub proof fn lemma_write_run_keeps(
    msgs: Seq<MsgView>,
    i: nat,
    write_in_progress: bool,
    tx_limit: nat,
    rx_limit: nat,
    rx_outstanding: nat,
    cfg: FifoConfig,
)
    ensures
        ({
            let run = write_run(msgs, i, write_in_progress, tx_limit, rx_limit, rx_outstanding, cfg);
            &&& run.msgs.len() == msgs.len()
            &&& forall|j: int| 0 <= j < msgs.len() ==> (#[trigger] run.msgs[j]).addr == msgs[j].addr
            &&& rx_outstanding <= run.rx_outstanding
            &&& rx_outstanding <= cfg.rx_fifo_depth ==> run.rx_outstanding <= cfg.rx_fifo_depth
            &&& i <= msgs.len() ==> i <= run.write_idx <= msgs.len()
        }),
    decreases msgs.len() - i,
{
    if i < msgs.len() {
        let m = msgs[i as int];
        let n = queue_count(
            m,
            tx_limit,
            rx_limit,
            sat_sub(cfg.rx_fifo_depth as nat, rx_outstanding),
        );
        let outstanding = if m.read {
            rx_outstanding + n
        } else {
            rx_outstanding
        };
        let queued = msgs.update(i as int, m.queued(n));
        if !(m.recv_len || !m.queued(n).send_end()) {
            lemma_write_run_keeps(
                queued,
                i + 1,
                false,
                (tx_limit - n) as nat,
                rx_limit,
                outstanding,
                cfg,
            );
        }
    }
}

/// A pass over the receive FIFO stores bytes and changes nothing else: the
/// list keeps its length, every message its target, no more bytes are taken
/// than there are or than reads are outstanding, and one outstanding read
/// goes with each byte taken.
pub proof fn lemma_read_run_keeps(msgs: Seq<MsgView>, i: nat, rx: Seq<u8>, rx_outstanding: nat)
    ensures
        ({
            let run = read_run(msgs, i, rx, rx_outstanding);
            &&& run.msgs.len() == msgs.len()
            &&& forall|j: int| 0 <= j < msgs.len() ==> (#[trigger] run.msgs[j]).addr == msgs[j].addr
            &&& run.taken <= rx.len()
            &&& run.rx_outstanding + run.taken == rx_outstanding
            &&& run.length_known ==> run.taken > 0
            &&& i <= msgs.len() ==> i <= run.read_idx <= msgs.len()
        }),
    decreases msgs.len() - i,
{
    if i < msgs.len() {
        if !msgs[i as int].read {
            lemma_read_run_keeps(msgs, i + 1, rx, rx_outstanding);
        } else {
            let m = msgs[i as int];
            let c = take_count(m, rx.len(), rx_outstanding, rx[0]);
            let taken = taken_msg(m, rx.take(c as int), rx_outstanding);
            if taken.receive_end() {
                lemma_read_run_keeps(
                    msgs.update(i as int, taken),
                    i + 1,
                    rx.skip(c as int),
                    (rx_outstanding - c) as nat,
                );
            }
        }
    }
}

/// With no read outstanding a pass over the receive FIFO takes no byte and
/// changes no message.
pub proof fn lemma_read_run_idle(msgs: Seq<MsgView>, i: nat, rx: Seq<u8>)
    ensures
        ({
            let run = read_run(msgs, i, rx, 0);
            &&& run.msgs == msgs
            &&& run.taken == 0
            &&& run.rx_outstanding == 0
            &&& !run.length_known
        }),
    decreases msgs.len() - i,
{
    if i < msgs.len() {
        if !msgs[i as int].read {
            lemma_read_run_idle(msgs, i + 1, rx);
        } else {
            let m = msgs[i as int];
            assert(take_count(m, rx.len(), 0, rx[0]) == 0);
            assert(rx.take(0).len() == 0);
            assert(taken_msg(m, rx.take(0), 0) == m);
            assert(msgs.update(i as int, m) =~= msgs);
            assert(rx.skip(0) =~= rx);
            if m.receive_end() {
                lemma_read_run_idle(msgs, i + 1, rx);
            }
        }
    }
}

/// A read gets its bytes in the order in which the receive FIFO holds
/// them: where the message at the read cursor is a read of known length
/// that has received nothing, and as many bytes are in the FIFO as it
/// expects and as reads are outstanding, the pass stores exactly those bytes
/// in it, leaves no read outstanding, touches no other message and moves
/// the cursor past it: to the next message where that is a read that still
/// expects bytes, or to the end where the read was the last message.
pub proof fn lemma_read_drains(msgs: Seq<MsgView>, i: nat, rx: Seq<u8>)
    requires
        i < msgs.len(),
        msgs[i as int].read,
        !msgs[i as int].recv_len,
        msgs[i as int].data.len() == 0,
        msgs[i as int].threshold == rx.len(),
    ensures
        ({
            let run = read_run(msgs, i, rx, rx.len());
            &&& run.msgs == msgs.update(i as int, msgs[i as int].received(rx))
            &&& run.msgs[i as int].data == rx
            &&& run.taken == rx.len()
            &&& run.rx_outstanding == 0
            &&& !run.length_known
            &&& i < run.read_idx <= msgs.len()
            &&& (i + 1 < msgs.len() && msgs[i as int + 1].read && !msgs[i as int
                + 1].receive_end()) ==> run.read_idx == i + 1
        }),
{
    let m = msgs[i as int];
    let n = rx.len();
    let c = take_count(m, n, n, rx[0]);
    assert(c == n);
    assert(rx.take(n as int) =~= rx);
    let taken = taken_msg(m, rx.take(c as int), n);
    assert(taken == m.received(rx)) by {
        if n == 0 {
            assert(m.data + rx =~= m.data);
        }
    }
    assert(m.received(rx).data =~= rx);
    assert(taken.receive_end());
    let next = msgs.update(i as int, taken);
    lemma_read_run_idle(next, i + 1, rx.skip(c as int));
    lemma_read_run_keeps(next, i + 1, rx.skip(c as int), 0);
}

/// A read of `rx.len()` bytes runs from the first interrupt to the last:
/// TX_EMPTY queues one read command for each byte and leaves them
/// outstanding, RX_FULL stores the bytes in order and leaves none
/// outstanding, and the stop then finishes the transaction, which closes
/// without error.
pub proof fn lemma_read_transaction_finishes(
    m: MsgView,
    rx: Seq<u8>,
    cfg: FifoConfig,
    tx_empty: u32,
    rx_full: u32,
    stop_det: u32,
    abort_source: u32,
    rx_level: u32,
    tx_level: u32,
)
    requires
        m.read && !m.recv_len && m.wf(),
        m.data.len() == 0 && m.cmd_cnt == 0,
        m.threshold == rx.len(),
        0 < rx.len() <= cfg.tx_fifo_depth,
        rx.len() <= cfg.rx_fifo_depth,
        bit(tx_empty, IC_INTR_TX_EMPTY) && !bit(tx_empty, IC_INTR_RX_FULL),
        !bit(tx_empty, IC_INTR_TX_ABRT) && !bit(tx_empty, IC_INTR_STOP_DET),
        bit(rx_full, IC_INTR_RX_FULL) && !bit(rx_full, IC_INTR_TX_EMPTY),
        !bit(rx_full, IC_INTR_TX_ABRT) && !bit(rx_full, IC_INTR_STOP_DET),
        bit(stop_det, IC_INTR_STOP_DET) && !bit(stop_det, IC_INTR_TX_EMPTY),
        !bit(stop_det, IC_INTR_TX_ABRT) && !bit(stop_det, IC_INTR_RX_FULL),
    ensures
        ({
            let first = irq_process_spec(
                prepared(seq![m]),
                cfg,
                tx_empty,
                abort_source,
                Seq::empty(),
                0,
                0,
            );
            let second = irq_process_spec(first.0, cfg, rx_full, abort_source, rx, tx_level, rx_level);
            let third = irq_process_spec(
                second.0,
                cfg,
                stop_det,
                abort_source,
                Seq::empty(),
                tx_level,
                rx_level,
            );
            &&& first.1 == TransferResult::Continue
            &&& first.0.rx_outstanding == rx.len()
            &&& first.2 == intr_clear_ops(tx_empty, 0) + write_ops(
                queued_cmds(m, rx.len(), true, false),
                DW_IC_INTR_MASTER_MASK_NO_TX_EMPTY,
            )
            &&& second.1 == TransferResult::Continue
            &&& second.0.rx_outstanding == 0
            &&& second.0.msgs[0].data == rx
            &&& third.1 == TransferResult::Finish
            &&& third.0.msgs[0].data == rx
            &&& exit_result(third.0) == Ok::<(), Errno>(())
        }),
{
    let msgs = seq![m];
    let n = rx.len();
    let x0 = prepared(msgs);
    let tx_limit = sat_sub(cfg.tx_fifo_depth as nat, 0);
    let rx_limit = sat_sub(cfg.rx_fifo_depth as nat, 0);
    assert(same_target(msgs));
    assert(queue_count(m, tx_limit, rx_limit, sat_sub(cfg.rx_fifo_depth as nat, 0)) == n);
    let queued = msgs.update(0, m.queued(n));
    let rest = write_run(queued, 1, false, (tx_limit - n) as nat, rx_limit, n, cfg);
    assert(rest.cmds =~= Seq::<u32>::empty());
    let run = write_run(msgs, 0, false, tx_limit, rx_limit, 0, cfg);
    assert(run.cmds =~= queued_cmds(m, n, true, false));
    assert(run.msgs == queued);
    assert(run.write_idx == 1 && run.rx_outstanding == n && !run.write_in_progress);
    let first = irq_process_spec(x0, cfg, tx_empty, abort_source, Seq::empty(), 0, 0);
    assert(first.2 =~= intr_clear_ops(tx_empty, 0) + write_ops(
        queued_cmds(m, n, true, false),
        DW_IC_INTR_MASTER_MASK_NO_TX_EMPTY,
    ));
    assert(first.0.msgs == queued);
    lemma_read_drains(queued, 0, rx);
}

/// The receive FIFO never has to hold more than it can: an interrupt
/// leaves no more reads outstanding than the FIFO's depth, if there were
/// no more before.
pub proof fn lemma_outstanding_bounded(
    x: XferView,
    cfg: FifoConfig,
    stat: u32,
    abort_source: u32,
    rx: Seq<u8>,
    tx_level: u32,
    rx_level: u32,
)
    requires
        x.rx_outstanding <= cfg.rx_fifo_depth,
    ensures
        irq_process_spec(x, cfg, stat, abort_source, rx, tx_level, rx_level).0.rx_outstanding
            <= cfg.rx_fifo_depth,
{
    let x1 = XferView { abort_source: captured_abort_source(stat, abort_source), ..x };
    lemma_read_run_keeps(x.msgs, x.read_idx, rx, x.rx_outstanding);
    let x2 = if bit(stat, IC_INTR_RX_FULL) {
        read_msgs_spec(x1, rx)
    } else {
        x1
    };
    lemma_write_run_keeps(
        x2.msgs,
        x2.write_idx,
        x2.write_in_progress,
        sat_sub(cfg.tx_fifo_depth as nat, tx_level as nat),
        sat_sub(cfg.rx_fifo_depth as nat, rx_level as nat),
        x2.rx_outstanding,
        cfg,
    );
}

/// Messages that name different targets fail the transaction before any
/// byte is queued: the first interrupt that asks for commands stores none
/// in IC_DATA_CMD, finishes the transaction, and the transaction closes
/// with `InvalidArgs`.
pub proof fn lemma_mixed_targets_fail(
    msgs: Seq<MsgView>,
    cfg: FifoConfig,
    stat: u32,
    abort_source: u32,
    rx: Seq<u8>,
    tx_level: u32,
    rx_level: u32,
)
    requires
        !same_target(msgs),
        bit(stat, IC_INTR_TX_EMPTY),
        !bit(stat, IC_INTR_TX_ABRT),
    ensures
        ({
            let p = irq_process_spec(
                prepared(msgs),
                cfg,
                stat,
                abort_source,
                rx,
                tx_level,
                rx_level,
            );
            &&& p.1 == TransferResult::Finish
            &&& exit_result(p.0) == Err::<(), Errno>(Errno::InvalidArgs)
            &&& forall|i: int|
                0 <= i < p.2.len() ==> !(#[trigger] p.2[i] matches HwOp::Write {
                    reg: Reg::DataCmd,
                    ..
                })
        }),
{
    let x = prepared(msgs);
    lemma_read_run_keeps(x.msgs, x.read_idx, rx, x.rx_outstanding);
    let run = read_run(x.msgs, x.read_idx, rx, x.rx_outstanding);
    let k = choose|k: int| 0 <= k < msgs.len() && (#[trigger] msgs[k]).addr != msgs[0].addr;
    assert(run.msgs[k].addr == msgs[k].addr);
    assert(run.msgs[0].addr == msgs[0].addr);
    assert(!same_target(run.msgs));
    let p = irq_process_spec(x, cfg, stat, abort_source, rx, tx_level, rx_level);
    assert forall|i: int| 0 <= i < p.2.len() implies !(#[trigger] p.2[i] matches HwOp::Write {
        reg: Reg::DataCmd,
        ..
    }) by {
        let clears = intr_clear_ops(stat, x.rx_outstanding);
        crate::controller::lemma_clear_ops_are_touches(stat, x.rx_outstanding);
        if i < clears.len() {
            assert(p.2[i] == clears[i]);
            assert(clears[i] is Touch);
        }
    }
}

/// An abort ends the transaction with the error of its source, unless the
/// driver had recorded an error of its own before.
pub proof fn lemma_abort_result(
    x: XferView,
    cfg: FifoConfig,
    stat: u32,
    abort_source: u32,
    rx: Seq<u8>,
    tx_level: u32,
    rx_level: u32,
)
    requires
        x.active,
        x.msg_err.is_none(),
        bit(stat, IC_INTR_TX_ABRT),
    ensures
        ({
            let p = irq_process_spec(x, cfg, stat, abort_source, rx, tx_level, rx_level);
            &&& p.1 == TransferResult::Abort
            &&& p.0.rx_outstanding == 0
            &&& exit_result(p.0) == Err::<(), Errno>(abort_error(abort_source))
        }),
{
}

/// A transaction is active from `prepare` until `exit`: no interrupt
/// changes the flag.
pub proof fn lemma_irq_keeps_active(
    x: XferView,
    cfg: FifoConfig,
    stat: u32,
    abort_source: u32,
    rx: Seq<u8>,
    tx_level: u32,
    rx_level: u32,
)
    ensures
        irq_process_spec(x, cfg, stat, abort_source, rx, tx_level, rx_level).0.active == x.active,
{
}

/// What an abort source stands for: a missing acknowledge is an I/O error
/// whatever else is reported; arbitration lost without a missing
/// acknowledge is worth another try.
pub proof fn lemma_abort_errors(source: u32)
    ensures
        abort_noack(source) ==> abort_error(source) == Errno::Io,
        bit(source, IC_TX_ABRT_ARB_LOST) && !abort_noack(source) ==> abort_error(source)
            == Errno::Again,
        abort_error(source) != Errno::Again ==> abort_noack(source) || !bit(
            source,
            IC_TX_ABRT_ARB_LOST,
        ),
{
}

} // verus!
