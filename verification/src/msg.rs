//! One message of a transaction, and what the driver has done of it so far.

use crate::flags::I2cMsgFlags;
use vstd::prelude::*;

verus! {

/// The largest block length that a length-first read may announce.
pub const I2C_SMBUS_BLOCK_MAX: u8 = 32;

/// What a message is, as contracts see it.
pub struct MsgView {
    /// The target's address.
    pub addr: u16,
    /// The message reads from the target.
    pub read: bool,
    /// The target has a 10-bit address.
    pub ten: bool,
    /// The first byte received tells how many follow.
    pub recv_len: bool,
    /// A packet error code follows the data.
    pub pec: bool,
    /// A write: the bytes to send. A read: the bytes received so far.
    pub data: Seq<u8>,
    /// A write: how many bytes have been handed to the transmit FIFO.
    pub sent: nat,
    /// A read: how many bytes the message ends with.
    pub threshold: nat,
    /// A read: how many read commands have been handed to the transmit FIFO.
    pub cmd_cnt: nat,
}

impl MsgView {
    /// The counters lie within the message.
    pub open spec fn wf(self) -> bool {
        if self.read {
            &&& self.data.len() <= self.threshold
            &&& self.cmd_cnt <= self.threshold
            &&& self.sent == 0
            &&& self.recv_len ==> self.data.len() == 0
        } else {
            self.sent <= self.data.len() && self.threshold == 0 && self.cmd_cnt == 0
        }
    }

    /// How many commands the message still has to hand to the transmit FIFO.
    pub open spec fn tx_remaining(self) -> nat {
        if self.read {
            (self.threshold - self.cmd_cnt) as nat
        } else {
            (self.data.len() - self.sent) as nat
        }
    }

    /// Every command of the message has been queued.
    pub open spec fn send_end(self) -> bool {
        self.tx_remaining() == 0
    }

    /// A read has all its bytes.
    pub open spec fn receive_end(self) -> bool {
        self.data.len() >= self.threshold
    }

    /// The message after `n` more of its commands were queued.
    pub open spec fn queued(self, n: nat) -> MsgView {
        if self.read {
            MsgView { cmd_cnt: self.cmd_cnt + n, ..self }
        } else {
            MsgView { sent: self.sent + n, ..self }
        }
    }

    /// A read after the bytes `bytes` were received.
    pub open spec fn received(self, bytes: Seq<u8>) -> MsgView {
        MsgView { data: self.data + bytes, ..self }
    }

    /// A length-first read once its length byte is known, before the byte is
    /// stored: it ends with `block_threshold` bytes, of which the read
    /// commands outstanding, at most, count as queued.
    pub open spec fn with_block_length(self, byte: u8, outstanding: nat) -> MsgView {
        MsgView {
            recv_len: false,
            threshold: block_threshold(byte, self.pec),
            cmd_cnt: if outstanding <= block_threshold(byte, self.pec) {
                outstanding
            } else {
                block_threshold(byte, self.pec)
            },
            ..self
        }
    }
}

/// The block length that a length byte announces: the byte itself, or 1
/// where it is zero or larger than the protocol allows.
pub open spec fn block_length(byte: u8) -> u8 {
    if byte == 0 || byte > I2C_SMBUS_BLOCK_MAX {
        1
    } else {
        byte
    }
}

/// How many bytes a length-first read ends with, once its length byte is known:
/// the length byte, the block, and the packet error code where one is expected.
pub open spec fn block_threshold(byte: u8, pec: bool) -> nat {
    (block_length(byte) + if pec { 2int } else { 1int }) as nat
}

/// One message: a target address, flags, and a byte buffer.
#[derive(Debug)]
pub struct I2cMsg {
    addr: u16,
    flags: I2cMsgFlags,
    buf: Vec<u8>,
    sent: usize,
    threshold: usize,
    cmd_cnt: usize,
}

impl View for I2cMsg {
    type V = MsgView;

    closed spec fn view(&self) -> MsgView {
        MsgView {
            addr: self.addr,
            read: self.flags.read(),
            ten: self.flags.ten(),
            recv_len: self.flags.recv_len(),
            pec: self.flags.pec(),
            data: self.buf@,
            sent: self.sent as nat,
            threshold: self.threshold as nat,
            cmd_cnt: self.cmd_cnt as nat,
        }
    }
}

impl I2cMsg {
    /// The counters lie within the message.
    pub open spec fn wf(&self) -> bool {
        self@.wf()
    }

    /// A message to the target at `addr`. For a write `buf` holds the bytes to
    /// send. For a read the length of `buf` is the number of bytes to receive
    /// (1 for a length-first read), and its content is dropped.
    pub fn new(addr: u16, flags: I2cMsgFlags, buf: Vec<u8>) -> (m: Self)
        ensures
            m.wf(),
            m@ == (MsgView {
                addr,
                read: flags.read(),
                ten: flags.ten(),
                recv_len: flags.recv_len(),
                pec: flags.pec(),
                data: if flags.read() { Seq::<u8>::empty() } else { buf@ },
                sent: 0,
                threshold: if flags.read() { buf@.len() } else { 0 },
                cmd_cnt: 0,
            }),
    {
        if flags.contains(I2cMsgFlags::master_read()) {
            let threshold = buf.len();
            I2cMsg { addr, flags, buf: Vec::new(), sent: 0, threshold, cmd_cnt: 0 }
        } else {
            I2cMsg { addr, flags, buf, sent: 0, threshold: 0, cmd_cnt: 0 }
        }
    }

    pub fn addr(&self) -> (r: u16)
        ensures
            r == self@.addr,
    {
        self.addr
    }

    pub fn flags(&self) -> (r: I2cMsgFlags)
        ensures
            r.read() == self@.read,
            r.ten() == self@.ten,
            r.recv_len() == self@.recv_len,
            r.pec() == self@.pec,
    {
        self.flags
    }

    /// A write: the bytes to send. A read: the bytes received so far.
    pub fn data(&self) -> (r: &Vec<u8>)
        ensures
            r@ == self@.data,
    {
        &self.buf
    }

    pub fn is_read(&self) -> (r: bool)
        ensures
            r == self@.read,
    {
        self.flags.contains(I2cMsgFlags::master_read())
    }

    pub fn is_recv_len(&self) -> (r: bool)
        ensures
            r == self@.recv_len,
    {
        self.flags.contains(I2cMsgFlags::master_recv_len())
    }

    /// How many commands the message still has to hand to the transmit FIFO.
    pub fn tx_remaining(&self) -> (r: usize)
        requires
            self.wf(),
        ensures
            r == self@.tx_remaining(),
    {
        if self.is_read() {
            self.threshold - self.cmd_cnt
        } else {
            self.buf.len() - self.sent
        }
    }

    /// Whether every command of the message has been queued.
    pub fn send_end(&self) -> (r: bool)
        requires
            self.wf(),
        ensures
            r == self@.send_end(),
    {
        self.tx_remaining() == 0
    }

    /// Whether exactly one command of the message is still to be queued.
    pub fn send_left_last(&self) -> (r: bool)
        requires
            self.wf(),
        ensures
            r == (self@.tx_remaining() == 1),
    {
        self.tx_remaining() == 1
    }

    /// Whether a read has all its bytes.
    pub fn receive_end(&self) -> (r: bool)
        ensures
            r == self@.receive_end(),
    {
        self.buf.len() >= self.threshold
    }

    /// Takes the next byte of a write.
    pub fn pop_front_byte(&mut self) -> (b: u8)
        requires
            old(self).wf(),
            !old(self)@.read,
            !old(self)@.send_end(),
        ensures
            final(self).wf(),
            b == old(self)@.data[old(self)@.sent as int],
            final(self)@ == old(self)@.queued(1),
    {
        let len = self.buf.len();
        assert(self.sent < len);
        let b = self.buf[self.sent];
        self.sent = self.sent + 1;
        b
    }

    /// Counts one more read command of a read.
    pub fn inc_receive_cmd_cnt(&mut self)
        requires
            old(self).wf(),
            old(self)@.read,
            !old(self)@.send_end(),
        ensures
            final(self).wf(),
            final(self)@ == old(self)@.queued(1),
    {
        self.cmd_cnt = self.cmd_cnt + 1;
    }

    /// Stores one received byte of a read.
    pub fn push_byte(&mut self, b: u8)
        requires
            old(self).wf(),
            old(self)@.read,
            !old(self)@.recv_len,
            !old(self)@.receive_end(),
        ensures
            final(self).wf(),
            final(self)@ == old(self)@.received(seq![b]),
    {
        self.buf.push(b);
        assert(self.buf@ =~= old(self).buf@ + seq![b]);
    }

    /// Settles the length of a length-first read from its length byte: the
    /// message ends with `block_threshold(byte, pec)` bytes, of which
    /// `outstanding` read commands, at most, count as queued, and the
    /// length-first flag is taken off. Returns the length byte to store.
    pub fn set_block_length(&mut self, byte: u8, outstanding: usize) -> (len: u8)
        requires
            old(self).wf(),
            old(self)@.read,
            old(self)@.recv_len,
        ensures
            final(self).wf(),
            len == block_length(byte),
            final(self)@ == old(self)@.with_block_length(byte, outstanding as nat),
    {
        let len: u8 = if byte == 0 || byte > I2C_SMBUS_BLOCK_MAX {
            1
        } else {
            byte
        };
        let mut threshold: usize = len as usize;
        if self.flags.contains(I2cMsgFlags::client_pec()) {
            threshold = threshold + 2;
        } else {
            threshold = threshold + 1;
        }
        self.threshold = threshold;
        self.cmd_cnt = if outstanding <= threshold {
            outstanding
        } else {
            threshold
        };
        self.flags.remove(I2cMsgFlags::master_recv_len());
        len
    }
}

/// The views of the messages of `msgs`, in order.
pub open spec fn msg_views(msgs: Seq<I2cMsg>) -> Seq<MsgView> {
    Seq::new(msgs.len(), |i: int| msgs[i]@)
}

/// Every message of `msgs` is well formed.
pub open spec fn msgs_wf(msgs: Seq<MsgView>) -> bool {
    forall|i: int| 0 <= i < msgs.len() ==> (#[trigger] msgs[i]).wf()
}

} // verus!
