//! Sets of named flags, each kept as a bit mask.
//!
//! Every type here wraps a `u32` and admits only the bits of its named flags.
//! Contracts speak of the named flags, not of the mask.

use vstd::prelude::*;

verus! {

pub const DW_I2C_STATUS_ACTIVE: u32 = 0x01;
pub const DW_I2C_STATUS_WRITE_IN_PROGRESS: u32 = 0x02;
pub const DW_I2C_STATUS_READ_IN_PROGRESS: u32 = 0x04;

/// What a transaction is doing, as the driver sees it.
#[derive(Clone, Copy, Debug, PartialEq, Eq, Structural)]
pub struct DwI2cStatus {
    bits: u32,
}

impl DwI2cStatus {
    #[verifier::type_invariant]
    spec fn inv(self) -> bool {
        self.bits <= 7
    }

    /// A transaction has been prepared and not yet closed.
    pub closed spec fn active(self) -> bool {
        self.bits & DW_I2C_STATUS_ACTIVE != 0
    }

    /// The transmit side stopped in the middle of a message.
    pub closed spec fn write_in_progress(self) -> bool {
        self.bits & DW_I2C_STATUS_WRITE_IN_PROGRESS != 0
    }

    /// The receive side stopped in the middle of a message.
    pub closed spec fn read_in_progress(self) -> bool {
        self.bits & DW_I2C_STATUS_READ_IN_PROGRESS != 0
    }

    /// No flag is set.
    pub open spec fn spec_is_empty(self) -> bool {
        !self.active() && !self.write_in_progress() && !self.read_in_progress()
    }

    pub closed spec fn spec_bits(self) -> u32 {
        self.bits
    }

    /// The mask: 1 for `ACTIVE`, 2 for `WRITE_IN_PROGRESS`, 4 for `READ_IN_PROGRESS`.
    pub fn bits(&self) -> (r: u32)
        ensures
            r == self.spec_bits(),
            r == (if self.active() { 1int } else { 0 })
                + (if self.write_in_progress() { 2int } else { 0 })
                + (if self.read_in_progress() { 4int } else { 0 }),
    {
        proof {
            use_type_invariant(self);
            lemma_status_bits(self.bits);
        }
        self.bits
    }

    pub fn empty() -> (r: Self)
        ensures
            r.spec_is_empty(),
    {
        proof {
            lemma_status_bits(0);
        }
        DwI2cStatus { bits: 0 }
    }

    pub fn is_empty(&self) -> (r: bool)
        ensures
            r == self.spec_is_empty(),
    {
        proof {
            use_type_invariant(self);
            lemma_status_bits(self.bits);
        }
        self.bits == 0
    }

    pub fn is_active(&self) -> (r: bool)
        ensures
            r == self.active(),
    {
        self.bits & DW_I2C_STATUS_ACTIVE != 0
    }

    pub fn is_write_in_progress(&self) -> (r: bool)
        ensures
            r == self.write_in_progress(),
    {
        self.bits & DW_I2C_STATUS_WRITE_IN_PROGRESS != 0
    }

    pub fn set_active(&mut self, on: bool)
        ensures
            final(self).active() == on,
            final(self).write_in_progress() == old(self).write_in_progress(),
            final(self).read_in_progress() == old(self).read_in_progress(),
    {
        proof {
            use_type_invariant(&*self);
            lemma_status_bits(self.bits);
        }
        let bits = if on {
            self.bits | DW_I2C_STATUS_ACTIVE
        } else {
            self.bits & !DW_I2C_STATUS_ACTIVE
        };
        *self = DwI2cStatus { bits };
    }

    pub fn set_write_in_progress(&mut self, on: bool)
        ensures
            final(self).write_in_progress() == on,
            final(self).active() == old(self).active(),
            final(self).read_in_progress() == old(self).read_in_progress(),
    {
        proof {
            use_type_invariant(&*self);
            lemma_status_bits(self.bits);
        }
        let bits = if on {
            self.bits | DW_I2C_STATUS_WRITE_IN_PROGRESS
        } else {
            self.bits & !DW_I2C_STATUS_WRITE_IN_PROGRESS
        };
        *self = DwI2cStatus { bits };
    }
}

proof fn lemma_status_bits(b: u32)
    by (bit_vector)
    requires
        b <= 7,
    ensures
        (b == 0) == (b & 1 == 0 && b & 2 == 0 && b & 4 == 0),
        b == (if b & 1 != 0 { 1u32 } else { 0 }) + (if b & 2 != 0 { 2u32 } else { 0 }) + (if b & 4
            != 0 { 4u32 } else { 0 }),
        (b | 1) <= 7 && (b | 1) & 1 != 0 && (b | 1) & 2 == b & 2 && (b | 1) & 4 == b & 4,
        (b | 2) <= 7 && (b | 2) & 2 != 0 && (b | 2) & 1 == b & 1 && (b | 2) & 4 == b & 4,
        (b & !1u32) <= 7 && (b & !1u32) & 1 == 0 && (b & !1u32) & 2 == b & 2 && (b
            & !1u32) & 4 == b & 4,
        (b & !2u32) <= 7 && (b & !2u32) & 2 == 0 && (b & !2u32) & 1 == b & 1 && (b
            & !2u32) & 4 == b & 4,
{
}

pub const DW_I2C_CMD_ERR_TX_ABRT: u32 = 0x1;

/// Errors that the hardware reported while a transaction ran.
#[derive(Clone, Copy, Debug, PartialEq, Eq, Structural)]
pub struct DwI2cCmdErr {
    bits: u32,
}

impl DwI2cCmdErr {
    #[verifier::type_invariant]
    spec fn inv(self) -> bool {
        self.bits <= 1
    }

    /// The hardware aborted the transmission.
    pub closed spec fn tx_abrt(self) -> bool {
        self.bits == 1
    }

    pub fn empty() -> (r: Self)
        ensures
            !r.tx_abrt(),
    {
        DwI2cCmdErr { bits: 0 }
    }

    /// The set with the given mask, if the mask holds no unknown bit.
    pub fn from_bits(bits: u32) -> (r: Option<Self>)
        ensures
            r.is_some() == (bits <= 1),
            r matches Some(e) ==> e.tx_abrt() == (bits == 1),
    {
        if bits <= 1 {
            Some(DwI2cCmdErr { bits })
        } else {
            None
        }
    }

    /// The mask: 1 for `TX_ABRT`.
    pub fn bits(&self) -> (r: u32)
        ensures
            r == (if self.tx_abrt() { 1u32 } else { 0u32 }),
    {
        proof {
            use_type_invariant(self);
        }
        self.bits
    }

    pub fn has_tx_abrt(&self) -> (r: bool)
        ensures
            r == self.tx_abrt(),
    {
        self.bits == DW_I2C_CMD_ERR_TX_ABRT
    }

    pub fn set_tx_abrt(&mut self)
        ensures
            final(self).tx_abrt(),
    {
        *self = DwI2cCmdErr { bits: DW_I2C_CMD_ERR_TX_ABRT };
    }
}

pub const I2C_M_RD: u32 = 0x0001;
pub const I2C_CLIENT_PEC: u32 = 0x0004;
pub const I2C_M_TEN: u32 = 0x0010;
pub const I2C_M_RECV_LEN: u32 = 0x0400;

/// The flags of one message.
#[derive(Clone, Copy, Debug, PartialEq, Eq, Structural)]
pub struct I2cMsgFlags {
    bits: u32,
}

impl I2cMsgFlags {
    #[verifier::type_invariant]
    spec fn inv(self) -> bool {
        self.bits & !0x415u32 == 0
    }

    /// The message reads from the target.
    pub closed spec fn read(self) -> bool {
        self.bits & I2C_M_RD != 0
    }

    /// The target has a 10-bit address.
    pub closed spec fn ten(self) -> bool {
        self.bits & I2C_M_TEN != 0
    }

    /// The first byte received tells how many follow.
    pub closed spec fn recv_len(self) -> bool {
        self.bits & I2C_M_RECV_LEN != 0
    }

    /// A packet error code follows the data.
    pub closed spec fn pec(self) -> bool {
        self.bits & I2C_CLIENT_PEC != 0
    }

    /// The flags of `self` are those of `other` too.
    pub open spec fn le(self, other: Self) -> bool {
        &&& self.read() ==> other.read()
        &&& self.ten() ==> other.ten()
        &&& self.recv_len() ==> other.recv_len()
        &&& self.pec() ==> other.pec()
    }

    /// The mask that the four flags make.
    pub open spec fn mask_of(read: bool, ten: bool, recv_len: bool, pec: bool) -> int {
        (if read { 0x1int } else { 0 }) + (if pec { 0x4int } else { 0 }) + (if ten { 0x10int } else { 0 })
            + (if recv_len { 0x400int } else { 0 })
    }

    pub fn empty() -> (r: Self)
        ensures
            !r.read() && !r.ten() && !r.recv_len() && !r.pec(),
    {
        proof {
            lemma_msg_flag_masks();
            lemma_msg_flag_bits(0, 0);
        }
        I2cMsgFlags { bits: 0 }
    }

    /// The set with the given mask, if the mask holds no unknown bit.
    pub fn from_bits(bits: u32) -> (r: Option<Self>)
        ensures
            r.is_some() == exists|a: bool, b: bool, c: bool, d: bool|
                bits == Self::mask_of(a, b, c, d),
            r matches Some(f) ==> bits == Self::mask_of(f.read(), f.ten(), f.recv_len(), f.pec()),
    {
        if bits & !0x415u32 == 0 {
            proof {
                lemma_msg_flag_masks();
                lemma_msg_flag_bits(bits, 0);
                assert(bits == Self::mask_of(
                    bits & 0x1 != 0,
                    bits & 0x10 != 0,
                    bits & 0x400 != 0,
                    bits & 0x4 != 0,
                ));
            }
            Some(I2cMsgFlags { bits })
        } else {
            proof {
                assert forall|a: bool, b: bool, c: bool, d: bool|
                    bits != Self::mask_of(a, b, c, d) by {
                    lemma_msg_flag_masks();
                }
            }
            None
        }
    }

    /// The mask: 0x1 read, 0x4 packet error code, 0x10 ten-bit address, 0x400 length first.
    pub fn bits(&self) -> (r: u32)
        ensures
            r == Self::mask_of(self.read(), self.ten(), self.recv_len(), self.pec()),
    {
        proof {
            use_type_invariant(self);
            lemma_msg_flag_masks();
            lemma_msg_flag_bits(self.bits, 0);
        }
        self.bits
    }

    pub fn master_read() -> (r: Self)
        ensures
            r.read() && !r.ten() && !r.recv_len() && !r.pec(),
    {
        proof {
            lemma_msg_flag_masks();
            lemma_msg_flag_bits(I2C_M_RD, 0);
        }
        I2cMsgFlags { bits: I2C_M_RD }
    }

    pub fn addr_ten() -> (r: Self)
        ensures
            !r.read() && r.ten() && !r.recv_len() && !r.pec(),
    {
        proof {
            lemma_msg_flag_masks();
            lemma_msg_flag_bits(I2C_M_TEN, 0);
        }
        I2cMsgFlags { bits: I2C_M_TEN }
    }

    pub fn master_recv_len() -> (r: Self)
        ensures
            !r.read() && !r.ten() && r.recv_len() && !r.pec(),
    {
        proof {
            lemma_msg_flag_masks();
            lemma_msg_flag_bits(I2C_M_RECV_LEN, 0);
        }
        I2cMsgFlags { bits: I2C_M_RECV_LEN }
    }

    pub fn client_pec() -> (r: Self)
        ensures
            !r.read() && !r.ten() && !r.recv_len() && r.pec(),
    {
        proof {
            lemma_msg_flag_masks();
            lemma_msg_flag_bits(I2C_CLIENT_PEC, 0);
        }
        I2cMsgFlags { bits: I2C_CLIENT_PEC }
    }

    /// The flags of either set.
    pub fn union(self, other: Self) -> (r: Self)
        ensures
            r.read() == (self.read() || other.read()),
            r.ten() == (self.ten() || other.ten()),
            r.recv_len() == (self.recv_len() || other.recv_len()),
            r.pec() == (self.pec() || other.pec()),
    {
        proof {
            use_type_invariant(self);
            use_type_invariant(other);
            lemma_msg_flag_bits(self.bits, other.bits);
        }
        I2cMsgFlags { bits: self.bits | other.bits }
    }

    /// Whether every flag of `other` is in `self`.
    pub fn contains(&self, other: Self) -> (r: bool)
        ensures
            r == other.le(*self),
    {
        proof {
            use_type_invariant(self);
            use_type_invariant(other);
            lemma_msg_flag_bits(self.bits, other.bits);
        }
        self.bits & other.bits == other.bits
    }

    /// Takes the flags of `other` out of `self`.
    pub fn remove(&mut self, other: Self)
        ensures
            final(self).read() == (old(self).read() && !other.read()),
            final(self).ten() == (old(self).ten() && !other.ten()),
            final(self).recv_len() == (old(self).recv_len() && !other.recv_len()),
            final(self).pec() == (old(self).pec() && !other.pec()),
    {
        proof {
            use_type_invariant(&*self);
            use_type_invariant(other);
            lemma_msg_flag_bits(self.bits, other.bits);
        }
        *self = I2cMsgFlags { bits: self.bits & !other.bits };
    }
}

proof fn lemma_msg_flag_bits(a: u32, b: u32)
    by (bit_vector)
    requires
        a & !0x415u32 == 0,
        b & !0x415u32 == 0,
    ensures
        a == (if a & 0x1 != 0 { 0x1u32 } else { 0 }) + (if a & 0x4 != 0 { 0x4u32 } else { 0 }) + (if a
            & 0x10 != 0 { 0x10u32 } else { 0 }) + (if a & 0x400 != 0 { 0x400u32 } else { 0 }),
        (a | b) & !0x415u32 == 0,
        (a & !b) & !0x415u32 == 0,
        ((a | b) & 0x1 != 0) == (a & 0x1 != 0 || b & 0x1 != 0),
        ((a | b) & 0x4 != 0) == (a & 0x4 != 0 || b & 0x4 != 0),
        ((a | b) & 0x10 != 0) == (a & 0x10 != 0 || b & 0x10 != 0),
        ((a | b) & 0x400 != 0) == (a & 0x400 != 0 || b & 0x400 != 0),
        ((a & !b) & 0x1 != 0) == (a & 0x1 != 0 && b & 0x1 == 0),
        ((a & !b) & 0x4 != 0) == (a & 0x4 != 0 && b & 0x4 == 0),
        ((a & !b) & 0x10 != 0) == (a & 0x10 != 0 && b & 0x10 == 0),
        ((a & !b) & 0x400 != 0) == (a & 0x400 != 0 && b & 0x400 == 0),
        (a & b == b) == ((b & 0x1 != 0 ==> a & 0x1 != 0) && (b & 0x4 != 0 ==> a & 0x4 != 0) && (b
            & 0x10 != 0 ==> a & 0x10 != 0) && (b & 0x400 != 0 ==> a & 0x400 != 0)),
{
}

proof fn lemma_msg_flag_masks()
    by (bit_vector)
    ensures
        forall|m: u32|
            (m == 0 || m == 0x1 || m == 0x4 || m == 0x5 || m == 0x10 || m == 0x11 || m == 0x14 || m
                == 0x15 || m == 0x400 || m == 0x401 || m == 0x404 || m == 0x405 || m == 0x410 || m
                == 0x411 || m == 0x414 || m == 0x415) ==> #[trigger] (m & !0x415u32) == 0,
{
}

pub const I2C_FUNC_I2C: u32 = 0x0000_0001;
pub const I2C_FUNC_10BIT_ADDR: u32 = 0x0000_0002;
pub const I2C_FUNC_SMBUS_BYTE: u32 = 0x0006_0000;
pub const I2C_FUNC_SMBUS_BYTE_DATA: u32 = 0x0018_0000;
pub const I2C_FUNC_SMBUS_WORD_DATA: u32 = 0x0060_0000;
pub const I2C_FUNC_SMBUS_BLOCK_DATA: u32 = 0x0300_0000;
pub const I2C_FUNC_SMBUS_I2C_BLOCK: u32 = 0x0c00_0000;

/// What every DesignWare controller can do: plain I2C and the SMBus byte,
/// byte data, word data, block data and I2C block transfers.
pub const DW_I2C_DEFAULT_FUNCTIONALITY: u32 = 0x0f7e_0001;

/// What an adapter can do.
#[derive(Clone, Copy, Debug, PartialEq, Eq, Structural)]
pub struct I2cFuncFlags {
    pub bits: u32,
}

impl I2cFuncFlags {
    pub open spec fn spec_bits(self) -> u32 {
        self.bits
    }

    /// Every bit of `other` is in `self`.
    pub open spec fn spec_contains(self, other: Self) -> bool {
        self.spec_bits() & other.spec_bits() == other.spec_bits()
    }

    /// The set with exactly the bits of `bits`.
    pub fn from_bits_retain(bits: u32) -> (r: Self)
        ensures
            r.spec_bits() == bits,
    {
        I2cFuncFlags { bits }
    }

    pub fn bits(&self) -> (r: u32)
        ensures
            r == self.spec_bits(),
    {
        self.bits
    }

    pub fn ten_bit_addr() -> (r: Self)
        ensures
            r.spec_bits() == I2C_FUNC_10BIT_ADDR,
    {
        I2cFuncFlags { bits: I2C_FUNC_10BIT_ADDR }
    }

    /// The bits of either set.
    pub fn union(self, other: Self) -> (r: Self)
        ensures
            r.spec_bits() == self.spec_bits() | other.spec_bits(),
    {
        I2cFuncFlags { bits: self.bits | other.bits }
    }

    pub fn contains(&self, other: Self) -> (r: bool)
        ensures
            r == self.spec_contains(other),
    {
        self.bits & other.bits == other.bits
    }
}

} // verus!
