//! The register map of the controller: register names, bit fields, and the
//! operations on a local copy of a register value.
//!
//! A field is described by its unshifted mask and its offset, as
//! `tock-registers` does. The bit operations themselves are those of
//! `tock_registers::LocalRegisterCopy`; the functions of this module state
//! what they compute.

use tock_registers::fields::{Field, FieldValue};
use tock_registers::LocalRegisterCopy;
use vstd::prelude::*;

verus! {

/// The value of the component type register of a DesignWare I2C block:
/// the letters "DW" followed by 0x0140.
pub const DW_IC_COMP_TYPE_VALUE: u32 = 0x44570140;

/// The first component version whose SDA hold time can be adjusted.
pub const DW_IC_SDA_HOLD_MIN_VERS: u32 = 0x3131312A;

// IC_CON
pub const IC_CON_MASTER_MODE: u32 = 0;
pub const IC_CON_SPEED: u32 = 1;
pub const IC_CON_SPEED_MASK: u32 = 0x3;
pub const IC_CON_10BITADDR_MASTER: u32 = 4;
pub const IC_CON_RESTART_EN: u32 = 5;
pub const IC_CON_SLAVE_DISABLE: u32 = 6;
pub const IC_CON_BUS_CLEAR_FEATURE_CTRL: u32 = 11;

// IC_TAR
pub const IC_TAR_TAR: u32 = 0;
pub const IC_TAR_TAR_MASK: u32 = 0x3ff;
pub const IC_TAR_10BITADDR_MASTER: u32 = 12;

// IC_DATA_CMD
pub const IC_DATA_CMD_DAT: u32 = 0;
pub const IC_DATA_CMD_DAT_MASK: u32 = 0xff;
pub const IC_DATA_CMD_CMD: u32 = 8;
pub const IC_DATA_CMD_STOP: u32 = 9;
pub const IC_DATA_CMD_RESTART: u32 = 10;

// IC_INTR_STAT, IC_INTR_MASK, IC_RAW_INTR_STAT
pub const IC_INTR_RX_UNDER: u32 = 0;
pub const IC_INTR_RX_OVER: u32 = 1;
pub const IC_INTR_RX_FULL: u32 = 2;
pub const IC_INTR_TX_OVER: u32 = 3;
pub const IC_INTR_TX_EMPTY: u32 = 4;
pub const IC_INTR_RD_REQ: u32 = 5;
pub const IC_INTR_TX_ABRT: u32 = 6;
pub const IC_INTR_RX_DONE: u32 = 7;
pub const IC_INTR_ACTIVITY: u32 = 8;
pub const IC_INTR_STOP_DET: u32 = 9;
pub const IC_INTR_START_DET: u32 = 10;
pub const IC_INTR_GEN_CALL: u32 = 11;
pub const IC_INTR_MST_ON_HOLD: u32 = 13;

// IC_ENABLE
pub const IC_ENABLE_ENABLE: u32 = 0;
pub const IC_ENABLE_ABORT: u32 = 1;

// IC_STATUS
pub const IC_STATUS_ACTIVITY: u32 = 0;

// IC_SDA_HOLD
pub const IC_SDA_HOLD_TX: u32 = 0;
pub const IC_SDA_HOLD_TX_MASK: u32 = 0xffff;
pub const IC_SDA_HOLD_RX: u32 = 16;
pub const IC_SDA_HOLD_RX_MASK: u32 = 0xff;

// IC_TX_ABRT_SOURCE
pub const IC_TX_ABRT_7B_ADDR_NOACK: u32 = 0;
pub const IC_TX_ABRT_10ADDR1_NOACK: u32 = 1;
pub const IC_TX_ABRT_10ADDR2_NOACK: u32 = 2;
pub const IC_TX_ABRT_TXDATA_NOACK: u32 = 3;
pub const IC_TX_ABRT_GCALL_NOACK: u32 = 4;
pub const IC_TX_ABRT_GCALL_READ: u32 = 5;
pub const IC_TX_ABRT_ARB_LOST: u32 = 12;

// IC_ENABLE_STATUS
pub const IC_ENABLE_STATUS_IC_EN: u32 = 0;

// IC_COMP_PARAM_1
pub const IC_COMP_PARAM_1_MAX_SPEED_MODE: u32 = 2;
pub const IC_COMP_PARAM_1_MAX_SPEED_MODE_MASK: u32 = 0x3;
pub const IC_COMP_PARAM_1_RX_BUFFER_DEPTH: u32 = 8;
pub const IC_COMP_PARAM_1_TX_BUFFER_DEPTH: u32 = 16;
pub const IC_COMP_PARAM_1_BUFFER_DEPTH_MASK: u32 = 0xff;

/// The registers that the driver reads and writes.
#[derive(Clone, Copy, Debug, PartialEq, Eq, Structural)]
pub enum Reg {
    Con,
    Tar,
    DataCmd,
    SsSclHcnt,
    SsSclLcnt,
    FsSclHcnt,
    FsSclLcnt,
    HsSclHcnt,
    HsSclLcnt,
    IntrMask,
    RawIntrStat,
    RxTl,
    TxTl,
    ClrIntr,
    ClrRxUnder,
    ClrRxOver,
    ClrTxOver,
    ClrRdReq,
    ClrTxAbrt,
    ClrRxDone,
    ClrActivity,
    ClrStopDet,
    ClrStartDet,
    ClrGenCall,
    Enable,
    Status,
    SdaHold,
    EnableStatus,
}

/// One access to the register block, to be carried out by whoever holds it.
#[derive(Clone, Copy, Debug, PartialEq, Eq, Structural)]
pub enum HwOp {
    /// Store `value` in the register.
    Write { reg: Reg, value: u32 },
    /// Read the register, replace the field `mask << shift` by `value`, store the result.
    Modify { reg: Reg, mask: u32, shift: u32, value: u32 },
    /// Read the register for its side effect and drop the value.
    Touch { reg: Reg },
}

/// Whether any bit of the field is set in `value`.
pub open spec fn field_is_set(value: u32, mask: u32, shift: u32) -> bool {
    value & (mask << shift) != 0
}

/// The field's content, moved down to bit 0.
pub open spec fn field_read(value: u32, mask: u32, shift: u32) -> u32 {
    (value & (mask << shift)) >> shift
}

/// `value` with the field replaced by the low bits of `x`.
pub open spec fn field_modify(value: u32, mask: u32, shift: u32, x: u32) -> u32 {
    (value & !(mask << shift)) | ((x & mask) << shift)
}

/// Whether the single bit at `offset` is set in `value`.
pub open spec fn bit(value: u32, offset: u32) -> bool {
    field_is_set(value, 1, offset)
}

/// `LocalRegisterCopy::is_set` of tock-registers on a copy holding `value`:
/// true when the value has a bit in common with the field's shifted mask.
#[verifier::external_body]
pub(crate) fn reg_is_set(value: u32, mask: u32, shift: u32) -> (r: bool)
    requires
        shift < 32,
    ensures
        r == field_is_set(value, mask, shift),
{
    LocalRegisterCopy::<u32>::new(value).is_set(Field::new(mask, shift as usize))
}

/// `LocalRegisterCopy::read` of tock-registers on a copy holding `value`:
/// the bits under the field's shifted mask, shifted down by the field's offset.
#[verifier::external_body]
pub(crate) fn reg_read(value: u32, mask: u32, shift: u32) -> (r: u32)
    requires
        shift < 32,
    ensures
        r == field_read(value, mask, shift),
{
    LocalRegisterCopy::<u32>::new(value).read(Field::new(mask, shift as usize))
}

/// `LocalRegisterCopy::modify` of tock-registers on a copy holding `value`,
/// with the field value built by `FieldValue::new(mask, shift, x)`: the bits
/// under the shifted mask are replaced by `x & mask`, the others stay.
#[verifier::external_body]
pub(crate) fn reg_modify(value: u32, mask: u32, shift: u32, x: u32) -> (r: u32)
    requires
        shift < 32,
    ensures
        r == field_modify(value, mask, shift, x),
{
    let mut copy = LocalRegisterCopy::<u32>::new(value);
    copy.modify(FieldValue::<u32, ()>::new(mask, shift as usize, x));
    copy.get()
}

/// Whether the bits of `value` under the field's shifted mask are exactly `x & mask`.
pub open spec fn field_matches(value: u32, mask: u32, shift: u32, x: u32) -> bool {
    value & (mask << shift) == (x & mask) << shift
}

/// Whether `value` matches one of the field values of `fields`, each an
/// unshifted mask, an offset and a value.
pub open spec fn matches_any(value: u32, fields: Seq<(u32, u32, u32)>) -> bool {
    exists|i: int|
        0 <= i < fields.len() && field_matches(
            value,
            (#[trigger] fields[i]).0,
            fields[i].1,
            fields[i].2,
        )
}

/// `LocalRegisterCopy::matches_any` of tock-registers on a copy holding
/// `value`, with each field value built by `FieldValue::new`: true when, for
/// one of them, the bits under its shifted mask are exactly its value.
#[verifier::external_body]
pub(crate) fn reg_matches_any(value: u32, fields: &Vec<(u32, u32, u32)>) -> (r: bool)
    requires
        forall|i: int| 0 <= i < fields@.len() ==> (#[trigger] fields@[i]).1 < 32,
    ensures
        r == matches_any(value, fields@),
{
    let values: Vec<FieldValue<u32, ()>> = fields
        .iter()
        .map(|f| FieldValue::<u32, ()>::new(f.0, f.1 as usize, f.2))
        .collect();
    LocalRegisterCopy::<u32>::new(value).matches_any(&values)
}

/// Whether the single bit at `offset` is set in `value`.
pub fn bit_is_set(value: u32, offset: u32) -> (r: bool)
    requires
        offset < 32,
    ensures
        r == bit(value, offset),
{
    reg_is_set(value, 1, offset)
}

/// `value` with the single bit at `offset` set or cleared.
pub fn with_bit(value: u32, offset: u32, on: bool) -> (r: u32)
    requires
        offset < 32,
    ensures
        r == field_modify(value, 1, offset, if on { 1u32 } else { 0u32 }),
{
    reg_modify(value, 1, offset, if on { 1 } else { 0 })
}

/// Matching a single bit against the value 1 is asking whether it is set.
pub proof fn lemma_single_bit_matches(value: u32, offset: u32)
    by (bit_vector)
    requires
        offset < 32,
    ensures
        field_matches(value, 1, offset, 1) == bit(value, offset),
{
}

/// The word to store in IC_TAR: the target's address in the low ten bits,
/// and bit 12 set where the address has ten bits.
pub open spec fn tar_value(addr: u16, ten: bool) -> u32 {
    (addr % 0x400 + if ten { 0x1000int } else { 0 }) as u32
}

proof fn lemma_tar_bits(a: u32)
    by (bit_vector)
    requires
        a <= 0xffff,
    ensures
        field_modify(0, 1, 12, 1) == 0x1000,
        field_modify(0, 0x3ff, 0, a) == a % 0x400,
        field_modify(0x1000, 0x3ff, 0, a) == 0x1000 + a % 0x400,
{
}

/// Builds the word to store in IC_TAR.
pub fn make_tar(addr: u16, ten: bool) -> (tar: u32)
    ensures
        tar == tar_value(addr, ten),
{
    proof {
        lemma_tar_bits(addr as u32);
    }
    let mut tar: u32 = 0;
    if ten {
        tar = reg_modify(tar, 1, IC_TAR_10BITADDR_MASTER, 1);
    }
    reg_modify(tar, IC_TAR_TAR_MASK, IC_TAR_TAR, addr as u32)
}

/// The interrupts that a running transaction listens to: RX_FULL, TX_EMPTY,
/// TX_ABRT and STOP_DET.
pub const DW_IC_INTR_MASTER_MASK: u32 = 0x254;

/// The same without TX_EMPTY.
pub const DW_IC_INTR_MASTER_MASK_NO_TX_EMPTY: u32 = 0x244;

/// The word to store in IC_DATA_CMD for one byte slot: bit 9 asks for a stop
/// after it, bit 10 for a restart before it, bit 8 makes it a read, and a
/// write carries its byte in the low eight bits.
pub open spec fn data_cmd(stop: bool, restart: bool, read: bool, data: u8) -> u32 {
    ((if stop { 0x200int } else { 0 }) + (if restart { 0x400int } else { 0 }) + (if read {
        0x100int
    } else {
        data as int
    })) as u32
}

proof fn lemma_data_cmd_bits(d: u32)
    by (bit_vector)
    requires
        d <= 0xff,
    ensures
        field_modify(0, 1, 9, 1) == 0x200,
        field_modify(0, 1, 10, 1) == 0x400,
        field_modify(0x200, 1, 10, 1) == 0x600,
        field_modify(0, 1, 8, 1) == 0x100,
        field_modify(0x200, 1, 8, 1) == 0x300,
        field_modify(0x400, 1, 8, 1) == 0x500,
        field_modify(0x600, 1, 8, 1) == 0x700,
        field_modify(0, 0xff, 0, d) == d,
        field_modify(0x200, 0xff, 0, d) == 0x200 + d,
        field_modify(0x400, 0xff, 0, d) == 0x400 + d,
        field_modify(0x600, 0xff, 0, d) == 0x600 + d,
{
}

/// Builds the word to store in IC_DATA_CMD for one byte slot.
pub fn make_data_cmd(stop: bool, restart: bool, read: bool, data: u8) -> (cmd: u32)
    ensures
        cmd == data_cmd(stop, restart, read, data),
{
    proof {
        lemma_data_cmd_bits(data as u32);
    }
    let mut cmd: u32 = 0;
    if stop {
        cmd = reg_modify(cmd, 1, IC_DATA_CMD_STOP, 1);
    }
    if restart {
        cmd = reg_modify(cmd, 1, IC_DATA_CMD_RESTART, 1);
    }
    if read {
        cmd = reg_modify(cmd, 1, IC_DATA_CMD_CMD, 1);
    } else {
        cmd = reg_modify(cmd, IC_DATA_CMD_DAT_MASK, IC_DATA_CMD_DAT, data as u32);
    }
    cmd
}

proof fn lemma_intr_mask_bits()
    by (bit_vector)
    ensures
        field_modify(0, 1, 2, 1) == 0x4,
        field_modify(0x4, 1, 6, 1) == 0x44,
        field_modify(0x44, 1, 9, 1) == 0x244,
        field_modify(0x244, 1, 4, 1) == 0x254,
        field_modify(0x254, 1, 4, 0) == 0x244,
        field_modify(0x244, 1, 4, 0) == 0x244,
{
}

/// The interrupt mask of a running transaction, with or without TX_EMPTY.
pub fn master_intr_mask(tx_empty: bool) -> (mask: u32)
    ensures
        mask == (if tx_empty {
            DW_IC_INTR_MASTER_MASK
        } else {
            DW_IC_INTR_MASTER_MASK_NO_TX_EMPTY
        }),
{
    proof {
        lemma_intr_mask_bits();
    }
    let mut mask: u32 = 0;
    mask = reg_modify(mask, 1, IC_INTR_RX_FULL, 1);
    mask = reg_modify(mask, 1, IC_INTR_TX_ABRT, 1);
    mask = reg_modify(mask, 1, IC_INTR_STOP_DET, 1);
    mask = reg_modify(mask, 1, IC_INTR_TX_EMPTY, 1);
    if !tx_empty {
        mask = reg_modify(mask, 1, IC_INTR_TX_EMPTY, 0);
    }
    mask
}

} // verus!
