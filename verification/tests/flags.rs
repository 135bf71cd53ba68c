use dw_apb_i2c::flags::{DwI2cCmdErr, DwI2cStatus, I2cFuncFlags, I2cMsgFlags};

#[test]
fn status_flags_are_independent() {
    let mut s = DwI2cStatus::empty();
    assert!(s.is_empty());
    s.set_active(true);
    assert!(s.is_active());
    assert!(!s.is_write_in_progress());
    assert_eq!(s.bits(), 1);
    s.set_write_in_progress(true);
    assert_eq!(s.bits(), 3);
    s.set_active(false);
    assert!(!s.is_active());
    assert!(s.is_write_in_progress());
    assert!(!s.is_empty());
    s.set_write_in_progress(false);
    assert!(s.is_empty());
}

#[test]
fn cmd_err_from_bits() {
    assert!(DwI2cCmdErr::from_bits(0).is_some());
    assert!(!DwI2cCmdErr::from_bits(0).unwrap().has_tx_abrt());
    assert!(DwI2cCmdErr::from_bits(1).unwrap().has_tx_abrt());
    assert!(DwI2cCmdErr::from_bits(2).is_none());
    let mut e = DwI2cCmdErr::empty();
    e.set_tx_abrt();
    assert_eq!(e.bits(), 1);
}

#[test]
fn msg_flags_union_contains_remove() {
    let f = I2cMsgFlags::master_read().union(I2cMsgFlags::master_recv_len());
    assert_eq!(f.bits(), 0x401);
    assert!(f.contains(I2cMsgFlags::master_read()));
    assert!(f.contains(I2cMsgFlags::master_recv_len()));
    assert!(!f.contains(I2cMsgFlags::addr_ten()));
    assert!(!f.contains(I2cMsgFlags::client_pec()));
    assert!(f.contains(I2cMsgFlags::empty()));
    let mut g = f;
    g.remove(I2cMsgFlags::master_recv_len());
    assert_eq!(g.bits(), 0x001);
    assert_eq!(I2cMsgFlags::addr_ten().bits(), 0x10);
    assert_eq!(I2cMsgFlags::client_pec().bits(), 0x04);
}

#[test]
fn msg_flags_from_bits_rejects_unknown_bits() {
    assert!(I2cMsgFlags::from_bits(0x415).is_some());
    assert!(I2cMsgFlags::from_bits(0).is_some());
    assert!(I2cMsgFlags::from_bits(0x2).is_none());
    assert!(I2cMsgFlags::from_bits(0x8000).is_none());
    assert_eq!(I2cMsgFlags::from_bits(0x411).unwrap().bits(), 0x411);
}

#[test]
fn func_flags_union() {
    let f = I2cFuncFlags::from_bits_retain(0x0f7e_0001).union(I2cFuncFlags::ten_bit_addr());
    assert_eq!(f.bits(), 0x0f7e_0003);
    assert!(f.contains(I2cFuncFlags::ten_bit_addr()));
    assert!(!I2cFuncFlags::from_bits_retain(1).contains(I2cFuncFlags::ten_bit_addr()));
}
