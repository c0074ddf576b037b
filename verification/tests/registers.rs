//! Bit-field codec tests: exact packed words for each accessor form
//! (boolean, unsigned, signed), hardware defaults, silent truncation of
//! over-wide values, and round trips through get after set.

use tmc5130::bits;
use tmc5130::reg::{
    COOLCONF, DRV_STATUS, GCONF, IHOLD_IRUN, IOIN, MSLUTSEL, PWMCONF, RAMPMODE, SLAVECONF,
    SW_MODE, TPOWERDOWN, VACTUAL, XACTUAL, XTARGET,
};

#[test]
fn field_helpers_pack_and_unpack() {
    assert_eq!(bits::get(0xDEADBEEF, 8, 8), 0xBE);
    assert_eq!(bits::set(0, 4, 8, 0xAB), 0xAB0);
    // A value wider than the field is truncated to it.
    assert_eq!(bits::set(0, 4, 8, 0x1FF), 0xFF0);
    // Packing a field preserves every other bit.
    assert_eq!(bits::set(0xF000000F, 4, 8, 0xAB), 0xF0000ABF);
    assert_eq!(bits::get(bits::set(0x12345678, 12, 10, 0x2A7), 12, 10), 0x2A7);
    assert_eq!(bits::sign_extend_i32(0x80, 8), -128);
    assert_eq!(bits::sign_extend_i32(0x7F, 8), 127);
    assert_eq!(bits::bytes_of_word(0x01020304), vec![1, 2, 3, 4]);
}

#[test]
fn gconf_default_and_bool_fields() {
    let g = GCONF::default();
    assert_eq!(g, GCONF(0x41));
    assert!(g.i_scale_analog());
    assert!(g.diag0_otpw());
    assert!(!g.shaft());
    let mut g = GCONF(0);
    g.set_shaft(true);
    assert_eq!(g, GCONF(0x10));
    assert!(g.shaft());
    g.set_shaft(false);
    assert_eq!(g, GCONF(0));
    g.set_test_mode(true);
    assert_eq!(g, GCONF(0x20000));
}

#[test]
fn ihold_irun_fields() {
    let d = IHOLD_IRUN::default();
    assert_eq!(d, IHOLD_IRUN(0x1F00));
    assert_eq!(d.irun(), 31);
    assert_eq!(d.ihold(), 0);
    let mut r = IHOLD_IRUN(0);
    r.set_ihold(0x15);
    r.set_irun(0x0A);
    r.set_ihold_delay(3);
    assert_eq!(r, IHOLD_IRUN(0x00030A15));
    assert_eq!(r.ihold(), 0x15);
    assert_eq!(r.irun(), 0x0A);
    assert_eq!(r.ihold_delay(), 3);
    // ihold is five bits wide: writing 0x3F stores only the low five.
    r.set_ihold(0x3F);
    assert_eq!(r.ihold(), 0x1F);
}

#[test]
fn pwmconf_default_fields() {
    let p = PWMCONF::default();
    assert_eq!(p, PWMCONF(0xC10D0024));
    assert_eq!(p.pwm_ampl(), 0x24);
    assert_eq!(p.pwm_grad(), 0);
    assert_eq!(p.pwm_freq(), 1);
    assert!(p.pwm_autoscale());
    assert!(p.pwm_symmetric());
    assert_eq!(p.freewheel(), 0);
}

#[test]
fn slaveconf_fields() {
    let mut s = SLAVECONF(0);
    s.set_slaveaddr(0xAB);
    s.set_senddelay(0xF);
    assert_eq!(s, SLAVECONF(0x0FAB));
    assert_eq!(s.slaveaddr(), 0xAB);
    assert_eq!(s.senddelay(), 0xF);
    // senddelay is four bits wide.
    s.set_senddelay(0x12);
    assert_eq!(s.senddelay(), 0x2);
}

#[test]
fn rampmode_truncates_to_two_bits() {
    let mut r = RAMPMODE(0);
    r.set(5);
    assert_eq!(r, RAMPMODE(1));
    assert_eq!(r.get(), 1);
    r.set(3);
    assert_eq!(r.get(), 3);
}

#[test]
fn signed_full_width_registers() {
    assert_eq!(XACTUAL(0xFFFFFFFF).get(), -1);
    assert_eq!(XACTUAL(0x7FFFFFFF).get(), i32::MAX);
    let mut t = XTARGET(0);
    t.set(-5);
    assert_eq!(t, XTARGET(0xFFFFFFFB));
    assert_eq!(t.get(), -5);
}

#[test]
fn vactual_sign_extends_from_bit_23() {
    assert_eq!(VACTUAL(0x00FFFFFF).get(), -1);
    assert_eq!(VACTUAL(0x00800000).get(), -8388608);
    assert_eq!(VACTUAL(0x00000123).get(), 0x123);
    // Bits above the field play no part in the reading.
    assert_eq!(VACTUAL(0xFF000123).get(), 0x123);
}

#[test]
fn tpowerdown_signed_eight_bit_field() {
    let mut t = TPOWERDOWN(0);
    t.set(-1);
    assert_eq!(t, TPOWERDOWN(0xFF));
    assert_eq!(t.get(), -1);
    t.set(127);
    assert_eq!(t.get(), 127);
}

#[test]
fn coolconf_sgt_signed_seven_bit_field() {
    let mut c = COOLCONF(0);
    c.set_sgt(-1);
    assert_eq!(c, COOLCONF(0x007F0000));
    assert_eq!(c.sgt(), -1);
    c.set_sgt(5);
    assert_eq!(c, COOLCONF(0x00050000));
    assert_eq!(c.sgt(), 5);
    c.set_sgt(-64);
    assert_eq!(c.sgt(), -64);
    c.set_seup(3);
    assert_eq!(c.seup(), 3);
    c.set_sfilt(true);
    assert!(c.sfilt());
}

#[test]
fn ioin_read_only_fields() {
    let i = IOIN(0x11000080);
    assert_eq!(i.version(), 0x11);
    assert!(i.swcomp_in());
    assert!(!i.refl_step());
}

#[test]
fn sw_mode_bits() {
    let mut s = SW_MODE(0);
    s.set_sg_stop(true);
    assert_eq!(s, SW_MODE(0x400));
    s.set_en_softstop(true);
    assert_eq!(s, SW_MODE(0xC00));
    assert!(s.sg_stop());
    s.set_sg_stop(false);
    assert_eq!(s, SW_MODE(0x800));
}

#[test]
fn mslutsel_fields() {
    let mut m = MSLUTSEL(0);
    m.set_x3(0xAB);
    m.set_w0(2);
    assert_eq!(m, MSLUTSEL(0xAB000002));
    assert_eq!(m.x3(), 0xAB);
    assert_eq!(m.w0(), 2);
}

#[test]
fn drv_status_read_only_fields() {
    let d = DRV_STATUS(0x80000000);
    assert!(d.stst());
    assert!(!d.stallguard());
    let d = DRV_STATUS(0x001F03FF);
    assert_eq!(d.sg_result(), 0x3FF);
    assert_eq!(d.cs_actual(), 0x1F);
}
