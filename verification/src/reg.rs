//! The TMC5130 register catalog: one concrete value type per register, the
//! dynamic `State` tagged union over all of them, the 7-bit address space,
//! and the fixed register map that holds the last-known value of every
//! register.
//!
//! Field accessors mask and shift against the field's declared bit width via
//! the codec in `bits`; writing a value wider than a field truncates it to
//! the field's width.

#![allow(non_camel_case_types)]

use vstd::prelude::*;
use vstd::pervasive::unreached;
use crate::bits;

verus! {

/// An error that might occur in the case that an address could not be parsed.
#[derive(Clone, Copy, Debug, PartialEq, Eq, Structural)]
pub struct UnknownAddress;

/// An error indicating an unexpected `State` tag.
#[derive(Clone, Copy, Debug, PartialEq, Eq, Structural)]
pub struct UnexpectedAddress;

/// The 8-bit value echoed in the address phase of every transaction: the
/// transport-reported status of the previous operation on the bus.  Carried
/// through opaquely, with no bits interpreted at this layer.
#[derive(Clone, Copy, Debug, PartialEq, Eq, Structural, Hash)]
pub struct SPISTATUS(pub u8);

/// The total number of documented registers in the TMC5130.
pub const COUNT: usize = 49;

/// A dynamic representation of a register's 7-bit address.
#[derive(Clone, Copy, Debug, PartialEq, Eq, Structural, Hash)]
pub enum Address {
    GCONF,
    GSTAT,
    IFCNT,
    SLAVECONF,
    IOIN,
    X_COMPARE,
    IHOLD_IRUN,
    TPOWERDOWN,
    TSTEP,
    TPWMTHRS,
    TCOOLTHRS,
    THIGH,
    RAMPMODE,
    XACTUAL,
    VACTUAL,
    VSTART,
    A1,
    V1,
    AMAX,
    VMAX,
    DMAX,
    D1,
    VSTOP,
    TZEROWAIT,
    XTARGET,
    VDCMIN,
    SW_MODE,
    RAMP_STAT,
    XLATCH,
    MSLUT0,
    MSLUT1,
    MSLUT2,
    MSLUT3,
    MSLUT4,
    MSLUT5,
    MSLUT6,
    MSLUT7,
    MSLUTSEL,
    MSLUTSTART,
    MSCNT,
    MSCURACT,
    CHOPCONF,
    COOLCONF,
    DCCTRL,
    DRV_STATUS,
    PWMCONF,
    PWM_SCALE,
    ENCM_CTRL,
    LOST_STEPS,
}

/// The 7-bit wire value of the register address `a`.
pub open spec fn spec_addr_value(a: Address) -> u8 {
    match a {
        Address::GCONF => 0x00,
        Address::GSTAT => 0x01,
        Address::IFCNT => 0x02,
        Address::SLAVECONF => 0x03,
        Address::IOIN => 0x04,
        Address::X_COMPARE => 0x05,
        Address::IHOLD_IRUN => 0x10,
        Address::TPOWERDOWN => 0x11,
        Address::TSTEP => 0x12,
        Address::TPWMTHRS => 0x13,
        Address::TCOOLTHRS => 0x14,
        Address::THIGH => 0x15,
        Address::RAMPMODE => 0x20,
        Address::XACTUAL => 0x21,
        Address::VACTUAL => 0x22,
        Address::VSTART => 0x23,
        Address::A1 => 0x24,
        Address::V1 => 0x25,
        Address::AMAX => 0x26,
        Address::VMAX => 0x27,
        Address::DMAX => 0x28,
        Address::D1 => 0x2A,
        Address::VSTOP => 0x2B,
        Address::TZEROWAIT => 0x2C,
        Address::XTARGET => 0x2D,
        Address::VDCMIN => 0x33,
        Address::SW_MODE => 0x34,
        Address::RAMP_STAT => 0x35,
        Address::XLATCH => 0x36,
        Address::MSLUT0 => 0x60,
        Address::MSLUT1 => 0x61,
        Address::MSLUT2 => 0x62,
        Address::MSLUT3 => 0x63,
        Address::MSLUT4 => 0x64,
        Address::MSLUT5 => 0x65,
        Address::MSLUT6 => 0x66,
        Address::MSLUT7 => 0x67,
        Address::MSLUTSEL => 0x68,
        Address::MSLUTSTART => 0x69,
        Address::MSCNT => 0x6A,
        Address::MSCURACT => 0x6B,
        Address::CHOPCONF => 0x6C,
        Address::COOLCONF => 0x6D,
        Address::DCCTRL => 0x6E,
        Address::DRV_STATUS => 0x6F,
        Address::PWMCONF => 0x70,
        Address::PWM_SCALE => 0x71,
        Address::ENCM_CTRL => 0x72,
        Address::LOST_STEPS => 0x73,
    }
}

/// Whether a read request may be sent to the register at `a`.
pub open spec fn spec_readable(a: Address) -> bool {
    match a {
        Address::GCONF => true,
        Address::GSTAT => true,
        Address::IFCNT => true,
        Address::SLAVECONF => false,
        Address::IOIN => true,
        Address::X_COMPARE => true,
        Address::IHOLD_IRUN => false,
        Address::TPOWERDOWN => false,
        Address::TSTEP => false,
        Address::TPWMTHRS => false,
        Address::TCOOLTHRS => false,
        Address::THIGH => false,
        Address::RAMPMODE => true,
        Address::XACTUAL => true,
        Address::VACTUAL => true,
        Address::VSTART => false,
        Address::A1 => false,
        Address::V1 => false,
        Address::AMAX => false,
        Address::VMAX => false,
        Address::DMAX => false,
        Address::D1 => false,
        Address::VSTOP => false,
        Address::TZEROWAIT => false,
        Address::XTARGET => true,
        Address::VDCMIN => false,
        Address::SW_MODE => true,
        Address::RAMP_STAT => true,
        Address::XLATCH => true,
        Address::MSLUT0 => false,
        Address::MSLUT1 => false,
        Address::MSLUT2 => false,
        Address::MSLUT3 => false,
        Address::MSLUT4 => false,
        Address::MSLUT5 => false,
        Address::MSLUT6 => false,
        Address::MSLUT7 => false,
        Address::MSLUTSEL => false,
        Address::MSLUTSTART => false,
        Address::MSCNT => true,
        Address::MSCURACT => true,
        Address::CHOPCONF => true,
        Address::COOLCONF => false,
        Address::DCCTRL => false,
        Address::DRV_STATUS => true,
        Address::PWMCONF => false,
        Address::PWM_SCALE => true,
        Address::ENCM_CTRL => false,
        Address::LOST_STEPS => true,
    }
}

/// Whether a write request may be sent to the register at `a`.
pub open spec fn spec_writable(a: Address) -> bool {
    match a {
        Address::GCONF => true,
        Address::GSTAT => true,
        Address::IFCNT => false,
        Address::SLAVECONF => true,
        Address::IOIN => false,
        Address::X_COMPARE => false,
        Address::IHOLD_IRUN => true,
        Address::TPOWERDOWN => true,
        Address::TSTEP => true,
        Address::TPWMTHRS => true,
        Address::TCOOLTHRS => true,
        Address::THIGH => true,
        Address::RAMPMODE => true,
        Address::XACTUAL => true,
        Address::VACTUAL => false,
        Address::VSTART => true,
        Address::A1 => true,
        Address::V1 => true,
        Address::AMAX => true,
        Address::VMAX => true,
        Address::DMAX => true,
        Address::D1 => true,
        Address::VSTOP => true,
        Address::TZEROWAIT => true,
        Address::XTARGET => true,
        Address::VDCMIN => true,
        Address::SW_MODE => true,
        Address::RAMP_STAT => true,
        Address::XLATCH => false,
        Address::MSLUT0 => true,
        Address::MSLUT1 => true,
        Address::MSLUT2 => true,
        Address::MSLUT3 => true,
        Address::MSLUT4 => true,
        Address::MSLUT5 => true,
        Address::MSLUT6 => true,
        Address::MSLUT7 => true,
        Address::MSLUTSEL => true,
        Address::MSLUTSTART => true,
        Address::MSCNT => false,
        Address::MSCURACT => false,
        Address::CHOPCONF => true,
        Address::COOLCONF => true,
        Address::DCCTRL => true,
        Address::DRV_STATUS => false,
        Address::PWMCONF => true,
        Address::PWM_SCALE => false,
        Address::ENCM_CTRL => true,
        Address::LOST_STEPS => false,
    }
}

/// The hardware-documented default word of the register at `a` (zero where
/// the datasheet documents no default).
pub open spec fn spec_default_bits(a: Address) -> u32 {
    match a {
        Address::GCONF => 0x00000041,
        Address::GSTAT => 0x00000000,
        Address::IFCNT => 0x00000000,
        Address::SLAVECONF => 0x00000000,
        Address::IOIN => 0x00000000,
        Address::X_COMPARE => 0x00000000,
        Address::IHOLD_IRUN => 0x00001F00,
        Address::TPOWERDOWN => 0x00000000,
        Address::TSTEP => 0x00000000,
        Address::TPWMTHRS => 0x00000000,
        Address::TCOOLTHRS => 0x00000000,
        Address::THIGH => 0x00000000,
        Address::RAMPMODE => 0x00000000,
        Address::XACTUAL => 0x00000000,
        Address::VACTUAL => 0x00000000,
        Address::VSTART => 0x00000000,
        Address::A1 => 0x00000000,
        Address::V1 => 0x00000000,
        Address::AMAX => 0x00000000,
        Address::VMAX => 0x00000000,
        Address::DMAX => 0x00000000,
        Address::D1 => 0x00000000,
        Address::VSTOP => 0x00000000,
        Address::TZEROWAIT => 0x00000000,
        Address::XTARGET => 0x00000000,
        Address::VDCMIN => 0x00000000,
        Address::SW_MODE => 0x00000000,
        Address::RAMP_STAT => 0x00000000,
        Address::XLATCH => 0x00000000,
        Address::MSLUT0 => 0x00000000,
        Address::MSLUT1 => 0x00000000,
        Address::MSLUT2 => 0x00000000,
        Address::MSLUT3 => 0x00000000,
        Address::MSLUT4 => 0x00000000,
        Address::MSLUT5 => 0x00000000,
        Address::MSLUT6 => 0x00000000,
        Address::MSLUT7 => 0x00000000,
        Address::MSLUTSEL => 0x00000000,
        Address::MSLUTSTART => 0x00000000,
        Address::MSCNT => 0x00000000,
        Address::MSCURACT => 0x00000000,
        Address::CHOPCONF => 0x00000000,
        Address::COOLCONF => 0x00000000,
        Address::DCCTRL => 0x00000000,
        Address::DRV_STATUS => 0x00000000,
        Address::PWMCONF => 0xC10D0024,
        Address::PWM_SCALE => 0x00000000,
        Address::ENCM_CTRL => 0x00000000,
        Address::LOST_STEPS => 0x00000000,
    }
}

/// The catalog slot of the register at `a`: its index in address order.
pub open spec fn spec_slot(a: Address) -> int {
    match a {
        Address::GCONF => 0,
        Address::GSTAT => 1,
        Address::IFCNT => 2,
        Address::SLAVECONF => 3,
        Address::IOIN => 4,
        Address::X_COMPARE => 5,
        Address::IHOLD_IRUN => 6,
        Address::TPOWERDOWN => 7,
        Address::TSTEP => 8,
        Address::TPWMTHRS => 9,
        Address::TCOOLTHRS => 10,
        Address::THIGH => 11,
        Address::RAMPMODE => 12,
        Address::XACTUAL => 13,
        Address::VACTUAL => 14,
        Address::VSTART => 15,
        Address::A1 => 16,
        Address::V1 => 17,
        Address::AMAX => 18,
        Address::VMAX => 19,
        Address::DMAX => 20,
        Address::D1 => 21,
        Address::VSTOP => 22,
        Address::TZEROWAIT => 23,
        Address::XTARGET => 24,
        Address::VDCMIN => 25,
        Address::SW_MODE => 26,
        Address::RAMP_STAT => 27,
        Address::XLATCH => 28,
        Address::MSLUT0 => 29,
        Address::MSLUT1 => 30,
        Address::MSLUT2 => 31,
        Address::MSLUT3 => 32,
        Address::MSLUT4 => 33,
        Address::MSLUT5 => 34,
        Address::MSLUT6 => 35,
        Address::MSLUT7 => 36,
        Address::MSLUTSEL => 37,
        Address::MSLUTSTART => 38,
        Address::MSCNT => 39,
        Address::MSCURACT => 40,
        Address::CHOPCONF => 41,
        Address::COOLCONF => 42,
        Address::DCCTRL => 43,
        Address::DRV_STATUS => 44,
        Address::PWMCONF => 45,
        Address::PWM_SCALE => 46,
        Address::ENCM_CTRL => 47,
        Address::LOST_STEPS => 48,
    }
}

/// The catalog address held in slot `i`.
pub open spec fn spec_addr_at(i: int) -> Address {
    if i == 0 {
        Address::GCONF
    } else if i == 1 {
        Address::GSTAT
    } else if i == 2 {
        Address::IFCNT
    } else if i == 3 {
        Address::SLAVECONF
    } else if i == 4 {
        Address::IOIN
    } else if i == 5 {
        Address::X_COMPARE
    } else if i == 6 {
        Address::IHOLD_IRUN
    } else if i == 7 {
        Address::TPOWERDOWN
    } else if i == 8 {
        Address::TSTEP
    } else if i == 9 {
        Address::TPWMTHRS
    } else if i == 10 {
        Address::TCOOLTHRS
    } else if i == 11 {
        Address::THIGH
    } else if i == 12 {
        Address::RAMPMODE
    } else if i == 13 {
        Address::XACTUAL
    } else if i == 14 {
        Address::VACTUAL
    } else if i == 15 {
        Address::VSTART
    } else if i == 16 {
        Address::A1
    } else if i == 17 {
        Address::V1
    } else if i == 18 {
        Address::AMAX
    } else if i == 19 {
        Address::VMAX
    } else if i == 20 {
        Address::DMAX
    } else if i == 21 {
        Address::D1
    } else if i == 22 {
        Address::VSTOP
    } else if i == 23 {
        Address::TZEROWAIT
    } else if i == 24 {
        Address::XTARGET
    } else if i == 25 {
        Address::VDCMIN
    } else if i == 26 {
        Address::SW_MODE
    } else if i == 27 {
        Address::RAMP_STAT
    } else if i == 28 {
        Address::XLATCH
    } else if i == 29 {
        Address::MSLUT0
    } else if i == 30 {
        Address::MSLUT1
    } else if i == 31 {
        Address::MSLUT2
    } else if i == 32 {
        Address::MSLUT3
    } else if i == 33 {
        Address::MSLUT4
    } else if i == 34 {
        Address::MSLUT5
    } else if i == 35 {
        Address::MSLUT6
    } else if i == 36 {
        Address::MSLUT7
    } else if i == 37 {
        Address::MSLUTSEL
    } else if i == 38 {
        Address::MSLUTSTART
    } else if i == 39 {
        Address::MSCNT
    } else if i == 40 {
        Address::MSCURACT
    } else if i == 41 {
        Address::CHOPCONF
    } else if i == 42 {
        Address::COOLCONF
    } else if i == 43 {
        Address::DCCTRL
    } else if i == 44 {
        Address::DRV_STATUS
    } else if i == 45 {
        Address::PWMCONF
    } else if i == 46 {
        Address::PWM_SCALE
    } else if i == 47 {
        Address::ENCM_CTRL
    } else if i == 48 {
        Address::LOST_STEPS
    } else {
        Address::GCONF
    }
}

/// All register addresses, in catalog order.
pub open spec fn spec_all_addresses() -> Seq<Address> {
    Seq::new(49, |i: int| spec_addr_at(i))
}

/// Every address sits in its own slot: the slot index determines the address.
pub proof fn lemma_slot_inverse(a: Address)
    ensures
        0 <= spec_slot(a) < 49,
        spec_addr_at(spec_slot(a)) == a,
{
}

/// The address found in a slot maps back to that slot.
pub proof fn lemma_slot_at(i: int)
    requires
        0 <= i < 49,
    ensures
        spec_slot(spec_addr_at(i)) == i,
{
}

/// A parsed wire value corresponds to a catalog entry.
pub open spec fn spec_known_addr(u: u8) -> bool {
    u == 0x00
        || u == 0x01
        || u == 0x02
        || u == 0x03
        || u == 0x04
        || u == 0x05
        || u == 0x10
        || u == 0x11
        || u == 0x12
        || u == 0x13
        || u == 0x14
        || u == 0x15
        || u == 0x20
        || u == 0x21
        || u == 0x22
        || u == 0x23
        || u == 0x24
        || u == 0x25
        || u == 0x26
        || u == 0x27
        || u == 0x28
        || u == 0x2A
        || u == 0x2B
        || u == 0x2C
        || u == 0x2D
        || u == 0x33
        || u == 0x34
        || u == 0x35
        || u == 0x36
        || u == 0x60
        || u == 0x61
        || u == 0x62
        || u == 0x63
        || u == 0x64
        || u == 0x65
        || u == 0x66
        || u == 0x67
        || u == 0x68
        || u == 0x69
        || u == 0x6A
        || u == 0x6B
        || u == 0x6C
        || u == 0x6D
        || u == 0x6E
        || u == 0x6F
        || u == 0x70
        || u == 0x71
        || u == 0x72
        || u == 0x73
}

/// The catalog address with wire value `u` (an arbitrary entry where `u` is
/// not a catalog address).
pub open spec fn spec_addr_of(u: u8) -> Address {
    if u == 0x00 {
        Address::GCONF
    }     else if u == 0x01 {
        Address::GSTAT
    }     else if u == 0x02 {
        Address::IFCNT
    }     else if u == 0x03 {
        Address::SLAVECONF
    }     else if u == 0x04 {
        Address::IOIN
    }     else if u == 0x05 {
        Address::X_COMPARE
    }     else if u == 0x10 {
        Address::IHOLD_IRUN
    }     else if u == 0x11 {
        Address::TPOWERDOWN
    }     else if u == 0x12 {
        Address::TSTEP
    }     else if u == 0x13 {
        Address::TPWMTHRS
    }     else if u == 0x14 {
        Address::TCOOLTHRS
    }     else if u == 0x15 {
        Address::THIGH
    }     else if u == 0x20 {
        Address::RAMPMODE
    }     else if u == 0x21 {
        Address::XACTUAL
    }     else if u == 0x22 {
        Address::VACTUAL
    }     else if u == 0x23 {
        Address::VSTART
    }     else if u == 0x24 {
        Address::A1
    }     else if u == 0x25 {
        Address::V1
    }     else if u == 0x26 {
        Address::AMAX
    }     else if u == 0x27 {
        Address::VMAX
    }     else if u == 0x28 {
        Address::DMAX
    }     else if u == 0x2A {
        Address::D1
    }     else if u == 0x2B {
        Address::VSTOP
    }     else if u == 0x2C {
        Address::TZEROWAIT
    }     else if u == 0x2D {
        Address::XTARGET
    }     else if u == 0x33 {
        Address::VDCMIN
    }     else if u == 0x34 {
        Address::SW_MODE
    }     else if u == 0x35 {
        Address::RAMP_STAT
    }     else if u == 0x36 {
        Address::XLATCH
    }     else if u == 0x60 {
        Address::MSLUT0
    }     else if u == 0x61 {
        Address::MSLUT1
    }     else if u == 0x62 {
        Address::MSLUT2
    }     else if u == 0x63 {
        Address::MSLUT3
    }     else if u == 0x64 {
        Address::MSLUT4
    }     else if u == 0x65 {
        Address::MSLUT5
    }     else if u == 0x66 {
        Address::MSLUT6
    }     else if u == 0x67 {
        Address::MSLUT7
    }     else if u == 0x68 {
        Address::MSLUTSEL
    }     else if u == 0x69 {
        Address::MSLUTSTART
    }     else if u == 0x6A {
        Address::MSCNT
    }     else if u == 0x6B {
        Address::MSCURACT
    }     else if u == 0x6C {
        Address::CHOPCONF
    }     else if u == 0x6D {
        Address::COOLCONF
    }     else if u == 0x6E {
        Address::DCCTRL
    }     else if u == 0x6F {
        Address::DRV_STATUS
    }     else if u == 0x70 {
        Address::PWMCONF
    }     else if u == 0x71 {
        Address::PWM_SCALE
    }     else if u == 0x72 {
        Address::ENCM_CTRL
    }     else if u == 0x73 {
        Address::LOST_STEPS
    } else {
        Address::GCONF
    }
}

impl Address {
    /// The 7-bit wire value of this address.
    pub fn value(&self) -> (r: u8)
        ensures
            r == spec_addr_value(*self),
    {
        match *self {
            Address::GCONF => 0x00,
            Address::GSTAT => 0x01,
            Address::IFCNT => 0x02,
            Address::SLAVECONF => 0x03,
            Address::IOIN => 0x04,
            Address::X_COMPARE => 0x05,
            Address::IHOLD_IRUN => 0x10,
            Address::TPOWERDOWN => 0x11,
            Address::TSTEP => 0x12,
            Address::TPWMTHRS => 0x13,
            Address::TCOOLTHRS => 0x14,
            Address::THIGH => 0x15,
            Address::RAMPMODE => 0x20,
            Address::XACTUAL => 0x21,
            Address::VACTUAL => 0x22,
            Address::VSTART => 0x23,
            Address::A1 => 0x24,
            Address::V1 => 0x25,
            Address::AMAX => 0x26,
            Address::VMAX => 0x27,
            Address::DMAX => 0x28,
            Address::D1 => 0x2A,
            Address::VSTOP => 0x2B,
            Address::TZEROWAIT => 0x2C,
            Address::XTARGET => 0x2D,
            Address::VDCMIN => 0x33,
            Address::SW_MODE => 0x34,
            Address::RAMP_STAT => 0x35,
            Address::XLATCH => 0x36,
            Address::MSLUT0 => 0x60,
            Address::MSLUT1 => 0x61,
            Address::MSLUT2 => 0x62,
            Address::MSLUT3 => 0x63,
            Address::MSLUT4 => 0x64,
            Address::MSLUT5 => 0x65,
            Address::MSLUT6 => 0x66,
            Address::MSLUT7 => 0x67,
            Address::MSLUTSEL => 0x68,
            Address::MSLUTSTART => 0x69,
            Address::MSCNT => 0x6A,
            Address::MSCURACT => 0x6B,
            Address::CHOPCONF => 0x6C,
            Address::COOLCONF => 0x6D,
            Address::DCCTRL => 0x6E,
            Address::DRV_STATUS => 0x6F,
            Address::PWMCONF => 0x70,
            Address::PWM_SCALE => 0x71,
            Address::ENCM_CTRL => 0x72,
            Address::LOST_STEPS => 0x73,
        }
    }

    /// Whether or not we can send a read request to the register address.
    pub fn readable(&self) -> (r: bool)
        ensures
            r == spec_readable(*self),
    {
        match *self {
            Address::GCONF => true,
            Address::GSTAT => true,
            Address::IFCNT => true,
            Address::SLAVECONF => false,
            Address::IOIN => true,
            Address::X_COMPARE => true,
            Address::IHOLD_IRUN => false,
            Address::TPOWERDOWN => false,
            Address::TSTEP => false,
            Address::TPWMTHRS => false,
            Address::TCOOLTHRS => false,
            Address::THIGH => false,
            Address::RAMPMODE => true,
            Address::XACTUAL => true,
            Address::VACTUAL => true,
            Address::VSTART => false,
            Address::A1 => false,
            Address::V1 => false,
            Address::AMAX => false,
            Address::VMAX => false,
            Address::DMAX => false,
            Address::D1 => false,
            Address::VSTOP => false,
            Address::TZEROWAIT => false,
            Address::XTARGET => true,
            Address::VDCMIN => false,
            Address::SW_MODE => true,
            Address::RAMP_STAT => true,
            Address::XLATCH => true,
            Address::MSLUT0 => false,
            Address::MSLUT1 => false,
            Address::MSLUT2 => false,
            Address::MSLUT3 => false,
            Address::MSLUT4 => false,
            Address::MSLUT5 => false,
            Address::MSLUT6 => false,
            Address::MSLUT7 => false,
            Address::MSLUTSEL => false,
            Address::MSLUTSTART => false,
            Address::MSCNT => true,
            Address::MSCURACT => true,
            Address::CHOPCONF => true,
            Address::COOLCONF => false,
            Address::DCCTRL => false,
            Address::DRV_STATUS => true,
            Address::PWMCONF => false,
            Address::PWM_SCALE => true,
            Address::ENCM_CTRL => false,
            Address::LOST_STEPS => true,
        }
    }

    /// Whether or not we can send a write request to the register address.
    pub fn writable(&self) -> (r: bool)
        ensures
            r == spec_writable(*self),
    {
        match *self {
            Address::GCONF => true,
            Address::GSTAT => true,
            Address::IFCNT => false,
            Address::SLAVECONF => true,
            Address::IOIN => false,
            Address::X_COMPARE => false,
            Address::IHOLD_IRUN => true,
            Address::TPOWERDOWN => true,
            Address::TSTEP => true,
            Address::TPWMTHRS => true,
            Address::TCOOLTHRS => true,
            Address::THIGH => true,
            Address::RAMPMODE => true,
            Address::XACTUAL => true,
            Address::VACTUAL => false,
            Address::VSTART => true,
            Address::A1 => true,
            Address::V1 => true,
            Address::AMAX => true,
            Address::VMAX => true,
            Address::DMAX => true,
            Address::D1 => true,
            Address::VSTOP => true,
            Address::TZEROWAIT => true,
            Address::XTARGET => true,
            Address::VDCMIN => true,
            Address::SW_MODE => true,
            Address::RAMP_STAT => true,
            Address::XLATCH => false,
            Address::MSLUT0 => true,
            Address::MSLUT1 => true,
            Address::MSLUT2 => true,
            Address::MSLUT3 => true,
            Address::MSLUT4 => true,
            Address::MSLUT5 => true,
            Address::MSLUT6 => true,
            Address::MSLUT7 => true,
            Address::MSLUTSEL => true,
            Address::MSLUTSTART => true,
            Address::MSCNT => false,
            Address::MSCURACT => false,
            Address::CHOPCONF => true,
            Address::COOLCONF => true,
            Address::DCCTRL => true,
            Address::DRV_STATUS => false,
            Address::PWMCONF => true,
            Address::PWM_SCALE => false,
            Address::ENCM_CTRL => true,
            Address::LOST_STEPS => false,
        }
    }

    /// All register addresses, in catalog order.
    pub fn all() -> (r: Vec<Address>)
        ensures
            r@ == spec_all_addresses(),
    {
        let mut r: Vec<Address> = Vec::new();
        r.push(Address::GCONF);
        r.push(Address::GSTAT);
        r.push(Address::IFCNT);
        r.push(Address::SLAVECONF);
        r.push(Address::IOIN);
        r.push(Address::X_COMPARE);
        r.push(Address::IHOLD_IRUN);
        r.push(Address::TPOWERDOWN);
        r.push(Address::TSTEP);
        r.push(Address::TPWMTHRS);
        r.push(Address::TCOOLTHRS);
        r.push(Address::THIGH);
        r.push(Address::RAMPMODE);
        r.push(Address::XACTUAL);
        r.push(Address::VACTUAL);
        r.push(Address::VSTART);
        r.push(Address::A1);
        r.push(Address::V1);
        r.push(Address::AMAX);
        r.push(Address::VMAX);
        r.push(Address::DMAX);
        r.push(Address::D1);
        r.push(Address::VSTOP);
        r.push(Address::TZEROWAIT);
        r.push(Address::XTARGET);
        r.push(Address::VDCMIN);
        r.push(Address::SW_MODE);
        r.push(Address::RAMP_STAT);
        r.push(Address::XLATCH);
        r.push(Address::MSLUT0);
        r.push(Address::MSLUT1);
        r.push(Address::MSLUT2);
        r.push(Address::MSLUT3);
        r.push(Address::MSLUT4);
        r.push(Address::MSLUT5);
        r.push(Address::MSLUT6);
        r.push(Address::MSLUT7);
        r.push(Address::MSLUTSEL);
        r.push(Address::MSLUTSTART);
        r.push(Address::MSCNT);
        r.push(Address::MSCURACT);
        r.push(Address::CHOPCONF);
        r.push(Address::COOLCONF);
        r.push(Address::DCCTRL);
        r.push(Address::DRV_STATUS);
        r.push(Address::PWMCONF);
        r.push(Address::PWM_SCALE);
        r.push(Address::ENCM_CTRL);
        r.push(Address::LOST_STEPS);
        proof {
            assert(r@ =~= spec_all_addresses());
        }
        r
    }

    /// Parse an address from its 7-bit wire value; fails iff the value
    /// belongs to no catalog entry.
    pub fn from_u8(u: u8) -> (r: Result<Address, UnknownAddress>)
        ensures
            match r {
                Ok(a) => spec_known_addr(u) && a == spec_addr_of(u) && spec_addr_value(a) == u,
                Err(e) => !spec_known_addr(u) && e == UnknownAddress,
            },
    {
        match u {
            0x00 => Ok(Address::GCONF),
            0x01 => Ok(Address::GSTAT),
            0x02 => Ok(Address::IFCNT),
            0x03 => Ok(Address::SLAVECONF),
            0x04 => Ok(Address::IOIN),
            0x05 => Ok(Address::X_COMPARE),
            0x10 => Ok(Address::IHOLD_IRUN),
            0x11 => Ok(Address::TPOWERDOWN),
            0x12 => Ok(Address::TSTEP),
            0x13 => Ok(Address::TPWMTHRS),
            0x14 => Ok(Address::TCOOLTHRS),
            0x15 => Ok(Address::THIGH),
            0x20 => Ok(Address::RAMPMODE),
            0x21 => Ok(Address::XACTUAL),
            0x22 => Ok(Address::VACTUAL),
            0x23 => Ok(Address::VSTART),
            0x24 => Ok(Address::A1),
            0x25 => Ok(Address::V1),
            0x26 => Ok(Address::AMAX),
            0x27 => Ok(Address::VMAX),
            0x28 => Ok(Address::DMAX),
            0x2A => Ok(Address::D1),
            0x2B => Ok(Address::VSTOP),
            0x2C => Ok(Address::TZEROWAIT),
            0x2D => Ok(Address::XTARGET),
            0x33 => Ok(Address::VDCMIN),
            0x34 => Ok(Address::SW_MODE),
            0x35 => Ok(Address::RAMP_STAT),
            0x36 => Ok(Address::XLATCH),
            0x60 => Ok(Address::MSLUT0),
            0x61 => Ok(Address::MSLUT1),
            0x62 => Ok(Address::MSLUT2),
            0x63 => Ok(Address::MSLUT3),
            0x64 => Ok(Address::MSLUT4),
            0x65 => Ok(Address::MSLUT5),
            0x66 => Ok(Address::MSLUT6),
            0x67 => Ok(Address::MSLUT7),
            0x68 => Ok(Address::MSLUTSEL),
            0x69 => Ok(Address::MSLUTSTART),
            0x6A => Ok(Address::MSCNT),
            0x6B => Ok(Address::MSCURACT),
            0x6C => Ok(Address::CHOPCONF),
            0x6D => Ok(Address::COOLCONF),
            0x6E => Ok(Address::DCCTRL),
            0x6F => Ok(Address::DRV_STATUS),
            0x70 => Ok(Address::PWMCONF),
            0x71 => Ok(Address::PWM_SCALE),
            0x72 => Ok(Address::ENCM_CTRL),
            0x73 => Ok(Address::LOST_STEPS),
            _ => Err(UnknownAddress),
        }
    }
}

/// Implemented for all register types: ties a register value type to its
/// catalog address and its raw 32-bit wire word.
pub trait Register: Sized + Copy {
    /// The catalog address of this register type.
    spec fn spec_address() -> Address;

    /// The raw 32-bit word of this value.
    spec fn spec_bits(self) -> u32;

    /// The value of this register type holding the raw word `bits`.
    spec fn spec_from_bits(bits: u32) -> Self;

    /// The catalog address of this register type.
    fn address() -> (a: Address)
        ensures
            a == Self::spec_address(),
    ;

    /// Build a value of this register type from a raw 32-bit word.
    fn from_bits(bits: u32) -> (r: Self)
        ensures
            r == Self::spec_from_bits(bits),
    ;

    /// The raw 32-bit word of this value.
    fn bits(self) -> (r: u32)
        ensures
            r == self.spec_bits(),
    ;

    /// Wrap this value in the dynamic `State` representation.
    fn into_state(self) -> (s: State)
        ensures
            s == State::spec_from_addr_and_data(Self::spec_address(), self.spec_bits()),
    ;

    /// Extract a value of this register type from a dynamic `State`;
    /// fails iff the state is tagged with a different address.
    fn try_from_state(s: &State) -> (r: Result<Self, UnexpectedAddress>)
        ensures
            match r {
                Ok(v) => s.spec_addr() == Self::spec_address() && v == Self::spec_from_bits(
                    s.spec_bits(),
                ),
                Err(e) => s.spec_addr() != Self::spec_address() && e == UnexpectedAddress,
            },
    ;

    /// A raw word survives the round trip through this register type.
    proof fn lemma_bits_round_trip(bits: u32)
        ensures
            Self::spec_from_bits(bits).spec_bits() == bits,
    ;
}

/// Implemented for all registers that can be read from.
pub trait ReadableRegister: Register {
    /// The catalog lists this register's access mode as readable.
    proof fn lemma_readable()
        ensures
            spec_readable(Self::spec_address()),
    ;
}

/// Implemented for all registers that can be written to.
pub trait WritableRegister: Register {
    /// The catalog lists this register's access mode as writable.
    proof fn lemma_writable()
        ensures
            spec_writable(Self::spec_address()),
    ;
}

/// The `GCONF` register (read/write, wire address `0x00`).
#[derive(Clone, Copy, Debug, PartialEq, Eq, Structural, Hash)]
pub struct GCONF(pub u32);

impl Default for GCONF {
    /// The hardware-documented reset value of `GCONF`.
    fn default() -> (r: Self)
        ensures
            r == GCONF(0x00000041u32),
    {
        GCONF(0x00000041)
    }
}

impl Register for GCONF {
    open spec fn spec_address() -> Address {
        Address::GCONF
    }

    open spec fn spec_bits(self) -> u32 {
        self.0
    }

    open spec fn spec_from_bits(bits: u32) -> Self {
        GCONF(bits)
    }

    fn address() -> (a: Address) {
        Address::GCONF
    }

    fn from_bits(bits: u32) -> (r: Self) {
        GCONF(bits)
    }

    fn bits(self) -> (r: u32) {
        self.0
    }

    fn into_state(self) -> (s: State) {
        State::GCONF(self)
    }

    fn try_from_state(s: &State) -> (r: Result<Self, UnexpectedAddress>) {
        match *s {
            State::GCONF(v) => Ok(v),
            _ => Err(UnexpectedAddress),
        }
    }

    proof fn lemma_bits_round_trip(bits: u32) {
    }
}

impl ReadableRegister for GCONF {
    proof fn lemma_readable() {
    }
}

impl WritableRegister for GCONF {
    proof fn lemma_writable() {
    }
}

impl GCONF {
    /// Read the `i_scale_analog` bit-field.
    pub fn i_scale_analog(&self) -> (r: bool)
        ensures
            r == (bits::spec_get(self.0, 0, 1) == 1),
    {
        bits::get(self.0, 0, 1) == 1
    }

    /// Write the `i_scale_analog` bit-field.
    pub fn set_i_scale_analog(&mut self, value: bool)
        ensures
            final(self).0 == bits::spec_set(old(self).0, 0, 1, (if value { 1u32 } else { 0u32 })),
    {
        self.0 = bits::set(self.0, 0, 1, if value { 1 } else { 0 });
    }

    /// Read the `internal_rsense` bit-field.
    pub fn internal_rsense(&self) -> (r: bool)
        ensures
            r == (bits::spec_get(self.0, 1, 1) == 1),
    {
        bits::get(self.0, 1, 1) == 1
    }

    /// Write the `internal_rsense` bit-field.
    pub fn set_internal_rsense(&mut self, value: bool)
        ensures
            final(self).0 == bits::spec_set(old(self).0, 1, 1, (if value { 1u32 } else { 0u32 })),
    {
        self.0 = bits::set(self.0, 1, 1, if value { 1 } else { 0 });
    }

    /// Read the `en_spread_cycle` bit-field.
    pub fn en_spread_cycle(&self) -> (r: bool)
        ensures
            r == (bits::spec_get(self.0, 2, 1) == 1),
    {
        bits::get(self.0, 2, 1) == 1
    }

    /// Write the `en_spread_cycle` bit-field.
    pub fn set_en_spread_cycle(&mut self, value: bool)
        ensures
            final(self).0 == bits::spec_set(old(self).0, 2, 1, (if value { 1u32 } else { 0u32 })),
    {
        self.0 = bits::set(self.0, 2, 1, if value { 1 } else { 0 });
    }

    /// Read the `enc_commutation` bit-field.
    pub fn enc_commutation(&self) -> (r: bool)
        ensures
            r == (bits::spec_get(self.0, 3, 1) == 1),
    {
        bits::get(self.0, 3, 1) == 1
    }

    /// Write the `enc_commutation` bit-field.
    pub fn set_enc_commutation(&mut self, value: bool)
        ensures
            final(self).0 == bits::spec_set(old(self).0, 3, 1, (if value { 1u32 } else { 0u32 })),
    {
        self.0 = bits::set(self.0, 3, 1, if value { 1 } else { 0 });
    }

    /// Read the `shaft` bit-field.
    pub fn shaft(&self) -> (r: bool)
        ensures
            r == (bits::spec_get(self.0, 4, 1) == 1),
    {
        bits::get(self.0, 4, 1) == 1
    }

    /// Write the `shaft` bit-field.
    pub fn set_shaft(&mut self, value: bool)
        ensures
            final(self).0 == bits::spec_set(old(self).0, 4, 1, (if value { 1u32 } else { 0u32 })),
    {
        self.0 = bits::set(self.0, 4, 1, if value { 1 } else { 0 });
    }

    /// Read the `diag0_error` bit-field.
    pub fn diag0_error(&self) -> (r: bool)
        ensures
            r == (bits::spec_get(self.0, 5, 1) == 1),
    {
        bits::get(self.0, 5, 1) == 1
    }

    /// Write the `diag0_error` bit-field.
    pub fn set_diag0_error(&mut self, value: bool)
        ensures
            final(self).0 == bits::spec_set(old(self).0, 5, 1, (if value { 1u32 } else { 0u32 })),
    {
        self.0 = bits::set(self.0, 5, 1, if value { 1 } else { 0 });
    }

    /// Read the `diag0_otpw` bit-field.
    pub fn diag0_otpw(&self) -> (r: bool)
        ensures
            r == (bits::spec_get(self.0, 6, 1) == 1),
    {
        bits::get(self.0, 6, 1) == 1
    }

    /// Write the `diag0_otpw` bit-field.
    pub fn set_diag0_otpw(&mut self, value: bool)
        ensures
            final(self).0 == bits::spec_set(old(self).0, 6, 1, (if value { 1u32 } else { 0u32 })),
    {
        self.0 = bits::set(self.0, 6, 1, if value { 1 } else { 0 });
    }

    /// Read the `diag0_stall_step` bit-field.
    pub fn diag0_stall_step(&self) -> (r: bool)
        ensures
            r == (bits::spec_get(self.0, 7, 1) == 1),
    {
        bits::get(self.0, 7, 1) == 1
    }

    /// Write the `diag0_stall_step` bit-field.
    pub fn set_diag0_stall_step(&mut self, value: bool)
        ensures
            final(self).0 == bits::spec_set(old(self).0, 7, 1, (if value { 1u32 } else { 0u32 })),
    {
        self.0 = bits::set(self.0, 7, 1, if value { 1 } else { 0 });
    }

    /// Read the `diag1_stall_dir` bit-field.
    pub fn diag1_stall_dir(&self) -> (r: bool)
        ensures
            r == (bits::spec_get(self.0, 8, 1) == 1),
    {
        bits::get(self.0, 8, 1) == 1
    }

    /// Write the `diag1_stall_dir` bit-field.
    pub fn set_diag1_stall_dir(&mut self, value: bool)
        ensures
            final(self).0 == bits::spec_set(old(self).0, 8, 1, (if value { 1u32 } else { 0u32 })),
    {
        self.0 = bits::set(self.0, 8, 1, if value { 1 } else { 0 });
    }

    /// Read the `diag1_index` bit-field.
    pub fn diag1_index(&self) -> (r: bool)
        ensures
            r == (bits::spec_get(self.0, 9, 1) == 1),
    {
        bits::get(self.0, 9, 1) == 1
    }

    /// Write the `diag1_index` bit-field.
    pub fn set_diag1_index(&mut self, value: bool)
        ensures
            final(self).0 == bits::spec_set(old(self).0, 9, 1, (if value { 1u32 } else { 0u32 })),
    {
        self.0 = bits::set(self.0, 9, 1, if value { 1 } else { 0 });
    }

    /// Read the `diag1_onstate` bit-field.
    pub fn diag1_onstate(&self) -> (r: bool)
        ensures
            r == (bits::spec_get(self.0, 10, 1) == 1),
    {
        bits::get(self.0, 10, 1) == 1
    }

    /// Write the `diag1_onstate` bit-field.
    pub fn set_diag1_onstate(&mut self, value: bool)
        ensures
            final(self).0 == bits::spec_set(old(self).0, 10, 1, (if value { 1u32 } else { 0u32 })),
    {
        self.0 = bits::set(self.0, 10, 1, if value { 1 } else { 0 });
    }

    /// Read the `diag1_steps_skipped` bit-field.
    pub fn diag1_steps_skipped(&self) -> (r: bool)
        ensures
            r == (bits::spec_get(self.0, 11, 1) == 1),
    {
        bits::get(self.0, 11, 1) == 1
    }

    /// Write the `diag1_steps_skipped` bit-field.
    pub fn set_diag1_steps_skipped(&mut self, value: bool)
        ensures
            final(self).0 == bits::spec_set(old(self).0, 11, 1, (if value { 1u32 } else { 0u32 })),
    {
        self.0 = bits::set(self.0, 11, 1, if value { 1 } else { 0 });
    }

    /// Read the `diag0_int_pushpull` bit-field.
    pub fn diag0_int_pushpull(&self) -> (r: bool)
        ensures
            r == (bits::spec_get(self.0, 12, 1) == 1),
    {
        bits::get(self.0, 12, 1) == 1
    }

    /// Write the `diag0_int_pushpull` bit-field.
    pub fn set_diag0_int_pushpull(&mut self, value: bool)
        ensures
            final(self).0 == bits::spec_set(old(self).0, 12, 1, (if value { 1u32 } else { 0u32 })),
    {
        self.0 = bits::set(self.0, 12, 1, if value { 1 } else { 0 });
    }

    /// Read the `diag1_poscomp_pushpull` bit-field.
    pub fn diag1_poscomp_pushpull(&self) -> (r: bool)
        ensures
            r == (bits::spec_get(self.0, 13, 1) == 1),
    {
        bits::get(self.0, 13, 1) == 1
    }

    /// Write the `diag1_poscomp_pushpull` bit-field.
    pub fn set_diag1_poscomp_pushpull(&mut self, value: bool)
        ensures
            final(self).0 == bits::spec_set(old(self).0, 13, 1, (if value { 1u32 } else { 0u32 })),
    {
        self.0 = bits::set(self.0, 13, 1, if value { 1 } else { 0 });
    }

    /// Read the `small_hysteresis` bit-field.
    pub fn small_hysteresis(&self) -> (r: bool)
        ensures
            r == (bits::spec_get(self.0, 14, 1) == 1),
    {
        bits::get(self.0, 14, 1) == 1
    }

    /// Write the `small_hysteresis` bit-field.
    pub fn set_small_hysteresis(&mut self, value: bool)
        ensures
            final(self).0 == bits::spec_set(old(self).0, 14, 1, (if value { 1u32 } else { 0u32 })),
    {
        self.0 = bits::set(self.0, 14, 1, if value { 1 } else { 0 });
    }

    /// Read the `stop_enable` bit-field.
    pub fn stop_enable(&self) -> (r: bool)
        ensures
            r == (bits::spec_get(self.0, 15, 1) == 1),
    {
        bits::get(self.0, 15, 1) == 1
    }

    /// Write the `stop_enable` bit-field.
    pub fn set_stop_enable(&mut self, value: bool)
        ensures
            final(self).0 == bits::spec_set(old(self).0, 15, 1, (if value { 1u32 } else { 0u32 })),
    {
        self.0 = bits::set(self.0, 15, 1, if value { 1 } else { 0 });
    }

    /// Read the `direct_mode` bit-field.
    pub fn direct_mode(&self) -> (r: bool)
        ensures
            r == (bits::spec_get(self.0, 16, 1) == 1),
    {
        bits::get(self.0, 16, 1) == 1
    }

    /// Write the `direct_mode` bit-field.
    pub fn set_direct_mode(&mut self, value: bool)
        ensures
            final(self).0 == bits::spec_set(old(self).0, 16, 1, (if value { 1u32 } else { 0u32 })),
    {
        self.0 = bits::set(self.0, 16, 1, if value { 1 } else { 0 });
    }

    /// Read the `test_mode` bit-field.
    pub fn test_mode(&self) -> (r: bool)
        ensures
            r == (bits::spec_get(self.0, 17, 1) == 1),
    {
        bits::get(self.0, 17, 1) == 1
    }

    /// Write the `test_mode` bit-field.
    pub fn set_test_mode(&mut self, value: bool)
        ensures
            final(self).0 == bits::spec_set(old(self).0, 17, 1, (if value { 1u32 } else { 0u32 })),
    {
        self.0 = bits::set(self.0, 17, 1, if value { 1 } else { 0 });
    }
}

/// The `GSTAT` register (read/write, wire address `0x01`).
#[derive(Clone, Copy, Debug, PartialEq, Eq, Structural, Hash)]
pub struct GSTAT(pub u32);

impl Default for GSTAT {
    /// The hardware-documented reset value of `GSTAT`.
    fn default() -> (r: Self)
        ensures
            r == GSTAT(0x00000000u32),
    {
        GSTAT(0x00000000)
    }
}

impl Register for GSTAT {
    open spec fn spec_address() -> Address {
        Address::GSTAT
    }

    open spec fn spec_bits(self) -> u32 {
        self.0
    }

    open spec fn spec_from_bits(bits: u32) -> Self {
        GSTAT(bits)
    }

    fn address() -> (a: Address) {
        Address::GSTAT
    }

    fn from_bits(bits: u32) -> (r: Self) {
        GSTAT(bits)
    }

    fn bits(self) -> (r: u32) {
        self.0
    }

    fn into_state(self) -> (s: State) {
        State::GSTAT(self)
    }

    fn try_from_state(s: &State) -> (r: Result<Self, UnexpectedAddress>) {
        match *s {
            State::GSTAT(v) => Ok(v),
            _ => Err(UnexpectedAddress),
        }
    }

    proof fn lemma_bits_round_trip(bits: u32) {
    }
}

impl ReadableRegister for GSTAT {
    proof fn lemma_readable() {
    }
}

impl WritableRegister for GSTAT {
    proof fn lemma_writable() {
    }
}

impl GSTAT {
    /// Read the `reset` bit-field.
    pub fn reset(&self) -> (r: bool)
        ensures
            r == (bits::spec_get(self.0, 0, 1) == 1),
    {
        bits::get(self.0, 0, 1) == 1
    }

    /// Read the `drv_err` bit-field.
    pub fn drv_err(&self) -> (r: bool)
        ensures
            r == (bits::spec_get(self.0, 1, 1) == 1),
    {
        bits::get(self.0, 1, 1) == 1
    }

    /// Read the `uv_cp` bit-field.
    pub fn uv_cp(&self) -> (r: bool)
        ensures
            r == (bits::spec_get(self.0, 2, 1) == 1),
    {
        bits::get(self.0, 2, 1) == 1
    }
}

/// The `IFCNT` register (read-only, wire address `0x02`).
#[derive(Clone, Copy, Debug, PartialEq, Eq, Structural, Hash)]
pub struct IFCNT(pub u32);

impl Default for IFCNT {
    /// The hardware-documented reset value of `IFCNT`.
    fn default() -> (r: Self)
        ensures
            r == IFCNT(0x00000000u32),
    {
        IFCNT(0x00000000)
    }
}

impl Register for IFCNT {
    open spec fn spec_address() -> Address {
        Address::IFCNT
    }

    open spec fn spec_bits(self) -> u32 {
        self.0
    }

    open spec fn spec_from_bits(bits: u32) -> Self {
        IFCNT(bits)
    }

    fn address() -> (a: Address) {
        Address::IFCNT
    }

    fn from_bits(bits: u32) -> (r: Self) {
        IFCNT(bits)
    }

    fn bits(self) -> (r: u32) {
        self.0
    }

    fn into_state(self) -> (s: State) {
        State::IFCNT(self)
    }

    fn try_from_state(s: &State) -> (r: Result<Self, UnexpectedAddress>) {
        match *s {
            State::IFCNT(v) => Ok(v),
            _ => Err(UnexpectedAddress),
        }
    }

    proof fn lemma_bits_round_trip(bits: u32) {
    }
}

impl ReadableRegister for IFCNT {
    proof fn lemma_readable() {
    }
}

/// The `SLAVECONF` register (write-only, wire address `0x03`).
#[derive(Clone, Copy, Debug, PartialEq, Eq, Structural, Hash)]
pub struct SLAVECONF(pub u32);

impl Default for SLAVECONF {
    /// The hardware-documented reset value of `SLAVECONF`.
    fn default() -> (r: Self)
        ensures
            r == SLAVECONF(0x00000000u32),
    {
        SLAVECONF(0x00000000)
    }
}

impl Register for SLAVECONF {
    open spec fn spec_address() -> Address {
        Address::SLAVECONF
    }

    open spec fn spec_bits(self) -> u32 {
        self.0
    }

    open spec fn spec_from_bits(bits: u32) -> Self {
        SLAVECONF(bits)
    }

    fn address() -> (a: Address) {
        Address::SLAVECONF
    }

    fn from_bits(bits: u32) -> (r: Self) {
        SLAVECONF(bits)
    }

    fn bits(self) -> (r: u32) {
        self.0
    }

    fn into_state(self) -> (s: State) {
        State::SLAVECONF(self)
    }

    fn try_from_state(s: &State) -> (r: Result<Self, UnexpectedAddress>) {
        match *s {
            State::SLAVECONF(v) => Ok(v),
            _ => Err(UnexpectedAddress),
        }
    }

    proof fn lemma_bits_round_trip(bits: u32) {
    }
}

impl WritableRegister for SLAVECONF {
    proof fn lemma_writable() {
    }
}

impl SLAVECONF {
    /// Read the `slaveaddr` bit-field.
    pub fn slaveaddr(&self) -> (r: u8)
        ensures
            r == bits::spec_get(self.0, 0, 8) as u8,
    {
        #[verifier::truncate] (bits::get(self.0, 0, 8) as u8)
    }

    /// Write the `slaveaddr` bit-field; a value wider than the field is truncated.
    pub fn set_slaveaddr(&mut self, value: u8)
        ensures
            final(self).0 == bits::spec_set(old(self).0, 0, 8, value as u32),
    {
        self.0 = bits::set(self.0, 0, 8, value as u32);
    }

    /// Read the `senddelay` bit-field.
    pub fn senddelay(&self) -> (r: u8)
        ensures
            r == bits::spec_get(self.0, 8, 4) as u8,
    {
        #[verifier::truncate] (bits::get(self.0, 8, 4) as u8)
    }

    /// Write the `senddelay` bit-field; a value wider than the field is truncated.
    pub fn set_senddelay(&mut self, value: u8)
        ensures
            final(self).0 == bits::spec_set(old(self).0, 8, 4, value as u32),
    {
        self.0 = bits::set(self.0, 8, 4, value as u32);
    }
}

/// The `IOIN` register (read-only, wire address `0x04`).
#[derive(Clone, Copy, Debug, PartialEq, Eq, Structural, Hash)]
pub struct IOIN(pub u32);

impl Default for IOIN {
    /// The hardware-documented reset value of `IOIN`.
    fn default() -> (r: Self)
        ensures
            r == IOIN(0x00000000u32),
    {
        IOIN(0x00000000)
    }
}

impl Register for IOIN {
    open spec fn spec_address() -> Address {
        Address::IOIN
    }

    open spec fn spec_bits(self) -> u32 {
        self.0
    }

    open spec fn spec_from_bits(bits: u32) -> Self {
        IOIN(bits)
    }

    fn address() -> (a: Address) {
        Address::IOIN
    }

    fn from_bits(bits: u32) -> (r: Self) {
        IOIN(bits)
    }

    fn bits(self) -> (r: u32) {
        self.0
    }

    fn into_state(self) -> (s: State) {
        State::IOIN(self)
    }

    fn try_from_state(s: &State) -> (r: Result<Self, UnexpectedAddress>) {
        match *s {
            State::IOIN(v) => Ok(v),
            _ => Err(UnexpectedAddress),
        }
    }

    proof fn lemma_bits_round_trip(bits: u32) {
    }
}

impl ReadableRegister for IOIN {
    proof fn lemma_readable() {
    }
}

impl IOIN {
    /// Read the `refl_step` bit-field.
    pub fn refl_step(&self) -> (r: bool)
        ensures
            r == (bits::spec_get(self.0, 0, 1) == 1),
    {
        bits::get(self.0, 0, 1) == 1
    }

    /// Read the `refr_dir` bit-field.
    pub fn refr_dir(&self) -> (r: bool)
        ensures
            r == (bits::spec_get(self.0, 1, 1) == 1),
    {
        bits::get(self.0, 1, 1) == 1
    }

    /// Read the `encb_dcen_cfg4` bit-field.
    pub fn encb_dcen_cfg4(&self) -> (r: bool)
        ensures
            r == (bits::spec_get(self.0, 2, 1) == 1),
    {
        bits::get(self.0, 2, 1) == 1
    }

    /// Read the `enca_dcen_cfg5` bit-field.
    pub fn enca_dcen_cfg5(&self) -> (r: bool)
        ensures
            r == (bits::spec_get(self.0, 3, 1) == 1),
    {
        bits::get(self.0, 3, 1) == 1
    }

    /// Read the `drv_enn_cfg6` bit-field.
    pub fn drv_enn_cfg6(&self) -> (r: bool)
        ensures
            r == (bits::spec_get(self.0, 4, 1) == 1),
    {
        bits::get(self.0, 4, 1) == 1
    }

    /// Read the `enc_n_dco` bit-field.
    pub fn enc_n_dco(&self) -> (r: bool)
        ensures
            r == (bits::spec_get(self.0, 5, 1) == 1),
    {
        bits::get(self.0, 5, 1) == 1
    }

    /// Read the `sd_mode` bit-field.
    pub fn sd_mode(&self) -> (r: bool)
        ensures
            r == (bits::spec_get(self.0, 6, 1) == 1),
    {
        bits::get(self.0, 6, 1) == 1
    }

    /// Read the `swcomp_in` bit-field.
    pub fn swcomp_in(&self) -> (r: bool)
        ensures
            r == (bits::spec_get(self.0, 7, 1) == 1),
    {
        bits::get(self.0, 7, 1) == 1
    }

    /// Read the `version` bit-field.
    pub fn version(&self) -> (r: u16)
        ensures
            r == bits::spec_get(self.0, 24, 8) as u16,
    {
        #[verifier::truncate] (bits::get(self.0, 24, 8) as u16)
    }
}

/// The `X_COMPARE` register (read-only, wire address `0x05`).
#[derive(Clone, Copy, Debug, PartialEq, Eq, Structural, Hash)]
pub struct X_COMPARE(pub u32);

impl Default for X_COMPARE {
    /// The hardware-documented reset value of `X_COMPARE`.
    fn default() -> (r: Self)
        ensures
            r == X_COMPARE(0x00000000u32),
    {
        X_COMPARE(0x00000000)
    }
}

impl Register for X_COMPARE {
    open spec fn spec_address() -> Address {
        Address::X_COMPARE
    }

    open spec fn spec_bits(self) -> u32 {
        self.0
    }

    open spec fn spec_from_bits(bits: u32) -> Self {
        X_COMPARE(bits)
    }

    fn address() -> (a: Address) {
        Address::X_COMPARE
    }

    fn from_bits(bits: u32) -> (r: Self) {
        X_COMPARE(bits)
    }

    fn bits(self) -> (r: u32) {
        self.0
    }

    fn into_state(self) -> (s: State) {
        State::X_COMPARE(self)
    }

    fn try_from_state(s: &State) -> (r: Result<Self, UnexpectedAddress>) {
        match *s {
            State::X_COMPARE(v) => Ok(v),
            _ => Err(UnexpectedAddress),
        }
    }

    proof fn lemma_bits_round_trip(bits: u32) {
    }
}

impl ReadableRegister for X_COMPARE {
    proof fn lemma_readable() {
    }
}

/// The `IHOLD_IRUN` register (write-only, wire address `0x10`).
#[derive(Clone, Copy, Debug, PartialEq, Eq, Structural, Hash)]
pub struct IHOLD_IRUN(pub u32);

impl Default for IHOLD_IRUN {
    /// The hardware-documented reset value of `IHOLD_IRUN`.
    fn default() -> (r: Self)
        ensures
            r == IHOLD_IRUN(0x00001F00u32),
    {
        IHOLD_IRUN(0x00001F00)
    }
}

impl Register for IHOLD_IRUN {
    open spec fn spec_address() -> Address {
        Address::IHOLD_IRUN
    }

    open spec fn spec_bits(self) -> u32 {
        self.0
    }

    open spec fn spec_from_bits(bits: u32) -> Self {
        IHOLD_IRUN(bits)
    }

    fn address() -> (a: Address) {
        Address::IHOLD_IRUN
    }

    fn from_bits(bits: u32) -> (r: Self) {
        IHOLD_IRUN(bits)
    }

    fn bits(self) -> (r: u32) {
        self.0
    }

    fn into_state(self) -> (s: State) {
        State::IHOLD_IRUN(self)
    }

    fn try_from_state(s: &State) -> (r: Result<Self, UnexpectedAddress>) {
        match *s {
            State::IHOLD_IRUN(v) => Ok(v),
            _ => Err(UnexpectedAddress),
        }
    }

    proof fn lemma_bits_round_trip(bits: u32) {
    }
}

impl WritableRegister for IHOLD_IRUN {
    proof fn lemma_writable() {
    }
}

impl IHOLD_IRUN {
    /// Read the `ihold` bit-field.
    pub fn ihold(&self) -> (r: u8)
        ensures
            r == bits::spec_get(self.0, 0, 5) as u8,
    {
        #[verifier::truncate] (bits::get(self.0, 0, 5) as u8)
    }

    /// Write the `ihold` bit-field; a value wider than the field is truncated.
    pub fn set_ihold(&mut self, value: u8)
        ensures
            final(self).0 == bits::spec_set(old(self).0, 0, 5, value as u32),
    {
        self.0 = bits::set(self.0, 0, 5, value as u32);
    }

    /// Read the `irun` bit-field.
    pub fn irun(&self) -> (r: u8)
        ensures
            r == bits::spec_get(self.0, 8, 5) as u8,
    {
        #[verifier::truncate] (bits::get(self.0, 8, 5) as u8)
    }

    /// Write the `irun` bit-field; a value wider than the field is truncated.
    pub fn set_irun(&mut self, value: u8)
        ensures
            final(self).0 == bits::spec_set(old(self).0, 8, 5, value as u32),
    {
        self.0 = bits::set(self.0, 8, 5, value as u32);
    }

    /// Read the `ihold_delay` bit-field.
    pub fn ihold_delay(&self) -> (r: u8)
        ensures
            r == bits::spec_get(self.0, 16, 4) as u8,
    {
        #[verifier::truncate] (bits::get(self.0, 16, 4) as u8)
    }

    /// Write the `ihold_delay` bit-field; a value wider than the field is truncated.
    pub fn set_ihold_delay(&mut self, value: u8)
        ensures
            final(self).0 == bits::spec_set(old(self).0, 16, 4, value as u32),
    {
        self.0 = bits::set(self.0, 16, 4, value as u32);
    }
}

/// The `TPOWERDOWN` register (write-only, wire address `0x11`).
#[derive(Clone, Copy, Debug, PartialEq, Eq, Structural, Hash)]
pub struct TPOWERDOWN(pub u32);

impl Default for TPOWERDOWN {
    /// The hardware-documented reset value of `TPOWERDOWN`.
    fn default() -> (r: Self)
        ensures
            r == TPOWERDOWN(0x00000000u32),
    {
        TPOWERDOWN(0x00000000)
    }
}

impl Register for TPOWERDOWN {
    open spec fn spec_address() -> Address {
        Address::TPOWERDOWN
    }

    open spec fn spec_bits(self) -> u32 {
        self.0
    }

    open spec fn spec_from_bits(bits: u32) -> Self {
        TPOWERDOWN(bits)
    }

    fn address() -> (a: Address) {
        Address::TPOWERDOWN
    }

    fn from_bits(bits: u32) -> (r: Self) {
        TPOWERDOWN(bits)
    }

    fn bits(self) -> (r: u32) {
        self.0
    }

    fn into_state(self) -> (s: State) {
        State::TPOWERDOWN(self)
    }

    fn try_from_state(s: &State) -> (r: Result<Self, UnexpectedAddress>) {
        match *s {
            State::TPOWERDOWN(v) => Ok(v),
            _ => Err(UnexpectedAddress),
        }
    }

    proof fn lemma_bits_round_trip(bits: u32) {
    }
}

impl WritableRegister for TPOWERDOWN {
    proof fn lemma_writable() {
    }
}

impl TPOWERDOWN {
    /// Read the `get` bit-field as a signed quantity.
    pub fn get(&self) -> (r: i32)
        ensures
            r as int == bits::spec_sign_extend(bits::spec_get(self.0, 0, 8), 8),
    {
        bits::sign_extend_i32(bits::get(self.0, 0, 8), 8)
    }

    /// Write the `get` bit-field; the value is truncated to the field's width.
    pub fn set(&mut self, value: i32)
        ensures
            final(self).0 == bits::spec_set(old(self).0, 0, 8, value as u32),
    {
        self.0 = bits::set(self.0, 0, 8, #[verifier::truncate] (value as u32));
    }
}

/// The `TSTEP` register (write-only, wire address `0x12`).
#[derive(Clone, Copy, Debug, PartialEq, Eq, Structural, Hash)]
pub struct TSTEP(pub u32);

impl Default for TSTEP {
    /// The hardware-documented reset value of `TSTEP`.
    fn default() -> (r: Self)
        ensures
            r == TSTEP(0x00000000u32),
    {
        TSTEP(0x00000000)
    }
}

impl Register for TSTEP {
    open spec fn spec_address() -> Address {
        Address::TSTEP
    }

    open spec fn spec_bits(self) -> u32 {
        self.0
    }

    open spec fn spec_from_bits(bits: u32) -> Self {
        TSTEP(bits)
    }

    fn address() -> (a: Address) {
        Address::TSTEP
    }

    fn from_bits(bits: u32) -> (r: Self) {
        TSTEP(bits)
    }

    fn bits(self) -> (r: u32) {
        self.0
    }

    fn into_state(self) -> (s: State) {
        State::TSTEP(self)
    }

    fn try_from_state(s: &State) -> (r: Result<Self, UnexpectedAddress>) {
        match *s {
            State::TSTEP(v) => Ok(v),
            _ => Err(UnexpectedAddress),
        }
    }

    proof fn lemma_bits_round_trip(bits: u32) {
    }
}

impl WritableRegister for TSTEP {
    proof fn lemma_writable() {
    }
}

impl TSTEP {
    /// Read the `get` bit-field.
    pub fn get(&self) -> (r: u32)
        ensures
            r == bits::spec_get(self.0, 0, 20),
    {
        bits::get(self.0, 0, 20)
    }

    /// Write the `get` bit-field; a value wider than the field is truncated.
    pub fn set(&mut self, value: u32)
        ensures
            final(self).0 == bits::spec_set(old(self).0, 0, 20, value),
    {
        self.0 = bits::set(self.0, 0, 20, value);
    }
}

/// The `TPWMTHRS` register (write-only, wire address `0x13`).
#[derive(Clone, Copy, Debug, PartialEq, Eq, Structural, Hash)]
pub struct TPWMTHRS(pub u32);

impl Default for TPWMTHRS {
    /// The hardware-documented reset value of `TPWMTHRS`.
    fn default() -> (r: Self)
        ensures
            r == TPWMTHRS(0x00000000u32),
    {
        TPWMTHRS(0x00000000)
    }
}

impl Register for TPWMTHRS {
    open spec fn spec_address() -> Address {
        Address::TPWMTHRS
    }

    open spec fn spec_bits(self) -> u32 {
        self.0
    }

    open spec fn spec_from_bits(bits: u32) -> Self {
        TPWMTHRS(bits)
    }

    fn address() -> (a: Address) {
        Address::TPWMTHRS
    }

    fn from_bits(bits: u32) -> (r: Self) {
        TPWMTHRS(bits)
    }

    fn bits(self) -> (r: u32) {
        self.0
    }

    fn into_state(self) -> (s: State) {
        State::TPWMTHRS(self)
    }

    fn try_from_state(s: &State) -> (r: Result<Self, UnexpectedAddress>) {
        match *s {
            State::TPWMTHRS(v) => Ok(v),
            _ => Err(UnexpectedAddress),
        }
    }

    proof fn lemma_bits_round_trip(bits: u32) {
    }
}

impl WritableRegister for TPWMTHRS {
    proof fn lemma_writable() {
    }
}

impl TPWMTHRS {
    /// Read the `get` bit-field.
    pub fn get(&self) -> (r: u32)
        ensures
            r == bits::spec_get(self.0, 0, 20),
    {
        bits::get(self.0, 0, 20)
    }

    /// Write the `get` bit-field; a value wider than the field is truncated.
    pub fn set(&mut self, value: u32)
        ensures
            final(self).0 == bits::spec_set(old(self).0, 0, 20, value),
    {
        self.0 = bits::set(self.0, 0, 20, value);
    }
}

/// The `TCOOLTHRS` register (write-only, wire address `0x14`).
#[derive(Clone, Copy, Debug, PartialEq, Eq, Structural, Hash)]
pub struct TCOOLTHRS(pub u32);

impl Default for TCOOLTHRS {
    /// The hardware-documented reset value of `TCOOLTHRS`.
    fn default() -> (r: Self)
        ensures
            r == TCOOLTHRS(0x00000000u32),
    {
        TCOOLTHRS(0x00000000)
    }
}

impl Register for TCOOLTHRS {
    open spec fn spec_address() -> Address {
        Address::TCOOLTHRS
    }

    open spec fn spec_bits(self) -> u32 {
        self.0
    }

    open spec fn spec_from_bits(bits: u32) -> Self {
        TCOOLTHRS(bits)
    }

    fn address() -> (a: Address) {
        Address::TCOOLTHRS
    }

    fn from_bits(bits: u32) -> (r: Self) {
        TCOOLTHRS(bits)
    }

    fn bits(self) -> (r: u32) {
        self.0
    }

    fn into_state(self) -> (s: State) {
        State::TCOOLTHRS(self)
    }

    fn try_from_state(s: &State) -> (r: Result<Self, UnexpectedAddress>) {
        match *s {
            State::TCOOLTHRS(v) => Ok(v),
            _ => Err(UnexpectedAddress),
        }
    }

    proof fn lemma_bits_round_trip(bits: u32) {
    }
}

impl WritableRegister for TCOOLTHRS {
    proof fn lemma_writable() {
    }
}

impl TCOOLTHRS {
    /// Read the `get` bit-field.
    pub fn get(&self) -> (r: u32)
        ensures
            r == bits::spec_get(self.0, 0, 20),
    {
        bits::get(self.0, 0, 20)
    }

    /// Write the `get` bit-field; a value wider than the field is truncated.
    pub fn set(&mut self, value: u32)
        ensures
            final(self).0 == bits::spec_set(old(self).0, 0, 20, value),
    {
        self.0 = bits::set(self.0, 0, 20, value);
    }
}

/// The `THIGH` register (write-only, wire address `0x15`).
#[derive(Clone, Copy, Debug, PartialEq, Eq, Structural, Hash)]
pub struct THIGH(pub u32);

impl Default for THIGH {
    /// The hardware-documented reset value of `THIGH`.
    fn default() -> (r: Self)
        ensures
            r == THIGH(0x00000000u32),
    {
        THIGH(0x00000000)
    }
}

impl Register for THIGH {
    open spec fn spec_address() -> Address {
        Address::THIGH
    }

    open spec fn spec_bits(self) -> u32 {
        self.0
    }

    open spec fn spec_from_bits(bits: u32) -> Self {
        THIGH(bits)
    }

    fn address() -> (a: Address) {
        Address::THIGH
    }

    fn from_bits(bits: u32) -> (r: Self) {
        THIGH(bits)
    }

    fn bits(self) -> (r: u32) {
        self.0
    }

    fn into_state(self) -> (s: State) {
        State::THIGH(self)
    }

    fn try_from_state(s: &State) -> (r: Result<Self, UnexpectedAddress>) {
        match *s {
            State::THIGH(v) => Ok(v),
            _ => Err(UnexpectedAddress),
        }
    }

    proof fn lemma_bits_round_trip(bits: u32) {
    }
}

impl WritableRegister for THIGH {
    proof fn lemma_writable() {
    }
}

impl THIGH {
    /// Read the `get` bit-field.
    pub fn get(&self) -> (r: u32)
        ensures
            r == bits::spec_get(self.0, 0, 20),
    {
        bits::get(self.0, 0, 20)
    }

    /// Write the `get` bit-field; a value wider than the field is truncated.
    pub fn set(&mut self, value: u32)
        ensures
            final(self).0 == bits::spec_set(old(self).0, 0, 20, value),
    {
        self.0 = bits::set(self.0, 0, 20, value);
    }
}

/// The `RAMPMODE` register (read/write, wire address `0x20`).
#[derive(Clone, Copy, Debug, PartialEq, Eq, Structural, Hash)]
pub struct RAMPMODE(pub u32);

impl Default for RAMPMODE {
    /// The hardware-documented reset value of `RAMPMODE`.
    fn default() -> (r: Self)
        ensures
            r == RAMPMODE(0x00000000u32),
    {
        RAMPMODE(0x00000000)
    }
}

impl Register for RAMPMODE {
    open spec fn spec_address() -> Address {
        Address::RAMPMODE
    }

    open spec fn spec_bits(self) -> u32 {
        self.0
    }

    open spec fn spec_from_bits(bits: u32) -> Self {
        RAMPMODE(bits)
    }

    fn address() -> (a: Address) {
        Address::RAMPMODE
    }

    fn from_bits(bits: u32) -> (r: Self) {
        RAMPMODE(bits)
    }

    fn bits(self) -> (r: u32) {
        self.0
    }

    fn into_state(self) -> (s: State) {
        State::RAMPMODE(self)
    }

    fn try_from_state(s: &State) -> (r: Result<Self, UnexpectedAddress>) {
        match *s {
            State::RAMPMODE(v) => Ok(v),
            _ => Err(UnexpectedAddress),
        }
    }

    proof fn lemma_bits_round_trip(bits: u32) {
    }
}

impl ReadableRegister for RAMPMODE {
    proof fn lemma_readable() {
    }
}

impl WritableRegister for RAMPMODE {
    proof fn lemma_writable() {
    }
}

impl RAMPMODE {
    /// Read the `get` bit-field.
    pub fn get(&self) -> (r: u8)
        ensures
            r == bits::spec_get(self.0, 0, 2) as u8,
    {
        #[verifier::truncate] (bits::get(self.0, 0, 2) as u8)
    }

    /// Write the `get` bit-field; a value wider than the field is truncated.
    pub fn set(&mut self, value: u8)
        ensures
            final(self).0 == bits::spec_set(old(self).0, 0, 2, value as u32),
    {
        self.0 = bits::set(self.0, 0, 2, value as u32);
    }
}

/// The `XACTUAL` register (read/write, wire address `0x21`).
#[derive(Clone, Copy, Debug, PartialEq, Eq, Structural, Hash)]
pub struct XACTUAL(pub u32);

impl Default for XACTUAL {
    /// The hardware-documented reset value of `XACTUAL`.
    fn default() -> (r: Self)
        ensures
            r == XACTUAL(0x00000000u32),
    {
        XACTUAL(0x00000000)
    }
}

impl Register for XACTUAL {
    open spec fn spec_address() -> Address {
        Address::XACTUAL
    }

    open spec fn spec_bits(self) -> u32 {
        self.0
    }

    open spec fn spec_from_bits(bits: u32) -> Self {
        XACTUAL(bits)
    }

    fn address() -> (a: Address) {
        Address::XACTUAL
    }

    fn from_bits(bits: u32) -> (r: Self) {
        XACTUAL(bits)
    }

    fn bits(self) -> (r: u32) {
        self.0
    }

    fn into_state(self) -> (s: State) {
        State::XACTUAL(self)
    }

    fn try_from_state(s: &State) -> (r: Result<Self, UnexpectedAddress>) {
        match *s {
            State::XACTUAL(v) => Ok(v),
            _ => Err(UnexpectedAddress),
        }
    }

    proof fn lemma_bits_round_trip(bits: u32) {
    }
}

impl ReadableRegister for XACTUAL {
    proof fn lemma_readable() {
    }
}

impl WritableRegister for XACTUAL {
    proof fn lemma_writable() {
    }
}

impl XACTUAL {
    /// Read the `get` bit-field as a signed quantity.
    pub fn get(&self) -> (r: i32)
        ensures
            r as int == bits::spec_sign_extend(bits::spec_get(self.0, 0, 32), 32),
    {
        bits::sign_extend_i32(bits::get(self.0, 0, 32), 32)
    }
}

/// The `VACTUAL` register (read-only, wire address `0x22`).
#[derive(Clone, Copy, Debug, PartialEq, Eq, Structural, Hash)]
pub struct VACTUAL(pub u32);

impl Default for VACTUAL {
    /// The hardware-documented reset value of `VACTUAL`.
    fn default() -> (r: Self)
        ensures
            r == VACTUAL(0x00000000u32),
    {
        VACTUAL(0x00000000)
    }
}

impl Register for VACTUAL {
    open spec fn spec_address() -> Address {
        Address::VACTUAL
    }

    open spec fn spec_bits(self) -> u32 {
        self.0
    }

    open spec fn spec_from_bits(bits: u32) -> Self {
        VACTUAL(bits)
    }

    fn address() -> (a: Address) {
        Address::VACTUAL
    }

    fn from_bits(bits: u32) -> (r: Self) {
        VACTUAL(bits)
    }

    fn bits(self) -> (r: u32) {
        self.0
    }

    fn into_state(self) -> (s: State) {
        State::VACTUAL(self)
    }

    fn try_from_state(s: &State) -> (r: Result<Self, UnexpectedAddress>) {
        match *s {
            State::VACTUAL(v) => Ok(v),
            _ => Err(UnexpectedAddress),
        }
    }

    proof fn lemma_bits_round_trip(bits: u32) {
    }
}

impl ReadableRegister for VACTUAL {
    proof fn lemma_readable() {
    }
}

impl VACTUAL {
    /// Read the `get` bit-field as a signed quantity.
    pub fn get(&self) -> (r: i32)
        ensures
            r as int == bits::spec_sign_extend(bits::spec_get(self.0, 0, 24), 24),
    {
        bits::sign_extend_i32(bits::get(self.0, 0, 24), 24)
    }
}

/// The `VSTART` register (write-only, wire address `0x23`).
#[derive(Clone, Copy, Debug, PartialEq, Eq, Structural, Hash)]
pub struct VSTART(pub u32);

impl Default for VSTART {
    /// The hardware-documented reset value of `VSTART`.
    fn default() -> (r: Self)
        ensures
            r == VSTART(0x00000000u32),
    {
        VSTART(0x00000000)
    }
}

impl Register for VSTART {
    open spec fn spec_address() -> Address {
        Address::VSTART
    }

    open spec fn spec_bits(self) -> u32 {
        self.0
    }

    open spec fn spec_from_bits(bits: u32) -> Self {
        VSTART(bits)
    }

    fn address() -> (a: Address) {
        Address::VSTART
    }

    fn from_bits(bits: u32) -> (r: Self) {
        VSTART(bits)
    }

    fn bits(self) -> (r: u32) {
        self.0
    }

    fn into_state(self) -> (s: State) {
        State::VSTART(self)
    }

    fn try_from_state(s: &State) -> (r: Result<Self, UnexpectedAddress>) {
        match *s {
            State::VSTART(v) => Ok(v),
            _ => Err(UnexpectedAddress),
        }
    }

    proof fn lemma_bits_round_trip(bits: u32) {
    }
}

impl WritableRegister for VSTART {
    proof fn lemma_writable() {
    }
}

impl VSTART {
    /// Read the `get` bit-field.
    pub fn get(&self) -> (r: u32)
        ensures
            r == bits::spec_get(self.0, 0, 18),
    {
        bits::get(self.0, 0, 18)
    }

    /// Write the `get` bit-field; a value wider than the field is truncated.
    pub fn set(&mut self, value: u32)
        ensures
            final(self).0 == bits::spec_set(old(self).0, 0, 18, value),
    {
        self.0 = bits::set(self.0, 0, 18, value);
    }
}

/// The `A1` register (write-only, wire address `0x24`).
#[derive(Clone, Copy, Debug, PartialEq, Eq, Structural, Hash)]
pub struct A1(pub u32);

impl Default for A1 {
    /// The hardware-documented reset value of `A1`.
    fn default() -> (r: Self)
        ensures
            r == A1(0x00000000u32),
    {
        A1(0x00000000)
    }
}

impl Register for A1 {
    open spec fn spec_address() -> Address {
        Address::A1
    }

    open spec fn spec_bits(self) -> u32 {
        self.0
    }

    open spec fn spec_from_bits(bits: u32) -> Self {
        A1(bits)
    }

    fn address() -> (a: Address) {
        Address::A1
    }

    fn from_bits(bits: u32) -> (r: Self) {
        A1(bits)
    }

    fn bits(self) -> (r: u32) {
        self.0
    }

    fn into_state(self) -> (s: State) {
        State::A1(self)
    }

    fn try_from_state(s: &State) -> (r: Result<Self, UnexpectedAddress>) {
        match *s {
            State::A1(v) => Ok(v),
            _ => Err(UnexpectedAddress),
        }
    }

    proof fn lemma_bits_round_trip(bits: u32) {
    }
}

impl WritableRegister for A1 {
    proof fn lemma_writable() {
    }
}

impl A1 {
    /// Read the `get` bit-field.
    pub fn get(&self) -> (r: u16)
        ensures
            r == bits::spec_get(self.0, 0, 16) as u16,
    {
        #[verifier::truncate] (bits::get(self.0, 0, 16) as u16)
    }

    /// Write the `get` bit-field; a value wider than the field is truncated.
    pub fn set(&mut self, value: u16)
        ensures
            final(self).0 == bits::spec_set(old(self).0, 0, 16, value as u32),
    {
        self.0 = bits::set(self.0, 0, 16, value as u32);
    }
}

/// The `V1` register (write-only, wire address `0x25`).
#[derive(Clone, Copy, Debug, PartialEq, Eq, Structural, Hash)]
pub struct V1(pub u32);

impl Default for V1 {
    /// The hardware-documented reset value of `V1`.
    fn default() -> (r: Self)
        ensures
            r == V1(0x00000000u32),
    {
        V1(0x00000000)
    }
}

impl Register for V1 {
    open spec fn spec_address() -> Address {
        Address::V1
    }

    open spec fn spec_bits(self) -> u32 {
        self.0
    }

    open spec fn spec_from_bits(bits: u32) -> Self {
        V1(bits)
    }

    fn address() -> (a: Address) {
        Address::V1
    }

    fn from_bits(bits: u32) -> (r: Self) {
        V1(bits)
    }

    fn bits(self) -> (r: u32) {
        self.0
    }

    fn into_state(self) -> (s: State) {
        State::V1(self)
    }

    fn try_from_state(s: &State) -> (r: Result<Self, UnexpectedAddress>) {
        match *s {
            State::V1(v) => Ok(v),
            _ => Err(UnexpectedAddress),
        }
    }

    proof fn lemma_bits_round_trip(bits: u32) {
    }
}

impl WritableRegister for V1 {
    proof fn lemma_writable() {
    }
}

impl V1 {
    /// Read the `get` bit-field.
    pub fn get(&self) -> (r: u32)
        ensures
            r == bits::spec_get(self.0, 0, 20),
    {
        bits::get(self.0, 0, 20)
    }

    /// Write the `get` bit-field; a value wider than the field is truncated.
    pub fn set(&mut self, value: u32)
        ensures
            final(self).0 == bits::spec_set(old(self).0, 0, 20, value),
    {
        self.0 = bits::set(self.0, 0, 20, value);
    }
}

/// The `AMAX` register (write-only, wire address `0x26`).
#[derive(Clone, Copy, Debug, PartialEq, Eq, Structural, Hash)]
pub struct AMAX(pub u32);

impl Default for AMAX {
    /// The hardware-documented reset value of `AMAX`.
    fn default() -> (r: Self)
        ensures
            r == AMAX(0x00000000u32),
    {
        AMAX(0x00000000)
    }
}

impl Register for AMAX {
    open spec fn spec_address() -> Address {
        Address::AMAX
    }

    open spec fn spec_bits(self) -> u32 {
        self.0
    }

    open spec fn spec_from_bits(bits: u32) -> Self {
        AMAX(bits)
    }

    fn address() -> (a: Address) {
        Address::AMAX
    }

    fn from_bits(bits: u32) -> (r: Self) {
        AMAX(bits)
    }

    fn bits(self) -> (r: u32) {
        self.0
    }

    fn into_state(self) -> (s: State) {
        State::AMAX(self)
    }

    fn try_from_state(s: &State) -> (r: Result<Self, UnexpectedAddress>) {
        match *s {
            State::AMAX(v) => Ok(v),
            _ => Err(UnexpectedAddress),
        }
    }

    proof fn lemma_bits_round_trip(bits: u32) {
    }
}

impl WritableRegister for AMAX {
    proof fn lemma_writable() {
    }
}

impl AMAX {
    /// Read the `get` bit-field.
    pub fn get(&self) -> (r: u16)
        ensures
            r == bits::spec_get(self.0, 0, 16) as u16,
    {
        #[verifier::truncate] (bits::get(self.0, 0, 16) as u16)
    }

    /// Write the `get` bit-field; a value wider than the field is truncated.
    pub fn set(&mut self, value: u16)
        ensures
            final(self).0 == bits::spec_set(old(self).0, 0, 16, value as u32),
    {
        self.0 = bits::set(self.0, 0, 16, value as u32);
    }
}

/// The `VMAX` register (write-only, wire address `0x27`).
#[derive(Clone, Copy, Debug, PartialEq, Eq, Structural, Hash)]
pub struct VMAX(pub u32);

impl Default for VMAX {
    /// The hardware-documented reset value of `VMAX`.
    fn default() -> (r: Self)
        ensures
            r == VMAX(0x00000000u32),
    {
        VMAX(0x00000000)
    }
}

impl Register for VMAX {
    open spec fn spec_address() -> Address {
        Address::VMAX
    }

    open spec fn spec_bits(self) -> u32 {
        self.0
    }

    open spec fn spec_from_bits(bits: u32) -> Self {
        VMAX(bits)
    }

    fn address() -> (a: Address) {
        Address::VMAX
    }

    fn from_bits(bits: u32) -> (r: Self) {
        VMAX(bits)
    }

    fn bits(self) -> (r: u32) {
        self.0
    }

    fn into_state(self) -> (s: State) {
        State::VMAX(self)
    }

    fn try_from_state(s: &State) -> (r: Result<Self, UnexpectedAddress>) {
        match *s {
            State::VMAX(v) => Ok(v),
            _ => Err(UnexpectedAddress),
        }
    }

    proof fn lemma_bits_round_trip(bits: u32) {
    }
}

impl WritableRegister for VMAX {
    proof fn lemma_writable() {
    }
}

impl VMAX {
    /// Read the `get` bit-field.
    pub fn get(&self) -> (r: u32)
        ensures
            r == bits::spec_get(self.0, 0, 23),
    {
        bits::get(self.0, 0, 23)
    }

    /// Write the `get` bit-field; a value wider than the field is truncated.
    pub fn set(&mut self, value: u32)
        ensures
            final(self).0 == bits::spec_set(old(self).0, 0, 23, value),
    {
        self.0 = bits::set(self.0, 0, 23, value);
    }
}

/// The `DMAX` register (write-only, wire address `0x28`).
#[derive(Clone, Copy, Debug, PartialEq, Eq, Structural, Hash)]
pub struct DMAX(pub u32);

impl Default for DMAX {
    /// The hardware-documented reset value of `DMAX`.
    fn default() -> (r: Self)
        ensures
            r == DMAX(0x00000000u32),
    {
        DMAX(0x00000000)
    }
}

impl Register for DMAX {
    open spec fn spec_address() -> Address {
        Address::DMAX
    }

    open spec fn spec_bits(self) -> u32 {
        self.0
    }

    open spec fn spec_from_bits(bits: u32) -> Self {
        DMAX(bits)
    }

    fn address() -> (a: Address) {
        Address::DMAX
    }

    fn from_bits(bits: u32) -> (r: Self) {
        DMAX(bits)
    }

    fn bits(self) -> (r: u32) {
        self.0
    }

    fn into_state(self) -> (s: State) {
        State::DMAX(self)
    }

    fn try_from_state(s: &State) -> (r: Result<Self, UnexpectedAddress>) {
        match *s {
            State::DMAX(v) => Ok(v),
            _ => Err(UnexpectedAddress),
        }
    }

    proof fn lemma_bits_round_trip(bits: u32) {
    }
}

impl WritableRegister for DMAX {
    proof fn lemma_writable() {
    }
}

impl DMAX {
    /// Read the `get` bit-field.
    pub fn get(&self) -> (r: u16)
        ensures
            r == bits::spec_get(self.0, 0, 16) as u16,
    {
        #[verifier::truncate] (bits::get(self.0, 0, 16) as u16)
    }

    /// Write the `get` bit-field; a value wider than the field is truncated.
    pub fn set(&mut self, value: u16)
        ensures
            final(self).0 == bits::spec_set(old(self).0, 0, 16, value as u32),
    {
        self.0 = bits::set(self.0, 0, 16, value as u32);
    }
}

/// The `D1` register (write-only, wire address `0x2A`).
#[derive(Clone, Copy, Debug, PartialEq, Eq, Structural, Hash)]
pub struct D1(pub u32);

impl Default for D1 {
    /// The hardware-documented reset value of `D1`.
    fn default() -> (r: Self)
        ensures
            r == D1(0x00000000u32),
    {
        D1(0x00000000)
    }
}

impl Register for D1 {
    open spec fn spec_address() -> Address {
        Address::D1
    }

    open spec fn spec_bits(self) -> u32 {
        self.0
    }

    open spec fn spec_from_bits(bits: u32) -> Self {
        D1(bits)
    }

    fn address() -> (a: Address) {
        Address::D1
    }

    fn from_bits(bits: u32) -> (r: Self) {
        D1(bits)
    }

    fn bits(self) -> (r: u32) {
        self.0
    }

    fn into_state(self) -> (s: State) {
        State::D1(self)
    }

    fn try_from_state(s: &State) -> (r: Result<Self, UnexpectedAddress>) {
        match *s {
            State::D1(v) => Ok(v),
            _ => Err(UnexpectedAddress),
        }
    }

    proof fn lemma_bits_round_trip(bits: u32) {
    }
}

impl WritableRegister for D1 {
    proof fn lemma_writable() {
    }
}

impl D1 {
    /// Read the `get` bit-field.
    pub fn get(&self) -> (r: u16)
        ensures
            r == bits::spec_get(self.0, 0, 16) as u16,
    {
        #[verifier::truncate] (bits::get(self.0, 0, 16) as u16)
    }

    /// Write the `get` bit-field; a value wider than the field is truncated.
    pub fn set(&mut self, value: u16)
        ensures
            final(self).0 == bits::spec_set(old(self).0, 0, 16, value as u32),
    {
        self.0 = bits::set(self.0, 0, 16, value as u32);
    }
}

/// The `VSTOP` register (write-only, wire address `0x2B`).
#[derive(Clone, Copy, Debug, PartialEq, Eq, Structural, Hash)]
pub struct VSTOP(pub u32);

impl Default for VSTOP {
    /// The hardware-documented reset value of `VSTOP`.
    fn default() -> (r: Self)
        ensures
            r == VSTOP(0x00000000u32),
    {
        VSTOP(0x00000000)
    }
}

impl Register for VSTOP {
    open spec fn spec_address() -> Address {
        Address::VSTOP
    }

    open spec fn spec_bits(self) -> u32 {
        self.0
    }

    open spec fn spec_from_bits(bits: u32) -> Self {
        VSTOP(bits)
    }

    fn address() -> (a: Address) {
        Address::VSTOP
    }

    fn from_bits(bits: u32) -> (r: Self) {
        VSTOP(bits)
    }

    fn bits(self) -> (r: u32) {
        self.0
    }

    fn into_state(self) -> (s: State) {
        State::VSTOP(self)
    }

    fn try_from_state(s: &State) -> (r: Result<Self, UnexpectedAddress>) {
        match *s {
            State::VSTOP(v) => Ok(v),
            _ => Err(UnexpectedAddress),
        }
    }

    proof fn lemma_bits_round_trip(bits: u32) {
    }
}

impl WritableRegister for VSTOP {
    proof fn lemma_writable() {
    }
}

impl VSTOP {
    /// Read the `get` bit-field.
    pub fn get(&self) -> (r: u32)
        ensures
            r == bits::spec_get(self.0, 0, 18),
    {
        bits::get(self.0, 0, 18)
    }

    /// Write the `get` bit-field; a value wider than the field is truncated.
    pub fn set(&mut self, value: u32)
        ensures
            final(self).0 == bits::spec_set(old(self).0, 0, 18, value),
    {
        self.0 = bits::set(self.0, 0, 18, value);
    }
}

/// The `TZEROWAIT` register (write-only, wire address `0x2C`).
#[derive(Clone, Copy, Debug, PartialEq, Eq, Structural, Hash)]
pub struct TZEROWAIT(pub u32);

impl Default for TZEROWAIT {
    /// The hardware-documented reset value of `TZEROWAIT`.
    fn default() -> (r: Self)
        ensures
            r == TZEROWAIT(0x00000000u32),
    {
        TZEROWAIT(0x00000000)
    }
}

impl Register for TZEROWAIT {
    open spec fn spec_address() -> Address {
        Address::TZEROWAIT
    }

    open spec fn spec_bits(self) -> u32 {
        self.0
    }

    open spec fn spec_from_bits(bits: u32) -> Self {
        TZEROWAIT(bits)
    }

    fn address() -> (a: Address) {
        Address::TZEROWAIT
    }

    fn from_bits(bits: u32) -> (r: Self) {
        TZEROWAIT(bits)
    }

    fn bits(self) -> (r: u32) {
        self.0
    }

    fn into_state(self) -> (s: State) {
        State::TZEROWAIT(self)
    }

    fn try_from_state(s: &State) -> (r: Result<Self, UnexpectedAddress>) {
        match *s {
            State::TZEROWAIT(v) => Ok(v),
            _ => Err(UnexpectedAddress),
        }
    }

    proof fn lemma_bits_round_trip(bits: u32) {
    }
}

impl WritableRegister for TZEROWAIT {
    proof fn lemma_writable() {
    }
}

impl TZEROWAIT {
    /// Read the `get` bit-field.
    pub fn get(&self) -> (r: u16)
        ensures
            r == bits::spec_get(self.0, 0, 16) as u16,
    {
        #[verifier::truncate] (bits::get(self.0, 0, 16) as u16)
    }

    /// Write the `get` bit-field; a value wider than the field is truncated.
    pub fn set(&mut self, value: u16)
        ensures
            final(self).0 == bits::spec_set(old(self).0, 0, 16, value as u32),
    {
        self.0 = bits::set(self.0, 0, 16, value as u32);
    }
}

/// The `XTARGET` register (read/write, wire address `0x2D`).
#[derive(Clone, Copy, Debug, PartialEq, Eq, Structural, Hash)]
pub struct XTARGET(pub u32);

impl Default for XTARGET {
    /// The hardware-documented reset value of `XTARGET`.
    fn default() -> (r: Self)
        ensures
            r == XTARGET(0x00000000u32),
    {
        XTARGET(0x00000000)
    }
}

impl Register for XTARGET {
    open spec fn spec_address() -> Address {
        Address::XTARGET
    }

    open spec fn spec_bits(self) -> u32 {
        self.0
    }

    open spec fn spec_from_bits(bits: u32) -> Self {
        XTARGET(bits)
    }

    fn address() -> (a: Address) {
        Address::XTARGET
    }

    fn from_bits(bits: u32) -> (r: Self) {
        XTARGET(bits)
    }

    fn bits(self) -> (r: u32) {
        self.0
    }

    fn into_state(self) -> (s: State) {
        State::XTARGET(self)
    }

    fn try_from_state(s: &State) -> (r: Result<Self, UnexpectedAddress>) {
        match *s {
            State::XTARGET(v) => Ok(v),
            _ => Err(UnexpectedAddress),
        }
    }

    proof fn lemma_bits_round_trip(bits: u32) {
    }
}

impl ReadableRegister for XTARGET {
    proof fn lemma_readable() {
    }
}

impl WritableRegister for XTARGET {
    proof fn lemma_writable() {
    }
}

impl XTARGET {
    /// Read the `get` bit-field as a signed quantity.
    pub fn get(&self) -> (r: i32)
        ensures
            r as int == bits::spec_sign_extend(bits::spec_get(self.0, 0, 32), 32),
    {
        bits::sign_extend_i32(bits::get(self.0, 0, 32), 32)
    }

    /// Write the `get` bit-field; the value is truncated to the field's width.
    pub fn set(&mut self, value: i32)
        ensures
            final(self).0 == bits::spec_set(old(self).0, 0, 32, value as u32),
    {
        self.0 = bits::set(self.0, 0, 32, #[verifier::truncate] (value as u32));
    }
}

/// The `VDCMIN` register (write-only, wire address `0x33`).
#[derive(Clone, Copy, Debug, PartialEq, Eq, Structural, Hash)]
pub struct VDCMIN(pub u32);

impl Default for VDCMIN {
    /// The hardware-documented reset value of `VDCMIN`.
    fn default() -> (r: Self)
        ensures
            r == VDCMIN(0x00000000u32),
    {
        VDCMIN(0x00000000)
    }
}

impl Register for VDCMIN {
    open spec fn spec_address() -> Address {
        Address::VDCMIN
    }

    open spec fn spec_bits(self) -> u32 {
        self.0
    }

    open spec fn spec_from_bits(bits: u32) -> Self {
        VDCMIN(bits)
    }

    fn address() -> (a: Address) {
        Address::VDCMIN
    }

    fn from_bits(bits: u32) -> (r: Self) {
        VDCMIN(bits)
    }

    fn bits(self) -> (r: u32) {
        self.0
    }

    fn into_state(self) -> (s: State) {
        State::VDCMIN(self)
    }

    fn try_from_state(s: &State) -> (r: Result<Self, UnexpectedAddress>) {
        match *s {
            State::VDCMIN(v) => Ok(v),
            _ => Err(UnexpectedAddress),
        }
    }

    proof fn lemma_bits_round_trip(bits: u32) {
    }
}

impl WritableRegister for VDCMIN {
    proof fn lemma_writable() {
    }
}

impl VDCMIN {
    /// Read the `get` bit-field.
    pub fn get(&self) -> (r: u32)
        ensures
            r == bits::spec_get(self.0, 0, 23),
    {
        bits::get(self.0, 0, 23)
    }

    /// Write the `get` bit-field; a value wider than the field is truncated.
    pub fn set(&mut self, value: u32)
        ensures
            final(self).0 == bits::spec_set(old(self).0, 0, 23, value),
    {
        self.0 = bits::set(self.0, 0, 23, value);
    }
}

/// The `SW_MODE` register (read/write, wire address `0x34`).
#[derive(Clone, Copy, Debug, PartialEq, Eq, Structural, Hash)]
pub struct SW_MODE(pub u32);

impl Default for SW_MODE {
    /// The hardware-documented reset value of `SW_MODE`.
    fn default() -> (r: Self)
        ensures
            r == SW_MODE(0x00000000u32),
    {
        SW_MODE(0x00000000)
    }
}

impl Register for SW_MODE {
    open spec fn spec_address() -> Address {
        Address::SW_MODE
    }

    open spec fn spec_bits(self) -> u32 {
        self.0
    }

    open spec fn spec_from_bits(bits: u32) -> Self {
        SW_MODE(bits)
    }

    fn address() -> (a: Address) {
        Address::SW_MODE
    }

    fn from_bits(bits: u32) -> (r: Self) {
        SW_MODE(bits)
    }

    fn bits(self) -> (r: u32) {
        self.0
    }

    fn into_state(self) -> (s: State) {
        State::SW_MODE(self)
    }

    fn try_from_state(s: &State) -> (r: Result<Self, UnexpectedAddress>) {
        match *s {
            State::SW_MODE(v) => Ok(v),
            _ => Err(UnexpectedAddress),
        }
    }

    proof fn lemma_bits_round_trip(bits: u32) {
    }
}

impl ReadableRegister for SW_MODE {
    proof fn lemma_readable() {
    }
}

impl WritableRegister for SW_MODE {
    proof fn lemma_writable() {
    }
}

impl SW_MODE {
    /// Read the `stop_l_enable` bit-field.
    pub fn stop_l_enable(&self) -> (r: bool)
        ensures
            r == (bits::spec_get(self.0, 0, 1) == 1),
    {
        bits::get(self.0, 0, 1) == 1
    }

    /// Write the `stop_l_enable` bit-field.
    pub fn set_stop_l_enable(&mut self, value: bool)
        ensures
            final(self).0 == bits::spec_set(old(self).0, 0, 1, (if value { 1u32 } else { 0u32 })),
    {
        self.0 = bits::set(self.0, 0, 1, if value { 1 } else { 0 });
    }

    /// Read the `stop_r_enable` bit-field.
    pub fn stop_r_enable(&self) -> (r: bool)
        ensures
            r == (bits::spec_get(self.0, 1, 1) == 1),
    {
        bits::get(self.0, 1, 1) == 1
    }

    /// Write the `stop_r_enable` bit-field.
    pub fn set_stop_r_enable(&mut self, value: bool)
        ensures
            final(self).0 == bits::spec_set(old(self).0, 1, 1, (if value { 1u32 } else { 0u32 })),
    {
        self.0 = bits::set(self.0, 1, 1, if value { 1 } else { 0 });
    }

    /// Read the `pol_stop_l` bit-field.
    pub fn pol_stop_l(&self) -> (r: bool)
        ensures
            r == (bits::spec_get(self.0, 2, 1) == 1),
    {
        bits::get(self.0, 2, 1) == 1
    }

    /// Write the `pol_stop_l` bit-field.
    pub fn set_pol_stop_l(&mut self, value: bool)
        ensures
            final(self).0 == bits::spec_set(old(self).0, 2, 1, (if value { 1u32 } else { 0u32 })),
    {
        self.0 = bits::set(self.0, 2, 1, if value { 1 } else { 0 });
    }

    /// Read the `pol_stop_r` bit-field.
    pub fn pol_stop_r(&self) -> (r: bool)
        ensures
            r == (bits::spec_get(self.0, 3, 1) == 1),
    {
        bits::get(self.0, 3, 1) == 1
    }

    /// Write the `pol_stop_r` bit-field.
    pub fn set_pol_stop_r(&mut self, value: bool)
        ensures
            final(self).0 == bits::spec_set(old(self).0, 3, 1, (if value { 1u32 } else { 0u32 })),
    {
        self.0 = bits::set(self.0, 3, 1, if value { 1 } else { 0 });
    }

    /// Read the `swap_lr` bit-field.
    pub fn swap_lr(&self) -> (r: bool)
        ensures
            r == (bits::spec_get(self.0, 4, 1) == 1),
    {
        bits::get(self.0, 4, 1) == 1
    }

    /// Write the `swap_lr` bit-field.
    pub fn set_swap_lr(&mut self, value: bool)
        ensures
            final(self).0 == bits::spec_set(old(self).0, 4, 1, (if value { 1u32 } else { 0u32 })),
    {
        self.0 = bits::set(self.0, 4, 1, if value { 1 } else { 0 });
    }

    /// Read the `latch_l_active` bit-field.
    pub fn latch_l_active(&self) -> (r: bool)
        ensures
            r == (bits::spec_get(self.0, 5, 1) == 1),
    {
        bits::get(self.0, 5, 1) == 1
    }

    /// Write the `latch_l_active` bit-field.
    pub fn set_latch_l_active(&mut self, value: bool)
        ensures
            final(self).0 == bits::spec_set(old(self).0, 5, 1, (if value { 1u32 } else { 0u32 })),
    {
        self.0 = bits::set(self.0, 5, 1, if value { 1 } else { 0 });
    }

    /// Read the `latch_l_inactive` bit-field.
    pub fn latch_l_inactive(&self) -> (r: bool)
        ensures
            r == (bits::spec_get(self.0, 6, 1) == 1),
    {
        bits::get(self.0, 6, 1) == 1
    }

    /// Write the `latch_l_inactive` bit-field.
    pub fn set_latch_l_inactive(&mut self, value: bool)
        ensures
            final(self).0 == bits::spec_set(old(self).0, 6, 1, (if value { 1u32 } else { 0u32 })),
    {
        self.0 = bits::set(self.0, 6, 1, if value { 1 } else { 0 });
    }

    /// Read the `latch_r_active` bit-field.
    pub fn latch_r_active(&self) -> (r: bool)
        ensures
            r == (bits::spec_get(self.0, 7, 1) == 1),
    {
        bits::get(self.0, 7, 1) == 1
    }

    /// Write the `latch_r_active` bit-field.
    pub fn set_latch_r_active(&mut self, value: bool)
        ensures
            final(self).0 == bits::spec_set(old(self).0, 7, 1, (if value { 1u32 } else { 0u32 })),
    {
        self.0 = bits::set(self.0, 7, 1, if value { 1 } else { 0 });
    }

    /// Read the `latch_r_inactive` bit-field.
    pub fn latch_r_inactive(&self) -> (r: bool)
        ensures
            r == (bits::spec_get(self.0, 8, 1) == 1),
    {
        bits::get(self.0, 8, 1) == 1
    }

    /// Write the `latch_r_inactive` bit-field.
    pub fn set_latch_r_inactive(&mut self, value: bool)
        ensures
            final(self).0 == bits::spec_set(old(self).0, 8, 1, (if value { 1u32 } else { 0u32 })),
    {
        self.0 = bits::set(self.0, 8, 1, if value { 1 } else { 0 });
    }

    /// Read the `en_latch_encoder` bit-field.
    pub fn en_latch_encoder(&self) -> (r: bool)
        ensures
            r == (bits::spec_get(self.0, 9, 1) == 1),
    {
        bits::get(self.0, 9, 1) == 1
    }

    /// Write the `en_latch_encoder` bit-field.
    pub fn set_en_latch_encoder(&mut self, value: bool)
        ensures
            final(self).0 == bits::spec_set(old(self).0, 9, 1, (if value { 1u32 } else { 0u32 })),
    {
        self.0 = bits::set(self.0, 9, 1, if value { 1 } else { 0 });
    }

    /// Read the `sg_stop` bit-field.
    pub fn sg_stop(&self) -> (r: bool)
        ensures
            r == (bits::spec_get(self.0, 10, 1) == 1),
    {
        bits::get(self.0, 10, 1) == 1
    }

    /// Write the `sg_stop` bit-field.
    pub fn set_sg_stop(&mut self, value: bool)
        ensures
            final(self).0 == bits::spec_set(old(self).0, 10, 1, (if value { 1u32 } else { 0u32 })),
    {
        self.0 = bits::set(self.0, 10, 1, if value { 1 } else { 0 });
    }

    /// Read the `en_softstop` bit-field.
    pub fn en_softstop(&self) -> (r: bool)
        ensures
            r == (bits::spec_get(self.0, 11, 1) == 1),
    {
        bits::get(self.0, 11, 1) == 1
    }

    /// Write the `en_softstop` bit-field.
    pub fn set_en_softstop(&mut self, value: bool)
        ensures
            final(self).0 == bits::spec_set(old(self).0, 11, 1, (if value { 1u32 } else { 0u32 })),
    {
        self.0 = bits::set(self.0, 11, 1, if value { 1 } else { 0 });
    }
}

/// The `RAMP_STAT` register (read/write, wire address `0x35`).
#[derive(Clone, Copy, Debug, PartialEq, Eq, Structural, Hash)]
pub struct RAMP_STAT(pub u32);

impl Default for RAMP_STAT {
    /// The hardware-documented reset value of `RAMP_STAT`.
    fn default() -> (r: Self)
        ensures
            r == RAMP_STAT(0x00000000u32),
    {
        RAMP_STAT(0x00000000)
    }
}

impl Register for RAMP_STAT {
    open spec fn spec_address() -> Address {
        Address::RAMP_STAT
    }

    open spec fn spec_bits(self) -> u32 {
        self.0
    }

    open spec fn spec_from_bits(bits: u32) -> Self {
        RAMP_STAT(bits)
    }

    fn address() -> (a: Address) {
        Address::RAMP_STAT
    }

    fn from_bits(bits: u32) -> (r: Self) {
        RAMP_STAT(bits)
    }

    fn bits(self) -> (r: u32) {
        self.0
    }

    fn into_state(self) -> (s: State) {
        State::RAMP_STAT(self)
    }

    fn try_from_state(s: &State) -> (r: Result<Self, UnexpectedAddress>) {
        match *s {
            State::RAMP_STAT(v) => Ok(v),
            _ => Err(UnexpectedAddress),
        }
    }

    proof fn lemma_bits_round_trip(bits: u32) {
    }
}

impl ReadableRegister for RAMP_STAT {
    proof fn lemma_readable() {
    }
}

impl WritableRegister for RAMP_STAT {
    proof fn lemma_writable() {
    }
}

impl RAMP_STAT {
    /// Read the `status_stop_l` bit-field.
    pub fn status_stop_l(&self) -> (r: bool)
        ensures
            r == (bits::spec_get(self.0, 0, 1) == 1),
    {
        bits::get(self.0, 0, 1) == 1
    }

    /// Read the `status_stop_r` bit-field.
    pub fn status_stop_r(&self) -> (r: bool)
        ensures
            r == (bits::spec_get(self.0, 1, 1) == 1),
    {
        bits::get(self.0, 1, 1) == 1
    }

    /// Read the `status_latch_l` bit-field.
    pub fn status_latch_l(&self) -> (r: bool)
        ensures
            r == (bits::spec_get(self.0, 2, 1) == 1),
    {
        bits::get(self.0, 2, 1) == 1
    }

    /// Write the `status_latch_l` bit-field.
    pub fn set_status_latch_l(&mut self, value: bool)
        ensures
            final(self).0 == bits::spec_set(old(self).0, 2, 1, (if value { 1u32 } else { 0u32 })),
    {
        self.0 = bits::set(self.0, 2, 1, if value { 1 } else { 0 });
    }

    /// Read the `status_latch_r` bit-field.
    pub fn status_latch_r(&self) -> (r: bool)
        ensures
            r == (bits::spec_get(self.0, 3, 1) == 1),
    {
        bits::get(self.0, 3, 1) == 1
    }

    /// Write the `status_latch_r` bit-field.
    pub fn set_status_latch_r(&mut self, value: bool)
        ensures
            final(self).0 == bits::spec_set(old(self).0, 3, 1, (if value { 1u32 } else { 0u32 })),
    {
        self.0 = bits::set(self.0, 3, 1, if value { 1 } else { 0 });
    }

    /// Read the `event_stop_l` bit-field.
    pub fn event_stop_l(&self) -> (r: bool)
        ensures
            r == (bits::spec_get(self.0, 4, 1) == 1),
    {
        bits::get(self.0, 4, 1) == 1
    }

    /// Read the `event_stop_r` bit-field.
    pub fn event_stop_r(&self) -> (r: bool)
        ensures
            r == (bits::spec_get(self.0, 5, 1) == 1),
    {
        bits::get(self.0, 5, 1) == 1
    }

    /// Read the `event_stop_sg` bit-field.
    pub fn event_stop_sg(&self) -> (r: bool)
        ensures
            r == (bits::spec_get(self.0, 6, 1) == 1),
    {
        bits::get(self.0, 6, 1) == 1
    }

    /// Write the `event_stop_sg` bit-field.
    pub fn set_event_stop_sg(&mut self, value: bool)
        ensures
            final(self).0 == bits::spec_set(old(self).0, 6, 1, (if value { 1u32 } else { 0u32 })),
    {
        self.0 = bits::set(self.0, 6, 1, if value { 1 } else { 0 });
    }

    /// Read the `event_pos_reached` bit-field.
    pub fn event_pos_reached(&self) -> (r: bool)
        ensures
            r == (bits::spec_get(self.0, 7, 1) == 1),
    {
        bits::get(self.0, 7, 1) == 1
    }

    /// Write the `event_pos_reached` bit-field.
    pub fn set_event_pos_reached(&mut self, value: bool)
        ensures
            final(self).0 == bits::spec_set(old(self).0, 7, 1, (if value { 1u32 } else { 0u32 })),
    {
        self.0 = bits::set(self.0, 7, 1, if value { 1 } else { 0 });
    }

    /// Read the `velocity_reached` bit-field.
    pub fn velocity_reached(&self) -> (r: bool)
        ensures
            r == (bits::spec_get(self.0, 8, 1) == 1),
    {
        bits::get(self.0, 8, 1) == 1
    }

    /// Read the `position_reached` bit-field.
    pub fn position_reached(&self) -> (r: bool)
        ensures
            r == (bits::spec_get(self.0, 9, 1) == 1),
    {
        bits::get(self.0, 9, 1) == 1
    }

    /// Read the `vzero` bit-field.
    pub fn vzero(&self) -> (r: bool)
        ensures
            r == (bits::spec_get(self.0, 10, 1) == 1),
    {
        bits::get(self.0, 10, 1) == 1
    }

    /// Read the `t_zerowait_active` bit-field.
    pub fn t_zerowait_active(&self) -> (r: bool)
        ensures
            r == (bits::spec_get(self.0, 11, 1) == 1),
    {
        bits::get(self.0, 11, 1) == 1
    }

    /// Read the `second_move` bit-field.
    pub fn second_move(&self) -> (r: bool)
        ensures
            r == (bits::spec_get(self.0, 12, 1) == 1),
    {
        bits::get(self.0, 12, 1) == 1
    }

    /// Write the `second_move` bit-field.
    pub fn set_second_move(&mut self, value: bool)
        ensures
            final(self).0 == bits::spec_set(old(self).0, 12, 1, (if value { 1u32 } else { 0u32 })),
    {
        self.0 = bits::set(self.0, 12, 1, if value { 1 } else { 0 });
    }

    /// Read the `status_sg` bit-field.
    pub fn status_sg(&self) -> (r: bool)
        ensures
            r == (bits::spec_get(self.0, 13, 1) == 1),
    {
        bits::get(self.0, 13, 1) == 1
    }
}

/// The `XLATCH` register (read-only, wire address `0x36`).
#[derive(Clone, Copy, Debug, PartialEq, Eq, Structural, Hash)]
pub struct XLATCH(pub u32);

impl Default for XLATCH {
    /// The hardware-documented reset value of `XLATCH`.
    fn default() -> (r: Self)
        ensures
            r == XLATCH(0x00000000u32),
    {
        XLATCH(0x00000000)
    }
}

impl Register for XLATCH {
    open spec fn spec_address() -> Address {
        Address::XLATCH
    }

    open spec fn spec_bits(self) -> u32 {
        self.0
    }

    open spec fn spec_from_bits(bits: u32) -> Self {
        XLATCH(bits)
    }

    fn address() -> (a: Address) {
        Address::XLATCH
    }

    fn from_bits(bits: u32) -> (r: Self) {
        XLATCH(bits)
    }

    fn bits(self) -> (r: u32) {
        self.0
    }

    fn into_state(self) -> (s: State) {
        State::XLATCH(self)
    }

    fn try_from_state(s: &State) -> (r: Result<Self, UnexpectedAddress>) {
        match *s {
            State::XLATCH(v) => Ok(v),
            _ => Err(UnexpectedAddress),
        }
    }

    proof fn lemma_bits_round_trip(bits: u32) {
    }
}

impl ReadableRegister for XLATCH {
    proof fn lemma_readable() {
    }
}

/// The `MSLUT0` register (write-only, wire address `0x60`).
#[derive(Clone, Copy, Debug, PartialEq, Eq, Structural, Hash)]
pub struct MSLUT0(pub u32);

impl Default for MSLUT0 {
    /// The hardware-documented reset value of `MSLUT0`.
    fn default() -> (r: Self)
        ensures
            r == MSLUT0(0x00000000u32),
    {
        MSLUT0(0x00000000)
    }
}

impl Register for MSLUT0 {
    open spec fn spec_address() -> Address {
        Address::MSLUT0
    }

    open spec fn spec_bits(self) -> u32 {
        self.0
    }

    open spec fn spec_from_bits(bits: u32) -> Self {
        MSLUT0(bits)
    }

    fn address() -> (a: Address) {
        Address::MSLUT0
    }

    fn from_bits(bits: u32) -> (r: Self) {
        MSLUT0(bits)
    }

    fn bits(self) -> (r: u32) {
        self.0
    }

    fn into_state(self) -> (s: State) {
        State::MSLUT0(self)
    }

    fn try_from_state(s: &State) -> (r: Result<Self, UnexpectedAddress>) {
        match *s {
            State::MSLUT0(v) => Ok(v),
            _ => Err(UnexpectedAddress),
        }
    }

    proof fn lemma_bits_round_trip(bits: u32) {
    }
}

impl WritableRegister for MSLUT0 {
    proof fn lemma_writable() {
    }
}

/// The `MSLUT1` register (write-only, wire address `0x61`).
#[derive(Clone, Copy, Debug, PartialEq, Eq, Structural, Hash)]
pub struct MSLUT1(pub u32);

impl Default for MSLUT1 {
    /// The hardware-documented reset value of `MSLUT1`.
    fn default() -> (r: Self)
        ensures
            r == MSLUT1(0x00000000u32),
    {
        MSLUT1(0x00000000)
    }
}

impl Register for MSLUT1 {
    open spec fn spec_address() -> Address {
        Address::MSLUT1
    }

    open spec fn spec_bits(self) -> u32 {
        self.0
    }

    open spec fn spec_from_bits(bits: u32) -> Self {
        MSLUT1(bits)
    }

    fn address() -> (a: Address) {
        Address::MSLUT1
    }

    fn from_bits(bits: u32) -> (r: Self) {
        MSLUT1(bits)
    }

    fn bits(self) -> (r: u32) {
        self.0
    }

    fn into_state(self) -> (s: State) {
        State::MSLUT1(self)
    }

    fn try_from_state(s: &State) -> (r: Result<Self, UnexpectedAddress>) {
        match *s {
            State::MSLUT1(v) => Ok(v),
            _ => Err(UnexpectedAddress),
        }
    }

    proof fn lemma_bits_round_trip(bits: u32) {
    }
}

impl WritableRegister for MSLUT1 {
    proof fn lemma_writable() {
    }
}

/// The `MSLUT2` register (write-only, wire address `0x62`).
#[derive(Clone, Copy, Debug, PartialEq, Eq, Structural, Hash)]
pub struct MSLUT2(pub u32);

impl Default for MSLUT2 {
    /// The hardware-documented reset value of `MSLUT2`.
    fn default() -> (r: Self)
        ensures
            r == MSLUT2(0x00000000u32),
    {
        MSLUT2(0x00000000)
    }
}

impl Register for MSLUT2 {
    open spec fn spec_address() -> Address {
        Address::MSLUT2
    }

    open spec fn spec_bits(self) -> u32 {
        self.0
    }

    open spec fn spec_from_bits(bits: u32) -> Self {
        MSLUT2(bits)
    }

    fn address() -> (a: Address) {
        Address::MSLUT2
    }

    fn from_bits(bits: u32) -> (r: Self) {
        MSLUT2(bits)
    }

    fn bits(self) -> (r: u32) {
        self.0
    }

    fn into_state(self) -> (s: State) {
        State::MSLUT2(self)
    }

    fn try_from_state(s: &State) -> (r: Result<Self, UnexpectedAddress>) {
        match *s {
            State::MSLUT2(v) => Ok(v),
            _ => Err(UnexpectedAddress),
        }
    }

    proof fn lemma_bits_round_trip(bits: u32) {
    }
}

impl WritableRegister for MSLUT2 {
    proof fn lemma_writable() {
    }
}

/// The `MSLUT3` register (write-only, wire address `0x63`).
#[derive(Clone, Copy, Debug, PartialEq, Eq, Structural, Hash)]
pub struct MSLUT3(pub u32);

impl Default for MSLUT3 {
    /// The hardware-documented reset value of `MSLUT3`.
    fn default() -> (r: Self)
        ensures
            r == MSLUT3(0x00000000u32),
    {
        MSLUT3(0x00000000)
    }
}

impl Register for MSLUT3 {
    open spec fn spec_address() -> Address {
        Address::MSLUT3
    }

    open spec fn spec_bits(self) -> u32 {
        self.0
    }

    open spec fn spec_from_bits(bits: u32) -> Self {
        MSLUT3(bits)
    }

    fn address() -> (a: Address) {
        Address::MSLUT3
    }

    fn from_bits(bits: u32) -> (r: Self) {
        MSLUT3(bits)
    }

    fn bits(self) -> (r: u32) {
        self.0
    }

    fn into_state(self) -> (s: State) {
        State::MSLUT3(self)
    }

    fn try_from_state(s: &State) -> (r: Result<Self, UnexpectedAddress>) {
        match *s {
            State::MSLUT3(v) => Ok(v),
            _ => Err(UnexpectedAddress),
        }
    }

    proof fn lemma_bits_round_trip(bits: u32) {
    }
}

impl WritableRegister for MSLUT3 {
    proof fn lemma_writable() {
    }
}

/// The `MSLUT4` register (write-only, wire address `0x64`).
#[derive(Clone, Copy, Debug, PartialEq, Eq, Structural, Hash)]
pub struct MSLUT4(pub u32);

impl Default for MSLUT4 {
    /// The hardware-documented reset value of `MSLUT4`.
    fn default() -> (r: Self)
        ensures
            r == MSLUT4(0x00000000u32),
    {
        MSLUT4(0x00000000)
    }
}

impl Register for MSLUT4 {
    open spec fn spec_address() -> Address {
        Address::MSLUT4
    }

    open spec fn spec_bits(self) -> u32 {
        self.0
    }

    open spec fn spec_from_bits(bits: u32) -> Self {
        MSLUT4(bits)
    }

    fn address() -> (a: Address) {
        Address::MSLUT4
    }

    fn from_bits(bits: u32) -> (r: Self) {
        MSLUT4(bits)
    }

    fn bits(self) -> (r: u32) {
        self.0
    }

    fn into_state(self) -> (s: State) {
        State::MSLUT4(self)
    }

    fn try_from_state(s: &State) -> (r: Result<Self, UnexpectedAddress>) {
        match *s {
            State::MSLUT4(v) => Ok(v),
            _ => Err(UnexpectedAddress),
        }
    }

    proof fn lemma_bits_round_trip(bits: u32) {
    }
}

impl WritableRegister for MSLUT4 {
    proof fn lemma_writable() {
    }
}

/// The `MSLUT5` register (write-only, wire address `0x65`).
#[derive(Clone, Copy, Debug, PartialEq, Eq, Structural, Hash)]
pub struct MSLUT5(pub u32);

impl Default for MSLUT5 {
    /// The hardware-documented reset value of `MSLUT5`.
    fn default() -> (r: Self)
        ensures
            r == MSLUT5(0x00000000u32),
    {
        MSLUT5(0x00000000)
    }
}

impl Register for MSLUT5 {
    open spec fn spec_address() -> Address {
        Address::MSLUT5
    }

    open spec fn spec_bits(self) -> u32 {
        self.0
    }

    open spec fn spec_from_bits(bits: u32) -> Self {
        MSLUT5(bits)
    }

    fn address() -> (a: Address) {
        Address::MSLUT5
    }

    fn from_bits(bits: u32) -> (r: Self) {
        MSLUT5(bits)
    }

    fn bits(self) -> (r: u32) {
        self.0
    }

    fn into_state(self) -> (s: State) {
        State::MSLUT5(self)
    }

    fn try_from_state(s: &State) -> (r: Result<Self, UnexpectedAddress>) {
        match *s {
            State::MSLUT5(v) => Ok(v),
            _ => Err(UnexpectedAddress),
        }
    }

    proof fn lemma_bits_round_trip(bits: u32) {
    }
}

impl WritableRegister for MSLUT5 {
    proof fn lemma_writable() {
    }
}

/// The `MSLUT6` register (write-only, wire address `0x66`).
#[derive(Clone, Copy, Debug, PartialEq, Eq, Structural, Hash)]
pub struct MSLUT6(pub u32);

impl Default for MSLUT6 {
    /// The hardware-documented reset value of `MSLUT6`.
    fn default() -> (r: Self)
        ensures
            r == MSLUT6(0x00000000u32),
    {
        MSLUT6(0x00000000)
    }
}

impl Register for MSLUT6 {
    open spec fn spec_address() -> Address {
        Address::MSLUT6
    }

    open spec fn spec_bits(self) -> u32 {
        self.0
    }

    open spec fn spec_from_bits(bits: u32) -> Self {
        MSLUT6(bits)
    }

    fn address() -> (a: Address) {
        Address::MSLUT6
    }

    fn from_bits(bits: u32) -> (r: Self) {
        MSLUT6(bits)
    }

    fn bits(self) -> (r: u32) {
        self.0
    }

    fn into_state(self) -> (s: State) {
        State::MSLUT6(self)
    }

    fn try_from_state(s: &State) -> (r: Result<Self, UnexpectedAddress>) {
        match *s {
            State::MSLUT6(v) => Ok(v),
            _ => Err(UnexpectedAddress),
        }
    }

    proof fn lemma_bits_round_trip(bits: u32) {
    }
}

impl WritableRegister for MSLUT6 {
    proof fn lemma_writable() {
    }
}

/// The `MSLUT7` register (write-only, wire address `0x67`).
#[derive(Clone, Copy, Debug, PartialEq, Eq, Structural, Hash)]
pub struct MSLUT7(pub u32);

impl Default for MSLUT7 {
    /// The hardware-documented reset value of `MSLUT7`.
    fn default() -> (r: Self)
        ensures
            r == MSLUT7(0x00000000u32),
    {
        MSLUT7(0x00000000)
    }
}

impl Register for MSLUT7 {
    open spec fn spec_address() -> Address {
        Address::MSLUT7
    }

    open spec fn spec_bits(self) -> u32 {
        self.0
    }

    open spec fn spec_from_bits(bits: u32) -> Self {
        MSLUT7(bits)
    }

    fn address() -> (a: Address) {
        Address::MSLUT7
    }

    fn from_bits(bits: u32) -> (r: Self) {
        MSLUT7(bits)
    }

    fn bits(self) -> (r: u32) {
        self.0
    }

    fn into_state(self) -> (s: State) {
        State::MSLUT7(self)
    }

    fn try_from_state(s: &State) -> (r: Result<Self, UnexpectedAddress>) {
        match *s {
            State::MSLUT7(v) => Ok(v),
            _ => Err(UnexpectedAddress),
        }
    }

    proof fn lemma_bits_round_trip(bits: u32) {
    }
}

impl WritableRegister for MSLUT7 {
    proof fn lemma_writable() {
    }
}

/// The `MSLUTSEL` register (write-only, wire address `0x68`).
#[derive(Clone, Copy, Debug, PartialEq, Eq, Structural, Hash)]
pub struct MSLUTSEL(pub u32);

impl Default for MSLUTSEL {
    /// The hardware-documented reset value of `MSLUTSEL`.
    fn default() -> (r: Self)
        ensures
            r == MSLUTSEL(0x00000000u32),
    {
        MSLUTSEL(0x00000000)
    }
}

impl Register for MSLUTSEL {
    open spec fn spec_address() -> Address {
        Address::MSLUTSEL
    }

    open spec fn spec_bits(self) -> u32 {
        self.0
    }

    open spec fn spec_from_bits(bits: u32) -> Self {
        MSLUTSEL(bits)
    }

    fn address() -> (a: Address) {
        Address::MSLUTSEL
    }

    fn from_bits(bits: u32) -> (r: Self) {
        MSLUTSEL(bits)
    }

    fn bits(self) -> (r: u32) {
        self.0
    }

    fn into_state(self) -> (s: State) {
        State::MSLUTSEL(self)
    }

    fn try_from_state(s: &State) -> (r: Result<Self, UnexpectedAddress>) {
        match *s {
            State::MSLUTSEL(v) => Ok(v),
            _ => Err(UnexpectedAddress),
        }
    }

    proof fn lemma_bits_round_trip(bits: u32) {
    }
}

impl WritableRegister for MSLUTSEL {
    proof fn lemma_writable() {
    }
}

impl MSLUTSEL {
    /// Read the `w0` bit-field.
    pub fn w0(&self) -> (r: u16)
        ensures
            r == bits::spec_get(self.0, 0, 2) as u16,
    {
        #[verifier::truncate] (bits::get(self.0, 0, 2) as u16)
    }

    /// Write the `w0` bit-field; a value wider than the field is truncated.
    pub fn set_w0(&mut self, value: u16)
        ensures
            final(self).0 == bits::spec_set(old(self).0, 0, 2, value as u32),
    {
        self.0 = bits::set(self.0, 0, 2, value as u32);
    }

    /// Read the `w1` bit-field.
    pub fn w1(&self) -> (r: u16)
        ensures
            r == bits::spec_get(self.0, 2, 2) as u16,
    {
        #[verifier::truncate] (bits::get(self.0, 2, 2) as u16)
    }

    /// Write the `w1` bit-field; a value wider than the field is truncated.
    pub fn set_w1(&mut self, value: u16)
        ensures
            final(self).0 == bits::spec_set(old(self).0, 2, 2, value as u32),
    {
        self.0 = bits::set(self.0, 2, 2, value as u32);
    }

    /// Read the `w2` bit-field.
    pub fn w2(&self) -> (r: u16)
        ensures
            r == bits::spec_get(self.0, 4, 2) as u16,
    {
        #[verifier::truncate] (bits::get(self.0, 4, 2) as u16)
    }

    /// Write the `w2` bit-field; a value wider than the field is truncated.
    pub fn set_w2(&mut self, value: u16)
        ensures
            final(self).0 == bits::spec_set(old(self).0, 4, 2, value as u32),
    {
        self.0 = bits::set(self.0, 4, 2, value as u32);
    }

    /// Read the `w3` bit-field.
    pub fn w3(&self) -> (r: u16)
        ensures
            r == bits::spec_get(self.0, 6, 2) as u16,
    {
        #[verifier::truncate] (bits::get(self.0, 6, 2) as u16)
    }

    /// Write the `w3` bit-field; a value wider than the field is truncated.
    pub fn set_w3(&mut self, value: u16)
        ensures
            final(self).0 == bits::spec_set(old(self).0, 6, 2, value as u32),
    {
        self.0 = bits::set(self.0, 6, 2, value as u32);
    }

    /// Read the `x1` bit-field.
    pub fn x1(&self) -> (r: u16)
        ensures
            r == bits::spec_get(self.0, 8, 8) as u16,
    {
        #[verifier::truncate] (bits::get(self.0, 8, 8) as u16)
    }

    /// Write the `x1` bit-field; a value wider than the field is truncated.
    pub fn set_x1(&mut self, value: u16)
        ensures
            final(self).0 == bits::spec_set(old(self).0, 8, 8, value as u32),
    {
        self.0 = bits::set(self.0, 8, 8, value as u32);
    }

    /// Read the `x2` bit-field.
    pub fn x2(&self) -> (r: u16)
        ensures
            r == bits::spec_get(self.0, 16, 8) as u16,
    {
        #[verifier::truncate] (bits::get(self.0, 16, 8) as u16)
    }

    /// Write the `x2` bit-field; a value wider than the field is truncated.
    pub fn set_x2(&mut self, value: u16)
        ensures
            final(self).0 == bits::spec_set(old(self).0, 16, 8, value as u32),
    {
        self.0 = bits::set(self.0, 16, 8, value as u32);
    }

    /// Read the `x3` bit-field.
    pub fn x3(&self) -> (r: u16)
        ensures
            r == bits::spec_get(self.0, 24, 8) as u16,
    {
        #[verifier::truncate] (bits::get(self.0, 24, 8) as u16)
    }

    /// Write the `x3` bit-field; a value wider than the field is truncated.
    pub fn set_x3(&mut self, value: u16)
        ensures
            final(self).0 == bits::spec_set(old(self).0, 24, 8, value as u32),
    {
        self.0 = bits::set(self.0, 24, 8, value as u32);
    }
}

/// The `MSLUTSTART` register (write-only, wire address `0x69`).
#[derive(Clone, Copy, Debug, PartialEq, Eq, Structural, Hash)]
pub struct MSLUTSTART(pub u32);

impl Default for MSLUTSTART {
    /// The hardware-documented reset value of `MSLUTSTART`.
    fn default() -> (r: Self)
        ensures
            r == MSLUTSTART(0x00000000u32),
    {
        MSLUTSTART(0x00000000)
    }
}

impl Register for MSLUTSTART {
    open spec fn spec_address() -> Address {
        Address::MSLUTSTART
    }

    open spec fn spec_bits(self) -> u32 {
        self.0
    }

    open spec fn spec_from_bits(bits: u32) -> Self {
        MSLUTSTART(bits)
    }

    fn address() -> (a: Address) {
        Address::MSLUTSTART
    }

    fn from_bits(bits: u32) -> (r: Self) {
        MSLUTSTART(bits)
    }

    fn bits(self) -> (r: u32) {
        self.0
    }

    fn into_state(self) -> (s: State) {
        State::MSLUTSTART(self)
    }

    fn try_from_state(s: &State) -> (r: Result<Self, UnexpectedAddress>) {
        match *s {
            State::MSLUTSTART(v) => Ok(v),
            _ => Err(UnexpectedAddress),
        }
    }

    proof fn lemma_bits_round_trip(bits: u32) {
    }
}

impl WritableRegister for MSLUTSTART {
    proof fn lemma_writable() {
    }
}

impl MSLUTSTART {
    /// Read the `start_sin` bit-field.
    pub fn start_sin(&self) -> (r: u32)
        ensures
            r == bits::spec_get(self.0, 0, 8),
    {
        bits::get(self.0, 0, 8)
    }

    /// Write the `start_sin` bit-field; a value wider than the field is truncated.
    pub fn set_start_sin(&mut self, value: u32)
        ensures
            final(self).0 == bits::spec_set(old(self).0, 0, 8, value),
    {
        self.0 = bits::set(self.0, 0, 8, value);
    }

    /// Read the `start_sin90` bit-field.
    pub fn start_sin90(&self) -> (r: u32)
        ensures
            r == bits::spec_get(self.0, 16, 8),
    {
        bits::get(self.0, 16, 8)
    }

    /// Write the `start_sin90` bit-field; a value wider than the field is truncated.
    pub fn set_start_sin90(&mut self, value: u32)
        ensures
            final(self).0 == bits::spec_set(old(self).0, 16, 8, value),
    {
        self.0 = bits::set(self.0, 16, 8, value);
    }
}

/// The `MSCNT` register (read-only, wire address `0x6A`).
#[derive(Clone, Copy, Debug, PartialEq, Eq, Structural, Hash)]
pub struct MSCNT(pub u32);

impl Default for MSCNT {
    /// The hardware-documented reset value of `MSCNT`.
    fn default() -> (r: Self)
        ensures
            r == MSCNT(0x00000000u32),
    {
        MSCNT(0x00000000)
    }
}

impl Register for MSCNT {
    open spec fn spec_address() -> Address {
        Address::MSCNT
    }

    open spec fn spec_bits(self) -> u32 {
        self.0
    }

    open spec fn spec_from_bits(bits: u32) -> Self {
        MSCNT(bits)
    }

    fn address() -> (a: Address) {
        Address::MSCNT
    }

    fn from_bits(bits: u32) -> (r: Self) {
        MSCNT(bits)
    }

    fn bits(self) -> (r: u32) {
        self.0
    }

    fn into_state(self) -> (s: State) {
        State::MSCNT(self)
    }

    fn try_from_state(s: &State) -> (r: Result<Self, UnexpectedAddress>) {
        match *s {
            State::MSCNT(v) => Ok(v),
            _ => Err(UnexpectedAddress),
        }
    }

    proof fn lemma_bits_round_trip(bits: u32) {
    }
}

impl ReadableRegister for MSCNT {
    proof fn lemma_readable() {
    }
}

impl MSCNT {
    /// Read the `get` bit-field.
    pub fn get(&self) -> (r: u16)
        ensures
            r == bits::spec_get(self.0, 0, 10) as u16,
    {
        #[verifier::truncate] (bits::get(self.0, 0, 10) as u16)
    }
}

/// The `MSCURACT` register (read-only, wire address `0x6B`).
#[derive(Clone, Copy, Debug, PartialEq, Eq, Structural, Hash)]
pub struct MSCURACT(pub u32);

impl Default for MSCURACT {
    /// The hardware-documented reset value of `MSCURACT`.
    fn default() -> (r: Self)
        ensures
            r == MSCURACT(0x00000000u32),
    {
        MSCURACT(0x00000000)
    }
}

impl Register for MSCURACT {
    open spec fn spec_address() -> Address {
        Address::MSCURACT
    }

    open spec fn spec_bits(self) -> u32 {
        self.0
    }

    open spec fn spec_from_bits(bits: u32) -> Self {
        MSCURACT(bits)
    }

    fn address() -> (a: Address) {
        Address::MSCURACT
    }

    fn from_bits(bits: u32) -> (r: Self) {
        MSCURACT(bits)
    }

    fn bits(self) -> (r: u32) {
        self.0
    }

    fn into_state(self) -> (s: State) {
        State::MSCURACT(self)
    }

    fn try_from_state(s: &State) -> (r: Result<Self, UnexpectedAddress>) {
        match *s {
            State::MSCURACT(v) => Ok(v),
            _ => Err(UnexpectedAddress),
        }
    }

    proof fn lemma_bits_round_trip(bits: u32) {
    }
}

impl ReadableRegister for MSCURACT {
    proof fn lemma_readable() {
    }
}

impl MSCURACT {
    /// Read the `cur_a` bit-field.
    pub fn cur_a(&self) -> (r: u16)
        ensures
            r == bits::spec_get(self.0, 0, 9) as u16,
    {
        #[verifier::truncate] (bits::get(self.0, 0, 9) as u16)
    }

    /// Read the `cur_b` bit-field.
    pub fn cur_b(&self) -> (r: u16)
        ensures
            r == bits::spec_get(self.0, 16, 9) as u16,
    {
        #[verifier::truncate] (bits::get(self.0, 16, 9) as u16)
    }
}

/// The `CHOPCONF` register (read/write, wire address `0x6C`).
#[derive(Clone, Copy, Debug, PartialEq, Eq, Structural, Hash)]
pub struct CHOPCONF(pub u32);

impl Default for CHOPCONF {
    /// The hardware-documented reset value of `CHOPCONF`.
    fn default() -> (r: Self)
        ensures
            r == CHOPCONF(0x00000000u32),
    {
        CHOPCONF(0x00000000)
    }
}

impl Register for CHOPCONF {
    open spec fn spec_address() -> Address {
        Address::CHOPCONF
    }

    open spec fn spec_bits(self) -> u32 {
        self.0
    }

    open spec fn spec_from_bits(bits: u32) -> Self {
        CHOPCONF(bits)
    }

    fn address() -> (a: Address) {
        Address::CHOPCONF
    }

    fn from_bits(bits: u32) -> (r: Self) {
        CHOPCONF(bits)
    }

    fn bits(self) -> (r: u32) {
        self.0
    }

    fn into_state(self) -> (s: State) {
        State::CHOPCONF(self)
    }

    fn try_from_state(s: &State) -> (r: Result<Self, UnexpectedAddress>) {
        match *s {
            State::CHOPCONF(v) => Ok(v),
            _ => Err(UnexpectedAddress),
        }
    }

    proof fn lemma_bits_round_trip(bits: u32) {
    }
}

impl ReadableRegister for CHOPCONF {
    proof fn lemma_readable() {
    }
}

impl WritableRegister for CHOPCONF {
    proof fn lemma_writable() {
    }
}

impl CHOPCONF {
    /// Read the `toff` bit-field.
    pub fn toff(&self) -> (r: u32)
        ensures
            r == bits::spec_get(self.0, 0, 4),
    {
        bits::get(self.0, 0, 4)
    }

    /// Write the `toff` bit-field; a value wider than the field is truncated.
    pub fn set_toff(&mut self, value: u32)
        ensures
            final(self).0 == bits::spec_set(old(self).0, 0, 4, value),
    {
        self.0 = bits::set(self.0, 0, 4, value);
    }

    /// Read the `hstrt` bit-field.
    pub fn hstrt(&self) -> (r: u32)
        ensures
            r == bits::spec_get(self.0, 4, 3),
    {
        bits::get(self.0, 4, 3)
    }

    /// Write the `hstrt` bit-field; a value wider than the field is truncated.
    pub fn set_hstrt(&mut self, value: u32)
        ensures
            final(self).0 == bits::spec_set(old(self).0, 4, 3, value),
    {
        self.0 = bits::set(self.0, 4, 3, value);
    }

    /// Read the `hend` bit-field.
    pub fn hend(&self) -> (r: u32)
        ensures
            r == bits::spec_get(self.0, 7, 4),
    {
        bits::get(self.0, 7, 4)
    }

    /// Write the `hend` bit-field; a value wider than the field is truncated.
    pub fn set_hend(&mut self, value: u32)
        ensures
            final(self).0 == bits::spec_set(old(self).0, 7, 4, value),
    {
        self.0 = bits::set(self.0, 7, 4, value);
    }

    /// Read the `fd3` bit-field.
    pub fn fd3(&self) -> (r: bool)
        ensures
            r == (bits::spec_get(self.0, 11, 1) == 1),
    {
        bits::get(self.0, 11, 1) == 1
    }

    /// Write the `fd3` bit-field.
    pub fn set_fd3(&mut self, value: bool)
        ensures
            final(self).0 == bits::spec_set(old(self).0, 11, 1, (if value { 1u32 } else { 0u32 })),
    {
        self.0 = bits::set(self.0, 11, 1, if value { 1 } else { 0 });
    }

    /// Read the `disfdcc` bit-field.
    pub fn disfdcc(&self) -> (r: bool)
        ensures
            r == (bits::spec_get(self.0, 12, 1) == 1),
    {
        bits::get(self.0, 12, 1) == 1
    }

    /// Write the `disfdcc` bit-field.
    pub fn set_disfdcc(&mut self, value: bool)
        ensures
            final(self).0 == bits::spec_set(old(self).0, 12, 1, (if value { 1u32 } else { 0u32 })),
    {
        self.0 = bits::set(self.0, 12, 1, if value { 1 } else { 0 });
    }

    /// Read the `rndtf` bit-field.
    pub fn rndtf(&self) -> (r: bool)
        ensures
            r == (bits::spec_get(self.0, 13, 1) == 1),
    {
        bits::get(self.0, 13, 1) == 1
    }

    /// Write the `rndtf` bit-field.
    pub fn set_rndtf(&mut self, value: bool)
        ensures
            final(self).0 == bits::spec_set(old(self).0, 13, 1, (if value { 1u32 } else { 0u32 })),
    {
        self.0 = bits::set(self.0, 13, 1, if value { 1 } else { 0 });
    }

    /// Read the `chm` bit-field.
    pub fn chm(&self) -> (r: bool)
        ensures
            r == (bits::spec_get(self.0, 14, 1) == 1),
    {
        bits::get(self.0, 14, 1) == 1
    }

    /// Write the `chm` bit-field.
    pub fn set_chm(&mut self, value: bool)
        ensures
            final(self).0 == bits::spec_set(old(self).0, 14, 1, (if value { 1u32 } else { 0u32 })),
    {
        self.0 = bits::set(self.0, 14, 1, if value { 1 } else { 0 });
    }

    /// Read the `tbl` bit-field.
    pub fn tbl(&self) -> (r: u32)
        ensures
            r == bits::spec_get(self.0, 15, 2),
    {
        bits::get(self.0, 15, 2)
    }

    /// Write the `tbl` bit-field; a value wider than the field is truncated.
    pub fn set_tbl(&mut self, value: u32)
        ensures
            final(self).0 == bits::spec_set(old(self).0, 15, 2, value),
    {
        self.0 = bits::set(self.0, 15, 2, value);
    }

    /// Read the `vsense` bit-field.
    pub fn vsense(&self) -> (r: bool)
        ensures
            r == (bits::spec_get(self.0, 17, 1) == 1),
    {
        bits::get(self.0, 17, 1) == 1
    }

    /// Write the `vsense` bit-field.
    pub fn set_vsense(&mut self, value: bool)
        ensures
            final(self).0 == bits::spec_set(old(self).0, 17, 1, (if value { 1u32 } else { 0u32 })),
    {
        self.0 = bits::set(self.0, 17, 1, if value { 1 } else { 0 });
    }

    /// Read the `vhighfs` bit-field.
    pub fn vhighfs(&self) -> (r: bool)
        ensures
            r == (bits::spec_get(self.0, 18, 1) == 1),
    {
        bits::get(self.0, 18, 1) == 1
    }

    /// Write the `vhighfs` bit-field.
    pub fn set_vhighfs(&mut self, value: bool)
        ensures
            final(self).0 == bits::spec_set(old(self).0, 18, 1, (if value { 1u32 } else { 0u32 })),
    {
        self.0 = bits::set(self.0, 18, 1, if value { 1 } else { 0 });
    }

    /// Read the `vhighchm` bit-field.
    pub fn vhighchm(&self) -> (r: bool)
        ensures
            r == (bits::spec_get(self.0, 19, 1) == 1),
    {
        bits::get(self.0, 19, 1) == 1
    }

    /// Write the `vhighchm` bit-field.
    pub fn set_vhighchm(&mut self, value: bool)
        ensures
            final(self).0 == bits::spec_set(old(self).0, 19, 1, (if value { 1u32 } else { 0u32 })),
    {
        self.0 = bits::set(self.0, 19, 1, if value { 1 } else { 0 });
    }

    /// Read the `sync` bit-field.
    pub fn sync(&self) -> (r: u32)
        ensures
            r == bits::spec_get(self.0, 20, 4),
    {
        bits::get(self.0, 20, 4)
    }

    /// Write the `sync` bit-field; a value wider than the field is truncated.
    pub fn set_sync(&mut self, value: u32)
        ensures
            final(self).0 == bits::spec_set(old(self).0, 20, 4, value),
    {
        self.0 = bits::set(self.0, 20, 4, value);
    }

    /// Read the `mres` bit-field.
    pub fn mres(&self) -> (r: u32)
        ensures
            r == bits::spec_get(self.0, 24, 4),
    {
        bits::get(self.0, 24, 4)
    }

    /// Write the `mres` bit-field; a value wider than the field is truncated.
    pub fn set_mres(&mut self, value: u32)
        ensures
            final(self).0 == bits::spec_set(old(self).0, 24, 4, value),
    {
        self.0 = bits::set(self.0, 24, 4, value);
    }

    /// Read the `intpol` bit-field.
    pub fn intpol(&self) -> (r: bool)
        ensures
            r == (bits::spec_get(self.0, 28, 1) == 1),
    {
        bits::get(self.0, 28, 1) == 1
    }

    /// Write the `intpol` bit-field.
    pub fn set_intpol(&mut self, value: bool)
        ensures
            final(self).0 == bits::spec_set(old(self).0, 28, 1, (if value { 1u32 } else { 0u32 })),
    {
        self.0 = bits::set(self.0, 28, 1, if value { 1 } else { 0 });
    }

    /// Read the `dedge` bit-field.
    pub fn dedge(&self) -> (r: bool)
        ensures
            r == (bits::spec_get(self.0, 29, 1) == 1),
    {
        bits::get(self.0, 29, 1) == 1
    }

    /// Write the `dedge` bit-field.
    pub fn set_dedge(&mut self, value: bool)
        ensures
            final(self).0 == bits::spec_set(old(self).0, 29, 1, (if value { 1u32 } else { 0u32 })),
    {
        self.0 = bits::set(self.0, 29, 1, if value { 1 } else { 0 });
    }

    /// Read the `diss2g` bit-field.
    pub fn diss2g(&self) -> (r: bool)
        ensures
            r == (bits::spec_get(self.0, 30, 1) == 1),
    {
        bits::get(self.0, 30, 1) == 1
    }

    /// Write the `diss2g` bit-field.
    pub fn set_diss2g(&mut self, value: bool)
        ensures
            final(self).0 == bits::spec_set(old(self).0, 30, 1, (if value { 1u32 } else { 0u32 })),
    {
        self.0 = bits::set(self.0, 30, 1, if value { 1 } else { 0 });
    }
}

/// The `COOLCONF` register (write-only, wire address `0x6D`).
#[derive(Clone, Copy, Debug, PartialEq, Eq, Structural, Hash)]
pub struct COOLCONF(pub u32);

impl Default for COOLCONF {
    /// The hardware-documented reset value of `COOLCONF`.
    fn default() -> (r: Self)
        ensures
            r == COOLCONF(0x00000000u32),
    {
        COOLCONF(0x00000000)
    }
}

impl Register for COOLCONF {
    open spec fn spec_address() -> Address {
        Address::COOLCONF
    }

    open spec fn spec_bits(self) -> u32 {
        self.0
    }

    open spec fn spec_from_bits(bits: u32) -> Self {
        COOLCONF(bits)
    }

    fn address() -> (a: Address) {
        Address::COOLCONF
    }

    fn from_bits(bits: u32) -> (r: Self) {
        COOLCONF(bits)
    }

    fn bits(self) -> (r: u32) {
        self.0
    }

    fn into_state(self) -> (s: State) {
        State::COOLCONF(self)
    }

    fn try_from_state(s: &State) -> (r: Result<Self, UnexpectedAddress>) {
        match *s {
            State::COOLCONF(v) => Ok(v),
            _ => Err(UnexpectedAddress),
        }
    }

    proof fn lemma_bits_round_trip(bits: u32) {
    }
}

impl WritableRegister for COOLCONF {
    proof fn lemma_writable() {
    }
}

impl COOLCONF {
    /// Read the `semin` bit-field.
    pub fn semin(&self) -> (r: u16)
        ensures
            r == bits::spec_get(self.0, 0, 4) as u16,
    {
        #[verifier::truncate] (bits::get(self.0, 0, 4) as u16)
    }

    /// Write the `semin` bit-field; a value wider than the field is truncated.
    pub fn set_semin(&mut self, value: u16)
        ensures
            final(self).0 == bits::spec_set(old(self).0, 0, 4, value as u32),
    {
        self.0 = bits::set(self.0, 0, 4, value as u32);
    }

    /// Read the `seup` bit-field.
    pub fn seup(&self) -> (r: u16)
        ensures
            r == bits::spec_get(self.0, 5, 2) as u16,
    {
        #[verifier::truncate] (bits::get(self.0, 5, 2) as u16)
    }

    /// Write the `seup` bit-field; a value wider than the field is truncated.
    pub fn set_seup(&mut self, value: u16)
        ensures
            final(self).0 == bits::spec_set(old(self).0, 5, 2, value as u32),
    {
        self.0 = bits::set(self.0, 5, 2, value as u32);
    }

    /// Read the `semax` bit-field.
    pub fn semax(&self) -> (r: u16)
        ensures
            r == bits::spec_get(self.0, 8, 4) as u16,
    {
        #[verifier::truncate] (bits::get(self.0, 8, 4) as u16)
    }

    /// Write the `semax` bit-field; a value wider than the field is truncated.
    pub fn set_semax(&mut self, value: u16)
        ensures
            final(self).0 == bits::spec_set(old(self).0, 8, 4, value as u32),
    {
        self.0 = bits::set(self.0, 8, 4, value as u32);
    }

    /// Read the `sedn` bit-field.
    pub fn sedn(&self) -> (r: u16)
        ensures
            r == bits::spec_get(self.0, 13, 2) as u16,
    {
        #[verifier::truncate] (bits::get(self.0, 13, 2) as u16)
    }

    /// Write the `sedn` bit-field; a value wider than the field is truncated.
    pub fn set_sedn(&mut self, value: u16)
        ensures
            final(self).0 == bits::spec_set(old(self).0, 13, 2, value as u32),
    {
        self.0 = bits::set(self.0, 13, 2, value as u32);
    }

    /// Read the `seimin` bit-field.
    pub fn seimin(&self) -> (r: bool)
        ensures
            r == (bits::spec_get(self.0, 15, 1) == 1),
    {
        bits::get(self.0, 15, 1) == 1
    }

    /// Write the `seimin` bit-field.
    pub fn set_seimin(&mut self, value: bool)
        ensures
            final(self).0 == bits::spec_set(old(self).0, 15, 1, (if value { 1u32 } else { 0u32 })),
    {
        self.0 = bits::set(self.0, 15, 1, if value { 1 } else { 0 });
    }

    /// Read the `sgt` bit-field as a signed quantity.
    pub fn sgt(&self) -> (r: i8)
        ensures
            r as int == bits::spec_sign_extend(bits::spec_get(self.0, 16, 7), 7),
    {
        let v: i32 = bits::sign_extend_i32(bits::get(self.0, 16, 7), 7);
        proof {
            assert(bits::spec_mask(7) < 1u32 << 7) by (bit_vector);
            assert(1u32 << 7 == 128) by (bit_vector);
            assert(1u32 << 6 == 64) by (bit_vector);
        }
        #[verifier::truncate] (v as i8)
    }

    /// Write the `sgt` bit-field; the value is truncated to the field's width.
    pub fn set_sgt(&mut self, value: i8)
        ensures
            final(self).0 == bits::spec_set(old(self).0, 16, 7, value as u32),
    {
        self.0 = bits::set(self.0, 16, 7, #[verifier::truncate] (value as u32));
    }

    /// Read the `sfilt` bit-field.
    pub fn sfilt(&self) -> (r: bool)
        ensures
            r == (bits::spec_get(self.0, 24, 1) == 1),
    {
        bits::get(self.0, 24, 1) == 1
    }

    /// Write the `sfilt` bit-field.
    pub fn set_sfilt(&mut self, value: bool)
        ensures
            final(self).0 == bits::spec_set(old(self).0, 24, 1, (if value { 1u32 } else { 0u32 })),
    {
        self.0 = bits::set(self.0, 24, 1, if value { 1 } else { 0 });
    }
}

/// The `DCCTRL` register (write-only, wire address `0x6E`).
#[derive(Clone, Copy, Debug, PartialEq, Eq, Structural, Hash)]
pub struct DCCTRL(pub u32);

impl Default for DCCTRL {
    /// The hardware-documented reset value of `DCCTRL`.
    fn default() -> (r: Self)
        ensures
            r == DCCTRL(0x00000000u32),
    {
        DCCTRL(0x00000000)
    }
}

impl Register for DCCTRL {
    open spec fn spec_address() -> Address {
        Address::DCCTRL
    }

    open spec fn spec_bits(self) -> u32 {
        self.0
    }

    open spec fn spec_from_bits(bits: u32) -> Self {
        DCCTRL(bits)
    }

    fn address() -> (a: Address) {
        Address::DCCTRL
    }

    fn from_bits(bits: u32) -> (r: Self) {
        DCCTRL(bits)
    }

    fn bits(self) -> (r: u32) {
        self.0
    }

    fn into_state(self) -> (s: State) {
        State::DCCTRL(self)
    }

    fn try_from_state(s: &State) -> (r: Result<Self, UnexpectedAddress>) {
        match *s {
            State::DCCTRL(v) => Ok(v),
            _ => Err(UnexpectedAddress),
        }
    }

    proof fn lemma_bits_round_trip(bits: u32) {
    }
}

impl WritableRegister for DCCTRL {
    proof fn lemma_writable() {
    }
}

impl DCCTRL {
    /// Read the `dc_time` bit-field.
    pub fn dc_time(&self) -> (r: u16)
        ensures
            r == bits::spec_get(self.0, 0, 10) as u16,
    {
        #[verifier::truncate] (bits::get(self.0, 0, 10) as u16)
    }

    /// Write the `dc_time` bit-field; a value wider than the field is truncated.
    pub fn set_dc_time(&mut self, value: u16)
        ensures
            final(self).0 == bits::spec_set(old(self).0, 0, 10, value as u32),
    {
        self.0 = bits::set(self.0, 0, 10, value as u32);
    }

    /// Read the `dc_sg` bit-field.
    pub fn dc_sg(&self) -> (r: u16)
        ensures
            r == bits::spec_get(self.0, 16, 8) as u16,
    {
        #[verifier::truncate] (bits::get(self.0, 16, 8) as u16)
    }

    /// Write the `dc_sg` bit-field; a value wider than the field is truncated.
    pub fn set_dc_sg(&mut self, value: u16)
        ensures
            final(self).0 == bits::spec_set(old(self).0, 16, 8, value as u32),
    {
        self.0 = bits::set(self.0, 16, 8, value as u32);
    }
}

/// The `DRV_STATUS` register (read-only, wire address `0x6F`).
#[derive(Clone, Copy, Debug, PartialEq, Eq, Structural, Hash)]
pub struct DRV_STATUS(pub u32);

impl Default for DRV_STATUS {
    /// The hardware-documented reset value of `DRV_STATUS`.
    fn default() -> (r: Self)
        ensures
            r == DRV_STATUS(0x00000000u32),
    {
        DRV_STATUS(0x00000000)
    }
}

impl Register for DRV_STATUS {
    open spec fn spec_address() -> Address {
        Address::DRV_STATUS
    }

    open spec fn spec_bits(self) -> u32 {
        self.0
    }

    open spec fn spec_from_bits(bits: u32) -> Self {
        DRV_STATUS(bits)
    }

    fn address() -> (a: Address) {
        Address::DRV_STATUS
    }

    fn from_bits(bits: u32) -> (r: Self) {
        DRV_STATUS(bits)
    }

    fn bits(self) -> (r: u32) {
        self.0
    }

    fn into_state(self) -> (s: State) {
        State::DRV_STATUS(self)
    }

    fn try_from_state(s: &State) -> (r: Result<Self, UnexpectedAddress>) {
        match *s {
            State::DRV_STATUS(v) => Ok(v),
            _ => Err(UnexpectedAddress),
        }
    }

    proof fn lemma_bits_round_trip(bits: u32) {
    }
}

impl ReadableRegister for DRV_STATUS {
    proof fn lemma_readable() {
    }
}

impl DRV_STATUS {
    /// Read the `sg_result` bit-field.
    pub fn sg_result(&self) -> (r: u32)
        ensures
            r == bits::spec_get(self.0, 0, 10),
    {
        bits::get(self.0, 0, 10)
    }

    /// Read the `fsactive` bit-field.
    pub fn fsactive(&self) -> (r: bool)
        ensures
            r == (bits::spec_get(self.0, 15, 1) == 1),
    {
        bits::get(self.0, 15, 1) == 1
    }

    /// Read the `cs_actual` bit-field.
    pub fn cs_actual(&self) -> (r: u32)
        ensures
            r == bits::spec_get(self.0, 16, 5),
    {
        bits::get(self.0, 16, 5)
    }

    /// Read the `stallguard` bit-field.
    pub fn stallguard(&self) -> (r: bool)
        ensures
            r == (bits::spec_get(self.0, 24, 1) == 1),
    {
        bits::get(self.0, 24, 1) == 1
    }

    /// Read the `ot` bit-field.
    pub fn ot(&self) -> (r: bool)
        ensures
            r == (bits::spec_get(self.0, 25, 1) == 1),
    {
        bits::get(self.0, 25, 1) == 1
    }

    /// Read the `otpw` bit-field.
    pub fn otpw(&self) -> (r: bool)
        ensures
            r == (bits::spec_get(self.0, 26, 1) == 1),
    {
        bits::get(self.0, 26, 1) == 1
    }

    /// Read the `s2ga` bit-field.
    pub fn s2ga(&self) -> (r: bool)
        ensures
            r == (bits::spec_get(self.0, 27, 1) == 1),
    {
        bits::get(self.0, 27, 1) == 1
    }

    /// Read the `s2gb` bit-field.
    pub fn s2gb(&self) -> (r: bool)
        ensures
            r == (bits::spec_get(self.0, 28, 1) == 1),
    {
        bits::get(self.0, 28, 1) == 1
    }

    /// Read the `ola` bit-field.
    pub fn ola(&self) -> (r: bool)
        ensures
            r == (bits::spec_get(self.0, 29, 1) == 1),
    {
        bits::get(self.0, 29, 1) == 1
    }

    /// Read the `olb` bit-field.
    pub fn olb(&self) -> (r: bool)
        ensures
            r == (bits::spec_get(self.0, 30, 1) == 1),
    {
        bits::get(self.0, 30, 1) == 1
    }

    /// Read the `stst` bit-field.
    pub fn stst(&self) -> (r: bool)
        ensures
            r == (bits::spec_get(self.0, 31, 1) == 1),
    {
        bits::get(self.0, 31, 1) == 1
    }
}

/// The `PWMCONF` register (write-only, wire address `0x70`).
#[derive(Clone, Copy, Debug, PartialEq, Eq, Structural, Hash)]
pub struct PWMCONF(pub u32);

impl Default for PWMCONF {
    /// The hardware-documented reset value of `PWMCONF`.
    fn default() -> (r: Self)
        ensures
            r == PWMCONF(0xC10D0024u32),
    {
        PWMCONF(0xC10D0024)
    }
}

impl Register for PWMCONF {
    open spec fn spec_address() -> Address {
        Address::PWMCONF
    }

    open spec fn spec_bits(self) -> u32 {
        self.0
    }

    open spec fn spec_from_bits(bits: u32) -> Self {
        PWMCONF(bits)
    }

    fn address() -> (a: Address) {
        Address::PWMCONF
    }

    fn from_bits(bits: u32) -> (r: Self) {
        PWMCONF(bits)
    }

    fn bits(self) -> (r: u32) {
        self.0
    }

    fn into_state(self) -> (s: State) {
        State::PWMCONF(self)
    }

    fn try_from_state(s: &State) -> (r: Result<Self, UnexpectedAddress>) {
        match *s {
            State::PWMCONF(v) => Ok(v),
            _ => Err(UnexpectedAddress),
        }
    }

    proof fn lemma_bits_round_trip(bits: u32) {
    }
}

impl WritableRegister for PWMCONF {
    proof fn lemma_writable() {
    }
}

impl PWMCONF {
    /// Read the `pwm_ampl` bit-field.
    pub fn pwm_ampl(&self) -> (r: u8)
        ensures
            r == bits::spec_get(self.0, 0, 8) as u8,
    {
        #[verifier::truncate] (bits::get(self.0, 0, 8) as u8)
    }

    /// Write the `pwm_ampl` bit-field; a value wider than the field is truncated.
    pub fn set_pwm_ampl(&mut self, value: u8)
        ensures
            final(self).0 == bits::spec_set(old(self).0, 0, 8, value as u32),
    {
        self.0 = bits::set(self.0, 0, 8, value as u32);
    }

    /// Read the `pwm_grad` bit-field.
    pub fn pwm_grad(&self) -> (r: u8)
        ensures
            r == bits::spec_get(self.0, 8, 8) as u8,
    {
        #[verifier::truncate] (bits::get(self.0, 8, 8) as u8)
    }

    /// Write the `pwm_grad` bit-field; a value wider than the field is truncated.
    pub fn set_pwm_grad(&mut self, value: u8)
        ensures
            final(self).0 == bits::spec_set(old(self).0, 8, 8, value as u32),
    {
        self.0 = bits::set(self.0, 8, 8, value as u32);
    }

    /// Read the `pwm_freq` bit-field.
    pub fn pwm_freq(&self) -> (r: u8)
        ensures
            r == bits::spec_get(self.0, 16, 2) as u8,
    {
        #[verifier::truncate] (bits::get(self.0, 16, 2) as u8)
    }

    /// Write the `pwm_freq` bit-field; a value wider than the field is truncated.
    pub fn set_pwm_freq(&mut self, value: u8)
        ensures
            final(self).0 == bits::spec_set(old(self).0, 16, 2, value as u32),
    {
        self.0 = bits::set(self.0, 16, 2, value as u32);
    }

    /// Read the `pwm_autoscale` bit-field.
    pub fn pwm_autoscale(&self) -> (r: bool)
        ensures
            r == (bits::spec_get(self.0, 18, 1) == 1),
    {
        bits::get(self.0, 18, 1) == 1
    }

    /// Write the `pwm_autoscale` bit-field.
    pub fn set_pwm_autoscale(&mut self, value: bool)
        ensures
            final(self).0 == bits::spec_set(old(self).0, 18, 1, (if value { 1u32 } else { 0u32 })),
    {
        self.0 = bits::set(self.0, 18, 1, if value { 1 } else { 0 });
    }

    /// Read the `pwm_symmetric` bit-field.
    pub fn pwm_symmetric(&self) -> (r: bool)
        ensures
            r == (bits::spec_get(self.0, 19, 1) == 1),
    {
        bits::get(self.0, 19, 1) == 1
    }

    /// Write the `pwm_symmetric` bit-field.
    pub fn set_pwm_symmetric(&mut self, value: bool)
        ensures
            final(self).0 == bits::spec_set(old(self).0, 19, 1, (if value { 1u32 } else { 0u32 })),
    {
        self.0 = bits::set(self.0, 19, 1, if value { 1 } else { 0 });
    }

    /// Read the `freewheel` bit-field.
    pub fn freewheel(&self) -> (r: u8)
        ensures
            r == bits::spec_get(self.0, 20, 2) as u8,
    {
        #[verifier::truncate] (bits::get(self.0, 20, 2) as u8)
    }

    /// Write the `freewheel` bit-field; a value wider than the field is truncated.
    pub fn set_freewheel(&mut self, value: u8)
        ensures
            final(self).0 == bits::spec_set(old(self).0, 20, 2, value as u32),
    {
        self.0 = bits::set(self.0, 20, 2, value as u32);
    }
}

/// The `PWM_SCALE` register (read-only, wire address `0x71`).
#[derive(Clone, Copy, Debug, PartialEq, Eq, Structural, Hash)]
pub struct PWM_SCALE(pub u32);

impl Default for PWM_SCALE {
    /// The hardware-documented reset value of `PWM_SCALE`.
    fn default() -> (r: Self)
        ensures
            r == PWM_SCALE(0x00000000u32),
    {
        PWM_SCALE(0x00000000)
    }
}

impl Register for PWM_SCALE {
    open spec fn spec_address() -> Address {
        Address::PWM_SCALE
    }

    open spec fn spec_bits(self) -> u32 {
        self.0
    }

    open spec fn spec_from_bits(bits: u32) -> Self {
        PWM_SCALE(bits)
    }

    fn address() -> (a: Address) {
        Address::PWM_SCALE
    }

    fn from_bits(bits: u32) -> (r: Self) {
        PWM_SCALE(bits)
    }

    fn bits(self) -> (r: u32) {
        self.0
    }

    fn into_state(self) -> (s: State) {
        State::PWM_SCALE(self)
    }

    fn try_from_state(s: &State) -> (r: Result<Self, UnexpectedAddress>) {
        match *s {
            State::PWM_SCALE(v) => Ok(v),
            _ => Err(UnexpectedAddress),
        }
    }

    proof fn lemma_bits_round_trip(bits: u32) {
    }
}

impl ReadableRegister for PWM_SCALE {
    proof fn lemma_readable() {
    }
}

impl PWM_SCALE {
    /// Read the `get` bit-field.
    pub fn get(&self) -> (r: u8)
        ensures
            r == bits::spec_get(self.0, 0, 8) as u8,
    {
        #[verifier::truncate] (bits::get(self.0, 0, 8) as u8)
    }
}

/// The `ENCM_CTRL` register (write-only, wire address `0x72`).
#[derive(Clone, Copy, Debug, PartialEq, Eq, Structural, Hash)]
pub struct ENCM_CTRL(pub u32);

impl Default for ENCM_CTRL {
    /// The hardware-documented reset value of `ENCM_CTRL`.
    fn default() -> (r: Self)
        ensures
            r == ENCM_CTRL(0x00000000u32),
    {
        ENCM_CTRL(0x00000000)
    }
}

impl Register for ENCM_CTRL {
    open spec fn spec_address() -> Address {
        Address::ENCM_CTRL
    }

    open spec fn spec_bits(self) -> u32 {
        self.0
    }

    open spec fn spec_from_bits(bits: u32) -> Self {
        ENCM_CTRL(bits)
    }

    fn address() -> (a: Address) {
        Address::ENCM_CTRL
    }

    fn from_bits(bits: u32) -> (r: Self) {
        ENCM_CTRL(bits)
    }

    fn bits(self) -> (r: u32) {
        self.0
    }

    fn into_state(self) -> (s: State) {
        State::ENCM_CTRL(self)
    }

    fn try_from_state(s: &State) -> (r: Result<Self, UnexpectedAddress>) {
        match *s {
            State::ENCM_CTRL(v) => Ok(v),
            _ => Err(UnexpectedAddress),
        }
    }

    proof fn lemma_bits_round_trip(bits: u32) {
    }
}

impl WritableRegister for ENCM_CTRL {
    proof fn lemma_writable() {
    }
}

impl ENCM_CTRL {
    /// Read the `inv` bit-field.
    pub fn inv(&self) -> (r: bool)
        ensures
            r == (bits::spec_get(self.0, 0, 1) == 1),
    {
        bits::get(self.0, 0, 1) == 1
    }

    /// Write the `inv` bit-field.
    pub fn set_inv(&mut self, value: bool)
        ensures
            final(self).0 == bits::spec_set(old(self).0, 0, 1, (if value { 1u32 } else { 0u32 })),
    {
        self.0 = bits::set(self.0, 0, 1, if value { 1 } else { 0 });
    }

    /// Read the `maxspeed` bit-field.
    pub fn maxspeed(&self) -> (r: bool)
        ensures
            r == (bits::spec_get(self.0, 1, 1) == 1),
    {
        bits::get(self.0, 1, 1) == 1
    }

    /// Write the `maxspeed` bit-field.
    pub fn set_maxspeed(&mut self, value: bool)
        ensures
            final(self).0 == bits::spec_set(old(self).0, 1, 1, (if value { 1u32 } else { 0u32 })),
    {
        self.0 = bits::set(self.0, 1, 1, if value { 1 } else { 0 });
    }
}

/// The `LOST_STEPS` register (read-only, wire address `0x73`).
#[derive(Clone, Copy, Debug, PartialEq, Eq, Structural, Hash)]
pub struct LOST_STEPS(pub u32);

impl Default for LOST_STEPS {
    /// The hardware-documented reset value of `LOST_STEPS`.
    fn default() -> (r: Self)
        ensures
            r == LOST_STEPS(0x00000000u32),
    {
        LOST_STEPS(0x00000000)
    }
}

impl Register for LOST_STEPS {
    open spec fn spec_address() -> Address {
        Address::LOST_STEPS
    }

    open spec fn spec_bits(self) -> u32 {
        self.0
    }

    open spec fn spec_from_bits(bits: u32) -> Self {
        LOST_STEPS(bits)
    }

    fn address() -> (a: Address) {
        Address::LOST_STEPS
    }

    fn from_bits(bits: u32) -> (r: Self) {
        LOST_STEPS(bits)
    }

    fn bits(self) -> (r: u32) {
        self.0
    }

    fn into_state(self) -> (s: State) {
        State::LOST_STEPS(self)
    }

    fn try_from_state(s: &State) -> (r: Result<Self, UnexpectedAddress>) {
        match *s {
            State::LOST_STEPS(v) => Ok(v),
            _ => Err(UnexpectedAddress),
        }
    }

    proof fn lemma_bits_round_trip(bits: u32) {
    }
}

impl ReadableRegister for LOST_STEPS {
    proof fn lemma_readable() {
    }
}

impl LOST_STEPS {
    /// Read the `get` bit-field.
    pub fn get(&self) -> (r: u32)
        ensures
            r == bits::spec_get(self.0, 0, 20),
    {
        bits::get(self.0, 0, 20)
    }
}

/// The `SGTHRS` value type.  It belongs to a sibling chip's register map and
/// has no TMC5130 catalog entry, so it carries no `Register` implementation.
#[derive(Clone, Copy, Debug, PartialEq, Eq, Structural, Hash)]
pub struct SGTHRS(pub u32);

impl Default for SGTHRS {
    /// The zero word.
    fn default() -> (r: Self)
        ensures
            r == SGTHRS(0u32),
    {
        SGTHRS(0)
    }
}

/// A dynamic representation of a register's 32-bit state, tagged by address.
#[derive(Clone, Copy, Debug, PartialEq, Eq, Structural, Hash)]
pub enum State {
    GCONF(GCONF),
    GSTAT(GSTAT),
    IFCNT(IFCNT),
    SLAVECONF(SLAVECONF),
    IOIN(IOIN),
    X_COMPARE(X_COMPARE),
    IHOLD_IRUN(IHOLD_IRUN),
    TPOWERDOWN(TPOWERDOWN),
    TSTEP(TSTEP),
    TPWMTHRS(TPWMTHRS),
    TCOOLTHRS(TCOOLTHRS),
    THIGH(THIGH),
    RAMPMODE(RAMPMODE),
    XACTUAL(XACTUAL),
    VACTUAL(VACTUAL),
    VSTART(VSTART),
    A1(A1),
    V1(V1),
    AMAX(AMAX),
    VMAX(VMAX),
    DMAX(DMAX),
    D1(D1),
    VSTOP(VSTOP),
    TZEROWAIT(TZEROWAIT),
    XTARGET(XTARGET),
    VDCMIN(VDCMIN),
    SW_MODE(SW_MODE),
    RAMP_STAT(RAMP_STAT),
    XLATCH(XLATCH),
    MSLUT0(MSLUT0),
    MSLUT1(MSLUT1),
    MSLUT2(MSLUT2),
    MSLUT3(MSLUT3),
    MSLUT4(MSLUT4),
    MSLUT5(MSLUT5),
    MSLUT6(MSLUT6),
    MSLUT7(MSLUT7),
    MSLUTSEL(MSLUTSEL),
    MSLUTSTART(MSLUTSTART),
    MSCNT(MSCNT),
    MSCURACT(MSCURACT),
    CHOPCONF(CHOPCONF),
    COOLCONF(COOLCONF),
    DCCTRL(DCCTRL),
    DRV_STATUS(DRV_STATUS),
    PWMCONF(PWMCONF),
    PWM_SCALE(PWM_SCALE),
    ENCM_CTRL(ENCM_CTRL),
    LOST_STEPS(LOST_STEPS),
}

impl State {
    /// The address of the register with which this state is associated.
    pub open spec fn spec_addr(self) -> Address {
        match self {
            State::GCONF(_) => Address::GCONF,
            State::GSTAT(_) => Address::GSTAT,
            State::IFCNT(_) => Address::IFCNT,
            State::SLAVECONF(_) => Address::SLAVECONF,
            State::IOIN(_) => Address::IOIN,
            State::X_COMPARE(_) => Address::X_COMPARE,
            State::IHOLD_IRUN(_) => Address::IHOLD_IRUN,
            State::TPOWERDOWN(_) => Address::TPOWERDOWN,
            State::TSTEP(_) => Address::TSTEP,
            State::TPWMTHRS(_) => Address::TPWMTHRS,
            State::TCOOLTHRS(_) => Address::TCOOLTHRS,
            State::THIGH(_) => Address::THIGH,
            State::RAMPMODE(_) => Address::RAMPMODE,
            State::XACTUAL(_) => Address::XACTUAL,
            State::VACTUAL(_) => Address::VACTUAL,
            State::VSTART(_) => Address::VSTART,
            State::A1(_) => Address::A1,
            State::V1(_) => Address::V1,
            State::AMAX(_) => Address::AMAX,
            State::VMAX(_) => Address::VMAX,
            State::DMAX(_) => Address::DMAX,
            State::D1(_) => Address::D1,
            State::VSTOP(_) => Address::VSTOP,
            State::TZEROWAIT(_) => Address::TZEROWAIT,
            State::XTARGET(_) => Address::XTARGET,
            State::VDCMIN(_) => Address::VDCMIN,
            State::SW_MODE(_) => Address::SW_MODE,
            State::RAMP_STAT(_) => Address::RAMP_STAT,
            State::XLATCH(_) => Address::XLATCH,
            State::MSLUT0(_) => Address::MSLUT0,
            State::MSLUT1(_) => Address::MSLUT1,
            State::MSLUT2(_) => Address::MSLUT2,
            State::MSLUT3(_) => Address::MSLUT3,
            State::MSLUT4(_) => Address::MSLUT4,
            State::MSLUT5(_) => Address::MSLUT5,
            State::MSLUT6(_) => Address::MSLUT6,
            State::MSLUT7(_) => Address::MSLUT7,
            State::MSLUTSEL(_) => Address::MSLUTSEL,
            State::MSLUTSTART(_) => Address::MSLUTSTART,
            State::MSCNT(_) => Address::MSCNT,
            State::MSCURACT(_) => Address::MSCURACT,
            State::CHOPCONF(_) => Address::CHOPCONF,
            State::COOLCONF(_) => Address::COOLCONF,
            State::DCCTRL(_) => Address::DCCTRL,
            State::DRV_STATUS(_) => Address::DRV_STATUS,
            State::PWMCONF(_) => Address::PWMCONF,
            State::PWM_SCALE(_) => Address::PWM_SCALE,
            State::ENCM_CTRL(_) => Address::ENCM_CTRL,
            State::LOST_STEPS(_) => Address::LOST_STEPS,
        }
    }

    /// The raw 32-bit word held by this state.
    pub open spec fn spec_bits(self) -> u32 {
        match self {
            State::GCONF(r) => r.0,
            State::GSTAT(r) => r.0,
            State::IFCNT(r) => r.0,
            State::SLAVECONF(r) => r.0,
            State::IOIN(r) => r.0,
            State::X_COMPARE(r) => r.0,
            State::IHOLD_IRUN(r) => r.0,
            State::TPOWERDOWN(r) => r.0,
            State::TSTEP(r) => r.0,
            State::TPWMTHRS(r) => r.0,
            State::TCOOLTHRS(r) => r.0,
            State::THIGH(r) => r.0,
            State::RAMPMODE(r) => r.0,
            State::XACTUAL(r) => r.0,
            State::VACTUAL(r) => r.0,
            State::VSTART(r) => r.0,
            State::A1(r) => r.0,
            State::V1(r) => r.0,
            State::AMAX(r) => r.0,
            State::VMAX(r) => r.0,
            State::DMAX(r) => r.0,
            State::D1(r) => r.0,
            State::VSTOP(r) => r.0,
            State::TZEROWAIT(r) => r.0,
            State::XTARGET(r) => r.0,
            State::VDCMIN(r) => r.0,
            State::SW_MODE(r) => r.0,
            State::RAMP_STAT(r) => r.0,
            State::XLATCH(r) => r.0,
            State::MSLUT0(r) => r.0,
            State::MSLUT1(r) => r.0,
            State::MSLUT2(r) => r.0,
            State::MSLUT3(r) => r.0,
            State::MSLUT4(r) => r.0,
            State::MSLUT5(r) => r.0,
            State::MSLUT6(r) => r.0,
            State::MSLUT7(r) => r.0,
            State::MSLUTSEL(r) => r.0,
            State::MSLUTSTART(r) => r.0,
            State::MSCNT(r) => r.0,
            State::MSCURACT(r) => r.0,
            State::CHOPCONF(r) => r.0,
            State::COOLCONF(r) => r.0,
            State::DCCTRL(r) => r.0,
            State::DRV_STATUS(r) => r.0,
            State::PWMCONF(r) => r.0,
            State::PWM_SCALE(r) => r.0,
            State::ENCM_CTRL(r) => r.0,
            State::LOST_STEPS(r) => r.0,
        }
    }

    /// The state for the register at `addr`, decoded from the raw word `data`.
    pub open spec fn spec_from_addr_and_data(addr: Address, data: u32) -> State {
        match addr {
            Address::GCONF => State::GCONF(GCONF(data)),
            Address::GSTAT => State::GSTAT(GSTAT(data)),
            Address::IFCNT => State::IFCNT(IFCNT(data)),
            Address::SLAVECONF => State::SLAVECONF(SLAVECONF(data)),
            Address::IOIN => State::IOIN(IOIN(data)),
            Address::X_COMPARE => State::X_COMPARE(X_COMPARE(data)),
            Address::IHOLD_IRUN => State::IHOLD_IRUN(IHOLD_IRUN(data)),
            Address::TPOWERDOWN => State::TPOWERDOWN(TPOWERDOWN(data)),
            Address::TSTEP => State::TSTEP(TSTEP(data)),
            Address::TPWMTHRS => State::TPWMTHRS(TPWMTHRS(data)),
            Address::TCOOLTHRS => State::TCOOLTHRS(TCOOLTHRS(data)),
            Address::THIGH => State::THIGH(THIGH(data)),
            Address::RAMPMODE => State::RAMPMODE(RAMPMODE(data)),
            Address::XACTUAL => State::XACTUAL(XACTUAL(data)),
            Address::VACTUAL => State::VACTUAL(VACTUAL(data)),
            Address::VSTART => State::VSTART(VSTART(data)),
            Address::A1 => State::A1(A1(data)),
            Address::V1 => State::V1(V1(data)),
            Address::AMAX => State::AMAX(AMAX(data)),
            Address::VMAX => State::VMAX(VMAX(data)),
            Address::DMAX => State::DMAX(DMAX(data)),
            Address::D1 => State::D1(D1(data)),
            Address::VSTOP => State::VSTOP(VSTOP(data)),
            Address::TZEROWAIT => State::TZEROWAIT(TZEROWAIT(data)),
            Address::XTARGET => State::XTARGET(XTARGET(data)),
            Address::VDCMIN => State::VDCMIN(VDCMIN(data)),
            Address::SW_MODE => State::SW_MODE(SW_MODE(data)),
            Address::RAMP_STAT => State::RAMP_STAT(RAMP_STAT(data)),
            Address::XLATCH => State::XLATCH(XLATCH(data)),
            Address::MSLUT0 => State::MSLUT0(MSLUT0(data)),
            Address::MSLUT1 => State::MSLUT1(MSLUT1(data)),
            Address::MSLUT2 => State::MSLUT2(MSLUT2(data)),
            Address::MSLUT3 => State::MSLUT3(MSLUT3(data)),
            Address::MSLUT4 => State::MSLUT4(MSLUT4(data)),
            Address::MSLUT5 => State::MSLUT5(MSLUT5(data)),
            Address::MSLUT6 => State::MSLUT6(MSLUT6(data)),
            Address::MSLUT7 => State::MSLUT7(MSLUT7(data)),
            Address::MSLUTSEL => State::MSLUTSEL(MSLUTSEL(data)),
            Address::MSLUTSTART => State::MSLUTSTART(MSLUTSTART(data)),
            Address::MSCNT => State::MSCNT(MSCNT(data)),
            Address::MSCURACT => State::MSCURACT(MSCURACT(data)),
            Address::CHOPCONF => State::CHOPCONF(CHOPCONF(data)),
            Address::COOLCONF => State::COOLCONF(COOLCONF(data)),
            Address::DCCTRL => State::DCCTRL(DCCTRL(data)),
            Address::DRV_STATUS => State::DRV_STATUS(DRV_STATUS(data)),
            Address::PWMCONF => State::PWMCONF(PWMCONF(data)),
            Address::PWM_SCALE => State::PWM_SCALE(PWM_SCALE(data)),
            Address::ENCM_CTRL => State::ENCM_CTRL(ENCM_CTRL(data)),
            Address::LOST_STEPS => State::LOST_STEPS(LOST_STEPS(data)),
        }
    }

    /// The tag of a decoded state is the address it was decoded for, and the
    /// payload is the word it was decoded from.
    pub proof fn lemma_from_addr_and_data(addr: Address, data: u32)
        ensures
            State::spec_from_addr_and_data(addr, data).spec_addr() == addr,
            State::spec_from_addr_and_data(addr, data).spec_bits() == data,
    {
    }

    /// The address of the register with which this state is associated.
    pub fn addr(&self) -> (a: Address)
        ensures
            a == self.spec_addr(),
    {
        match *self {
            State::GCONF(_) => Address::GCONF,
            State::GSTAT(_) => Address::GSTAT,
            State::IFCNT(_) => Address::IFCNT,
            State::SLAVECONF(_) => Address::SLAVECONF,
            State::IOIN(_) => Address::IOIN,
            State::X_COMPARE(_) => Address::X_COMPARE,
            State::IHOLD_IRUN(_) => Address::IHOLD_IRUN,
            State::TPOWERDOWN(_) => Address::TPOWERDOWN,
            State::TSTEP(_) => Address::TSTEP,
            State::TPWMTHRS(_) => Address::TPWMTHRS,
            State::TCOOLTHRS(_) => Address::TCOOLTHRS,
            State::THIGH(_) => Address::THIGH,
            State::RAMPMODE(_) => Address::RAMPMODE,
            State::XACTUAL(_) => Address::XACTUAL,
            State::VACTUAL(_) => Address::VACTUAL,
            State::VSTART(_) => Address::VSTART,
            State::A1(_) => Address::A1,
            State::V1(_) => Address::V1,
            State::AMAX(_) => Address::AMAX,
            State::VMAX(_) => Address::VMAX,
            State::DMAX(_) => Address::DMAX,
            State::D1(_) => Address::D1,
            State::VSTOP(_) => Address::VSTOP,
            State::TZEROWAIT(_) => Address::TZEROWAIT,
            State::XTARGET(_) => Address::XTARGET,
            State::VDCMIN(_) => Address::VDCMIN,
            State::SW_MODE(_) => Address::SW_MODE,
            State::RAMP_STAT(_) => Address::RAMP_STAT,
            State::XLATCH(_) => Address::XLATCH,
            State::MSLUT0(_) => Address::MSLUT0,
            State::MSLUT1(_) => Address::MSLUT1,
            State::MSLUT2(_) => Address::MSLUT2,
            State::MSLUT3(_) => Address::MSLUT3,
            State::MSLUT4(_) => Address::MSLUT4,
            State::MSLUT5(_) => Address::MSLUT5,
            State::MSLUT6(_) => Address::MSLUT6,
            State::MSLUT7(_) => Address::MSLUT7,
            State::MSLUTSEL(_) => Address::MSLUTSEL,
            State::MSLUTSTART(_) => Address::MSLUTSTART,
            State::MSCNT(_) => Address::MSCNT,
            State::MSCURACT(_) => Address::MSCURACT,
            State::CHOPCONF(_) => Address::CHOPCONF,
            State::COOLCONF(_) => Address::COOLCONF,
            State::DCCTRL(_) => Address::DCCTRL,
            State::DRV_STATUS(_) => Address::DRV_STATUS,
            State::PWMCONF(_) => Address::PWMCONF,
            State::PWM_SCALE(_) => Address::PWM_SCALE,
            State::ENCM_CTRL(_) => Address::ENCM_CTRL,
            State::LOST_STEPS(_) => Address::LOST_STEPS,
        }
    }

    /// The raw 32-bit word held by this state.
    pub fn to_u32(&self) -> (r: u32)
        ensures
            r == self.spec_bits(),
    {
        match *self {
            State::GCONF(r) => r.0,
            State::GSTAT(r) => r.0,
            State::IFCNT(r) => r.0,
            State::SLAVECONF(r) => r.0,
            State::IOIN(r) => r.0,
            State::X_COMPARE(r) => r.0,
            State::IHOLD_IRUN(r) => r.0,
            State::TPOWERDOWN(r) => r.0,
            State::TSTEP(r) => r.0,
            State::TPWMTHRS(r) => r.0,
            State::TCOOLTHRS(r) => r.0,
            State::THIGH(r) => r.0,
            State::RAMPMODE(r) => r.0,
            State::XACTUAL(r) => r.0,
            State::VACTUAL(r) => r.0,
            State::VSTART(r) => r.0,
            State::A1(r) => r.0,
            State::V1(r) => r.0,
            State::AMAX(r) => r.0,
            State::VMAX(r) => r.0,
            State::DMAX(r) => r.0,
            State::D1(r) => r.0,
            State::VSTOP(r) => r.0,
            State::TZEROWAIT(r) => r.0,
            State::XTARGET(r) => r.0,
            State::VDCMIN(r) => r.0,
            State::SW_MODE(r) => r.0,
            State::RAMP_STAT(r) => r.0,
            State::XLATCH(r) => r.0,
            State::MSLUT0(r) => r.0,
            State::MSLUT1(r) => r.0,
            State::MSLUT2(r) => r.0,
            State::MSLUT3(r) => r.0,
            State::MSLUT4(r) => r.0,
            State::MSLUT5(r) => r.0,
            State::MSLUT6(r) => r.0,
            State::MSLUT7(r) => r.0,
            State::MSLUTSEL(r) => r.0,
            State::MSLUTSTART(r) => r.0,
            State::MSCNT(r) => r.0,
            State::MSCURACT(r) => r.0,
            State::CHOPCONF(r) => r.0,
            State::COOLCONF(r) => r.0,
            State::DCCTRL(r) => r.0,
            State::DRV_STATUS(r) => r.0,
            State::PWMCONF(r) => r.0,
            State::PWM_SCALE(r) => r.0,
            State::ENCM_CTRL(r) => r.0,
            State::LOST_STEPS(r) => r.0,
        }
    }

    /// Construct a register state from its address and data represented as a
    /// `u32`.  Total for all valid addresses.
    pub fn from_addr_and_data(addr: Address, data: u32) -> (s: State)
        ensures
            s == State::spec_from_addr_and_data(addr, data),
    {
        match addr {
            Address::GCONF => State::GCONF(GCONF(data)),
            Address::GSTAT => State::GSTAT(GSTAT(data)),
            Address::IFCNT => State::IFCNT(IFCNT(data)),
            Address::SLAVECONF => State::SLAVECONF(SLAVECONF(data)),
            Address::IOIN => State::IOIN(IOIN(data)),
            Address::X_COMPARE => State::X_COMPARE(X_COMPARE(data)),
            Address::IHOLD_IRUN => State::IHOLD_IRUN(IHOLD_IRUN(data)),
            Address::TPOWERDOWN => State::TPOWERDOWN(TPOWERDOWN(data)),
            Address::TSTEP => State::TSTEP(TSTEP(data)),
            Address::TPWMTHRS => State::TPWMTHRS(TPWMTHRS(data)),
            Address::TCOOLTHRS => State::TCOOLTHRS(TCOOLTHRS(data)),
            Address::THIGH => State::THIGH(THIGH(data)),
            Address::RAMPMODE => State::RAMPMODE(RAMPMODE(data)),
            Address::XACTUAL => State::XACTUAL(XACTUAL(data)),
            Address::VACTUAL => State::VACTUAL(VACTUAL(data)),
            Address::VSTART => State::VSTART(VSTART(data)),
            Address::A1 => State::A1(A1(data)),
            Address::V1 => State::V1(V1(data)),
            Address::AMAX => State::AMAX(AMAX(data)),
            Address::VMAX => State::VMAX(VMAX(data)),
            Address::DMAX => State::DMAX(DMAX(data)),
            Address::D1 => State::D1(D1(data)),
            Address::VSTOP => State::VSTOP(VSTOP(data)),
            Address::TZEROWAIT => State::TZEROWAIT(TZEROWAIT(data)),
            Address::XTARGET => State::XTARGET(XTARGET(data)),
            Address::VDCMIN => State::VDCMIN(VDCMIN(data)),
            Address::SW_MODE => State::SW_MODE(SW_MODE(data)),
            Address::RAMP_STAT => State::RAMP_STAT(RAMP_STAT(data)),
            Address::XLATCH => State::XLATCH(XLATCH(data)),
            Address::MSLUT0 => State::MSLUT0(MSLUT0(data)),
            Address::MSLUT1 => State::MSLUT1(MSLUT1(data)),
            Address::MSLUT2 => State::MSLUT2(MSLUT2(data)),
            Address::MSLUT3 => State::MSLUT3(MSLUT3(data)),
            Address::MSLUT4 => State::MSLUT4(MSLUT4(data)),
            Address::MSLUT5 => State::MSLUT5(MSLUT5(data)),
            Address::MSLUT6 => State::MSLUT6(MSLUT6(data)),
            Address::MSLUT7 => State::MSLUT7(MSLUT7(data)),
            Address::MSLUTSEL => State::MSLUTSEL(MSLUTSEL(data)),
            Address::MSLUTSTART => State::MSLUTSTART(MSLUTSTART(data)),
            Address::MSCNT => State::MSCNT(MSCNT(data)),
            Address::MSCURACT => State::MSCURACT(MSCURACT(data)),
            Address::CHOPCONF => State::CHOPCONF(CHOPCONF(data)),
            Address::COOLCONF => State::COOLCONF(COOLCONF(data)),
            Address::DCCTRL => State::DCCTRL(DCCTRL(data)),
            Address::DRV_STATUS => State::DRV_STATUS(DRV_STATUS(data)),
            Address::PWMCONF => State::PWMCONF(PWMCONF(data)),
            Address::PWM_SCALE => State::PWM_SCALE(PWM_SCALE(data)),
            Address::ENCM_CTRL => State::ENCM_CTRL(ENCM_CTRL(data)),
            Address::LOST_STEPS => State::LOST_STEPS(LOST_STEPS(data)),
        }
    }

    /// Construct the default register state associated with the given address.
    pub fn from_addr_default(addr: Address) -> (s: State)
        ensures
            s == State::spec_from_addr_and_data(addr, spec_default_bits(addr)),
    {
        match addr {
            Address::GCONF => State::GCONF(GCONF::default()),
            Address::GSTAT => State::GSTAT(GSTAT::default()),
            Address::IFCNT => State::IFCNT(IFCNT::default()),
            Address::SLAVECONF => State::SLAVECONF(SLAVECONF::default()),
            Address::IOIN => State::IOIN(IOIN::default()),
            Address::X_COMPARE => State::X_COMPARE(X_COMPARE::default()),
            Address::IHOLD_IRUN => State::IHOLD_IRUN(IHOLD_IRUN::default()),
            Address::TPOWERDOWN => State::TPOWERDOWN(TPOWERDOWN::default()),
            Address::TSTEP => State::TSTEP(TSTEP::default()),
            Address::TPWMTHRS => State::TPWMTHRS(TPWMTHRS::default()),
            Address::TCOOLTHRS => State::TCOOLTHRS(TCOOLTHRS::default()),
            Address::THIGH => State::THIGH(THIGH::default()),
            Address::RAMPMODE => State::RAMPMODE(RAMPMODE::default()),
            Address::XACTUAL => State::XACTUAL(XACTUAL::default()),
            Address::VACTUAL => State::VACTUAL(VACTUAL::default()),
            Address::VSTART => State::VSTART(VSTART::default()),
            Address::A1 => State::A1(A1::default()),
            Address::V1 => State::V1(V1::default()),
            Address::AMAX => State::AMAX(AMAX::default()),
            Address::VMAX => State::VMAX(VMAX::default()),
            Address::DMAX => State::DMAX(DMAX::default()),
            Address::D1 => State::D1(D1::default()),
            Address::VSTOP => State::VSTOP(VSTOP::default()),
            Address::TZEROWAIT => State::TZEROWAIT(TZEROWAIT::default()),
            Address::XTARGET => State::XTARGET(XTARGET::default()),
            Address::VDCMIN => State::VDCMIN(VDCMIN::default()),
            Address::SW_MODE => State::SW_MODE(SW_MODE::default()),
            Address::RAMP_STAT => State::RAMP_STAT(RAMP_STAT::default()),
            Address::XLATCH => State::XLATCH(XLATCH::default()),
            Address::MSLUT0 => State::MSLUT0(MSLUT0::default()),
            Address::MSLUT1 => State::MSLUT1(MSLUT1::default()),
            Address::MSLUT2 => State::MSLUT2(MSLUT2::default()),
            Address::MSLUT3 => State::MSLUT3(MSLUT3::default()),
            Address::MSLUT4 => State::MSLUT4(MSLUT4::default()),
            Address::MSLUT5 => State::MSLUT5(MSLUT5::default()),
            Address::MSLUT6 => State::MSLUT6(MSLUT6::default()),
            Address::MSLUT7 => State::MSLUT7(MSLUT7::default()),
            Address::MSLUTSEL => State::MSLUTSEL(MSLUTSEL::default()),
            Address::MSLUTSTART => State::MSLUTSTART(MSLUTSTART::default()),
            Address::MSCNT => State::MSCNT(MSCNT::default()),
            Address::MSCURACT => State::MSCURACT(MSCURACT::default()),
            Address::CHOPCONF => State::CHOPCONF(CHOPCONF::default()),
            Address::COOLCONF => State::COOLCONF(COOLCONF::default()),
            Address::DCCTRL => State::DCCTRL(DCCTRL::default()),
            Address::DRV_STATUS => State::DRV_STATUS(DRV_STATUS::default()),
            Address::PWMCONF => State::PWMCONF(PWMCONF::default()),
            Address::PWM_SCALE => State::PWM_SCALE(PWM_SCALE::default()),
            Address::ENCM_CTRL => State::ENCM_CTRL(ENCM_CTRL::default()),
            Address::LOST_STEPS => State::LOST_STEPS(LOST_STEPS::default()),
        }
    }

    /// Attempt to retrieve a register of type `R` from the dynamic register
    /// `State` representation.
    ///
    /// Returns an `Err` if the register type does not match.
    pub fn reg<R: Register>(&self) -> (r: Result<R, UnexpectedAddress>)
        ensures
            match r {
                Ok(v) => self.spec_addr() == R::spec_address() && v == R::spec_from_bits(
                    self.spec_bits(),
                ),
                Err(e) => self.spec_addr() != R::spec_address() && e == UnexpectedAddress,
            },
    {
        R::try_from_state(self)
    }
}

/// A map of the state of all registers in the TMC5130: exactly one slot per
/// catalog entry, indexed by address.  Every slot always holds a state whose
/// address matches its catalog slot; no slot is ever empty.
#[derive(Clone, Debug)]
pub struct RegisterMap {
    arr: Vec<State>,
}

impl RegisterMap {
    /// The total number of documented registers in the TMC5130.
    pub const LEN: usize = 49;

    /// Well-formedness: one slot per catalog entry, each holding a state
    /// tagged with that slot's own address.
    pub closed spec fn wf(self) -> bool {
        self.arr@.len() == 49 && forall|i: int|
            0 <= i < 49 ==> spec_slot((#[trigger] self.arr@[i]).spec_addr()) == i
    }

    /// The state held in the slot for address `a`.
    pub closed spec fn spec_state(self, a: Address) -> State {
        self.arr@[spec_slot(a)]
    }

    /// The catalog slot of address `a`.
    fn slot(a: Address) -> (i: usize)
        ensures
            i == spec_slot(a),
    {
        match a {
            Address::GCONF => 0,
            Address::GSTAT => 1,
            Address::IFCNT => 2,
            Address::SLAVECONF => 3,
            Address::IOIN => 4,
            Address::X_COMPARE => 5,
            Address::IHOLD_IRUN => 6,
            Address::TPOWERDOWN => 7,
            Address::TSTEP => 8,
            Address::TPWMTHRS => 9,
            Address::TCOOLTHRS => 10,
            Address::THIGH => 11,
            Address::RAMPMODE => 12,
            Address::XACTUAL => 13,
            Address::VACTUAL => 14,
            Address::VSTART => 15,
            Address::A1 => 16,
            Address::V1 => 17,
            Address::AMAX => 18,
            Address::VMAX => 19,
            Address::DMAX => 20,
            Address::D1 => 21,
            Address::VSTOP => 22,
            Address::TZEROWAIT => 23,
            Address::XTARGET => 24,
            Address::VDCMIN => 25,
            Address::SW_MODE => 26,
            Address::RAMP_STAT => 27,
            Address::XLATCH => 28,
            Address::MSLUT0 => 29,
            Address::MSLUT1 => 30,
            Address::MSLUT2 => 31,
            Address::MSLUT3 => 32,
            Address::MSLUT4 => 33,
            Address::MSLUT5 => 34,
            Address::MSLUT6 => 35,
            Address::MSLUT7 => 36,
            Address::MSLUTSEL => 37,
            Address::MSLUTSTART => 38,
            Address::MSCNT => 39,
            Address::MSCURACT => 40,
            Address::CHOPCONF => 41,
            Address::COOLCONF => 42,
            Address::DCCTRL => 43,
            Address::DRV_STATUS => 44,
            Address::PWMCONF => 45,
            Address::PWM_SCALE => 46,
            Address::ENCM_CTRL => 47,
            Address::LOST_STEPS => 48,
        }
    }

    /// Read-only access to the dynamic representation of the register state
    /// at the given address.
    pub fn state(&self, addr: Address) -> (s: State)
        requires
            self.wf(),
        ensures
            s == self.spec_state(addr),
            s.spec_addr() == addr,
    {
        proof {
            lemma_slot_inverse(addr);
        }
        let i = Self::slot(addr);
        let s = self.arr[i];
        proof {
            lemma_slot_inverse(s.spec_addr());
        }
        s
    }

    /// Update the given register state.  The slot a state occupies is fixed
    /// by its address, so an update never changes which register a slot
    /// describes.
    pub fn set_state(&mut self, state: State)
        requires
            old(self).wf(),
        ensures
            final(self).wf(),
            final(self).spec_state(state.spec_addr()) == state,
            forall|b: Address| b != state.spec_addr() ==> final(self).spec_state(b) == old(
                self,
            ).spec_state(b),
    {
        proof {
            lemma_slot_inverse(state.spec_addr());
        }
        let i = Self::slot(state.addr());
        self.arr[i] = state;
        proof {
            assert forall|b: Address| b != state.spec_addr() implies self.spec_state(b) == old(
                self,
            ).spec_state(b) by {
                lemma_slot_inverse(b);
                lemma_slot_inverse(state.spec_addr());
            }
        }
    }

    /// Read-only access to the register of the given type.
    pub fn reg<T: Register>(&self) -> (r: T)
        requires
            self.wf(),
        ensures
            r == T::spec_from_bits(self.spec_state(T::spec_address()).spec_bits()),
    {
        let s = self.state(T::address());
        match T::try_from_state(&s) {
            Ok(v) => v,
            Err(_) => unreached(),
        }
    }

    /// Store `value` in the slot of its register type.
    pub fn set_reg<T: Register>(&mut self, value: T)
        requires
            old(self).wf(),
        ensures
            final(self).wf(),
            final(self).spec_state(T::spec_address()) == State::spec_from_addr_and_data(
                T::spec_address(),
                value.spec_bits(),
            ),
            forall|b: Address| b != T::spec_address() ==> final(self).spec_state(b) == old(
                self,
            ).spec_state(b),
    {
        proof {
            State::lemma_from_addr_and_data(T::spec_address(), value.spec_bits());
        }
        let s = value.into_state();
        self.set_state(s);
    }
}

impl Default for RegisterMap {
    /// A map holding each register's hardware-documented default value.
    fn default() -> (r: Self)
        ensures
            r.wf(),
            forall|a: Address| #[trigger] r.spec_state(a) == State::spec_from_addr_and_data(
                a,
                spec_default_bits(a),
            ),
    {
        let addrs = Address::all();
        let mut arr: Vec<State> = Vec::new();
        let mut i: usize = 0;
        while i < 49
            invariant
                addrs@ == spec_all_addresses(),
                i <= 49,
                arr@.len() == i,
                forall|j: int|
                    0 <= j < i ==> #[trigger] arr@[j] == State::spec_from_addr_and_data(
                        spec_addr_at(j),
                        spec_default_bits(spec_addr_at(j)),
                    ),
            decreases 49 - i,
        {
            let a = addrs[i];
            arr.push(State::from_addr_default(a));
            i += 1;
        }
        let r = RegisterMap { arr };
        proof {
            assert forall|k: int| 0 <= k < 49 implies spec_slot(
                (#[trigger] r.arr@[k]).spec_addr(),
            ) == k by {
                State::lemma_from_addr_and_data(spec_addr_at(k), spec_default_bits(spec_addr_at(k)));
                lemma_slot_at(k);
            }
            assert forall|a: Address| #[trigger] r.spec_state(a)
                == State::spec_from_addr_and_data(a, spec_default_bits(a)) by {
                lemma_slot_inverse(a);
                State::lemma_from_addr_and_data(
                    spec_addr_at(spec_slot(a)),
                    spec_default_bits(spec_addr_at(spec_slot(a))),
                );
            }
        }
        r
    }
}

/// Map totality: in a well-formed map, the slot looked up for any address
/// holds a state tagged with that same address.
pub proof fn lemma_map_state_addr(m: RegisterMap, a: Address)
    requires
        m.wf(),
    ensures
        m.spec_state(a).spec_addr() == a,
{
    lemma_slot_inverse(a);
    lemma_slot_inverse(m.spec_state(a).spec_addr());
}

} // verus!
