//! Register-map and dynamic-state tests: totality of the address-indexed
//! map, hardware defaults, typed and dynamic access, address parsing, and
//! the tag-mismatch error.

use tmc5130::reg::{
    Address, Register, RegisterMap, State, UnexpectedAddress, UnknownAddress, CHOPCONF, GCONF,
    GSTAT, IFCNT, IHOLD_IRUN, PWMCONF, SLAVECONF, XTARGET, COUNT,
};

#[test]
fn default_map_state_matches_every_address() {
    // For every address in the catalog, the slot holds a state tagged with
    // that same address.
    let map = RegisterMap::default();
    let all = Address::all();
    assert_eq!(all.len(), COUNT);
    for addr in all {
        assert_eq!(map.state(addr).addr(), addr);
    }
}

#[test]
fn default_map_holds_hardware_defaults() {
    let map = RegisterMap::default();
    assert_eq!(map.reg::<GCONF>(), GCONF(0x41));
    assert_eq!(map.reg::<IHOLD_IRUN>(), IHOLD_IRUN(0x1F00));
    assert_eq!(map.reg::<PWMCONF>(), PWMCONF(0xC10D0024));
    assert_eq!(map.reg::<CHOPCONF>(), CHOPCONF(0));
    assert_eq!(map.reg::<IFCNT>(), IFCNT(0));
}

#[test]
fn set_state_replaces_only_its_slot() {
    let mut map = RegisterMap::default();
    map.set_state(State::GCONF(GCONF(0x123)));
    assert_eq!(map.reg::<GCONF>(), GCONF(0x123));
    assert_eq!(map.state(Address::GCONF).to_u32(), 0x123);
    // Every other slot keeps its default.
    assert_eq!(map.reg::<IHOLD_IRUN>(), IHOLD_IRUN(0x1F00));
}

#[test]
fn set_reg_stores_a_typed_value() {
    let mut map = RegisterMap::default();
    map.set_reg(XTARGET(77));
    assert_eq!(map.reg::<XTARGET>(), XTARGET(77));
    assert_eq!(map.state(Address::XTARGET).to_u32(), 77);
}

#[test]
fn state_construction_is_total() {
    for addr in Address::all() {
        let s = State::from_addr_and_data(addr, 0xA5A5A5A5);
        assert_eq!(s.addr(), addr);
        assert_eq!(s.to_u32(), 0xA5A5A5A5);
        let d = State::from_addr_default(addr);
        assert_eq!(d.addr(), addr);
    }
}

#[test]
fn state_reg_checks_the_tag() {
    let s = State::GCONF(GCONF(0x41));
    assert_eq!(s.reg::<GCONF>(), Ok(GCONF(0x41)));
    assert_eq!(s.reg::<GSTAT>(), Err(UnexpectedAddress));
}

#[test]
fn address_values_and_parsing() {
    assert_eq!(Address::GCONF.value(), 0x00);
    assert_eq!(Address::CHOPCONF.value(), 0x6C);
    assert_eq!(Address::from_u8(0x6C), Ok(Address::CHOPCONF));
    assert_eq!(Address::from_u8(0x00), Ok(Address::GCONF));
    // 0x06 lies in a gap of the catalog.
    assert_eq!(Address::from_u8(0x06), Err(UnknownAddress));
    assert_eq!(Address::from_u8(0xFF), Err(UnknownAddress));
    // Parsing a catalog value always returns the address it came from.
    for addr in Address::all() {
        assert_eq!(Address::from_u8(addr.value()), Ok(addr));
    }
}

#[test]
fn access_modes_follow_the_catalog() {
    assert!(Address::GCONF.readable());
    assert!(Address::GCONF.writable());
    assert!(Address::IFCNT.readable());
    assert!(!Address::IFCNT.writable());
    assert!(!Address::SLAVECONF.readable());
    assert!(Address::SLAVECONF.writable());
    assert!(Address::DRV_STATUS.readable());
    assert!(!Address::DRV_STATUS.writable());
}

#[test]
fn register_trait_round_trips() {
    let g = GCONF::from_bits(0xCAFEBABE);
    assert_eq!(g.bits(), 0xCAFEBABE);
    assert_eq!(GCONF::address(), Address::GCONF);
    let s = g.into_state();
    assert_eq!(s, State::GCONF(GCONF(0xCAFEBABE)));
    assert_eq!(GCONF::try_from_state(&s), Ok(GCONF(0xCAFEBABE)));
    assert_eq!(SLAVECONF::try_from_state(&s), Err(UnexpectedAddress));
}
