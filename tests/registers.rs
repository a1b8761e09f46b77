use redox_damage::registers::Registers;

#[test]
fn pairs_compose_big_endian() {
    let mut r = Registers::default();
    r.set_bc(0x1234);
    assert_eq!(r.b, 0x12);
    assert_eq!(r.c, 0x34);
    assert_eq!(r.get_bc(), 0x1234);
    r.set_de(0xABCD);
    assert_eq!((r.d, r.e), (0xAB, 0xCD));
    assert_eq!(r.get_de(), 0xABCD);
    r.set_hl(0xFF00);
    assert_eq!((r.h, r.l), (0xFF, 0x00));
    assert_eq!(r.get_hl(), 0xFF00);
}

#[test]
fn af_drops_low_nibble_of_flags() {
    let mut r = Registers::default();
    r.set_af(0x12FF);
    assert_eq!(r.a, 0x12);
    assert_eq!(r.get_af(), 0x12F0);
    assert!(r.get_flag_z() && r.get_flag_n() && r.get_flag_h() && r.get_flag_c());
    r.set_af(0x3450);
    assert_eq!(r.get_af(), 0x3450);
    assert!(!r.get_flag_z() && r.get_flag_n() && !r.get_flag_h() && r.get_flag_c());
}

#[test]
fn flag_setters_touch_one_bit() {
    let mut r = Registers::default();
    r.set_flag_z(true);
    assert_eq!(r.get_af() & 0xFF, 0x80);
    r.set_flag_c(true);
    assert_eq!(r.get_af() & 0xFF, 0x90);
    r.set_flag_n(true);
    r.set_flag_h(true);
    assert_eq!(r.get_af() & 0xFF, 0xF0);
    r.set_flag_z(false);
    assert_eq!(r.get_af() & 0xFF, 0x70);
    assert!(!r.get_flag_z());
    assert!(r.get_flag_n() && r.get_flag_h() && r.get_flag_c());
}
