use gb_registers::Registers;

#[test]
fn check_16bit_registers() {
    let mut r = Registers::new();

    assert_eq!(r.read_af(), 0x0000);
    r.set_af(0xD240);
    assert_eq!(r.read_a(), 0xD2);
    assert_eq!(r.read_f(), 0x40);
    assert_eq!(r.read_af(), 0xD240);

    assert_eq!(r.read_bc(), 0x0000);
    r.set_bc(0xAF22);
    assert_eq!(r.read_b(), 0xAF);
    assert_eq!(r.read_c(), 0x22);
    assert_eq!(r.read_bc(), 0xAF22);

    assert_eq!(r.read_d(), 0x0000);
    r.set_de(0x09F1);
    assert_eq!(r.read_d(), 0x09);
    assert_eq!(r.read_e(), 0xF1);
    assert_eq!(r.read_de(), 0x09F1);

    assert_eq!(r.read_hl(), 0x0000);
    r.set_hl(0x0110);
    assert_eq!(r.read_h(), 0x01);
    assert_eq!(r.read_l(), 0x10);
    assert_eq!(r.read_hl(), 0x0110);
}

#[test]
fn test_a_register() {
    let mut r = Registers::new();
    r.set_a(0xF9);

    assert_eq!(r.read_a(), 0xF9);
}

#[test]
fn test_b_register() {
    let mut r = Registers::new();
    r.set_b(0xF9);

    assert_eq!(r.read_b(), 0xF9);
}

#[test]
fn test_c_register() {
    let mut r = Registers::new();
    r.set_c(0xF9);

    assert_eq!(r.read_c(), 0xF9);
}

#[test]
fn test_d_register() {
    let mut r = Registers::new();
    r.set_d(0xF9);

    assert_eq!(r.read_d(), 0xF9);
}

#[test]
fn test_e_register() {
    let mut r = Registers::new();
    r.set_e(0xF9);

    assert_eq!(r.read_e(), 0xF9);
}

#[test]
fn test_f_register() {
    let mut r = Registers::new();
    r.set_f(0xF9);

    assert_eq!(r.read_f(), 0xF9);
}

#[test]
fn test_sp_register() {
    let mut r = Registers::new();

    assert_eq!(r.read_sp(), 0x0000);
    r.set_sp(0xF94A);
    assert_eq!(r.read_sp(), 0xF94A);
}
