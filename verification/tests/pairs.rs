use cpu_registers::registers::Registers;

#[test]
fn test_registers_initialization() {
    let registers = Registers::new();
    assert_eq!(registers.a, 0);
    assert_eq!(registers.f, 0);
    assert_eq!(registers.b, 0);
    assert_eq!(registers.c, 0);
    assert_eq!(registers.d, 0);
    assert_eq!(registers.e, 0);
    assert_eq!(registers.h, 0);
    assert_eq!(registers.l, 0);
    assert_eq!(registers.sp, 0);
    assert_eq!(registers.pc, 0);
}

#[test]
fn test_16bit_register_pair_af() {
    let mut registers = Registers::new();
    registers.a = 0x12;
    registers.f = 0x30;
    assert_eq!(registers.af(), 0x1230);
}

#[test]
fn test_16bit_register_pair_bc() {
    let mut registers = Registers::new();
    registers.b = 0xAB;
    registers.c = 0xCD;
    assert_eq!(registers.bc(), 0xABCD);
}

#[test]
fn test_16bit_register_pair_de() {
    let mut registers = Registers::new();
    registers.d = 0x11;
    registers.e = 0x22;
    assert_eq!(registers.de(), 0x1122);
}

#[test]
fn test_16bit_register_pair_hl() {
    let mut registers = Registers::new();
    registers.h = 0xFF;
    registers.l = 0x00;
    assert_eq!(registers.hl(), 0xFF00);
}

#[test]
fn test_set_16bit_register_pair_af() {
    let mut registers = Registers::new();
    registers.set_af(0x34F0); // Only upper 4 bits of F should be set
    assert_eq!(registers.a, 0x34);
    assert_eq!(registers.f, 0xF0); //Will always mask lower 4 bits to 0
}

#[test]
fn test_set_af_masks_lower_4_bits() {
    let mut registers = Registers::new();
    registers.set_af(0x12FF); // Try to set all bits in F. The lower 4 should be masked.
    assert_eq!(registers.a, 0x12);
    assert_eq!(registers.f, 0xF0); // Lower 4 bits should be masked to 0
}

#[test]
fn test_set_16bit_register_pair_bc() {
    let mut registers = Registers::new();
    registers.set_bc(0x1234);
    assert_eq!(registers.b, 0x12);
    assert_eq!(registers.c, 0x34);
    assert_eq!(registers.bc(), 0x1234);
}

#[test]
fn test_set_16bit_register_pair_de() {
    let mut registers = Registers::new();
    registers.set_de(0x5678);
    assert_eq!(registers.d, 0x56);
    assert_eq!(registers.e, 0x78);
}

#[test]
fn test_set_16bit_register_pair_hl() {
    let mut registers = Registers::new();
    registers.set_hl(0xABCD);
    assert_eq!(registers.h, 0xAB);
    assert_eq!(registers.l, 0xCD);
}

#[test]
fn test_pair_round_trip_de_hl() {
    let mut registers = Registers::new();
    registers.set_de(0x9ABC);
    assert_eq!(registers.de(), 0x9ABC);
    registers.set_hl(0xDEF0);
    assert_eq!(registers.hl(), 0xDEF0);
}

#[test]
fn test_pair_round_trip_extremes() {
    let mut registers = Registers::new();
    registers.set_bc(0x0000);
    assert_eq!(registers.bc(), 0x0000);
    assert_eq!(registers.b, 0x00);
    assert_eq!(registers.c, 0x00);
    registers.set_bc(0xFFFF);
    assert_eq!(registers.bc(), 0xFFFF);
    assert_eq!(registers.b, 0xFF);
    assert_eq!(registers.c, 0xFF);
}

#[test]
fn test_af_round_trip_masks_low_nibble() {
    let mut registers = Registers::new();
    registers.set_af(0xABCD);
    assert_eq!(registers.af(), (0xABCD & 0xFF00) | (0xABCD & 0x00F0));
    assert_eq!(registers.af(), 0xABC0);
    registers.set_af(0xFFFF);
    assert_eq!(registers.a, 0xFF);
    assert_eq!(registers.f, 0xF0);
    assert_eq!(registers.af(), 0xFFF0);
    registers.set_af(0x0000);
    assert_eq!(registers.af(), 0x0000);
}

#[test]
fn test_set_pair_leaves_other_registers() {
    let mut registers = Registers::new();
    registers.set_bc(0x1234);
    registers.set_de(0x5678);
    registers.set_hl(0x9ABC);
    assert_eq!(registers.bc(), 0x1234);
    assert_eq!(registers.de(), 0x5678);
    assert_eq!(registers.hl(), 0x9ABC);
    assert_eq!(registers.a, 0);
    assert_eq!(registers.f, 0);
    assert_eq!(registers.sp, 0);
    assert_eq!(registers.pc, 0);
}
