use chip8::registers::{RegisterFile, REGISTER_COUNT};

#[test]
fn new_register_file_is_zero_with_the_counter_at_the_program() {
    let registers = RegisterFile::new();
    assert_eq!(REGISTER_COUNT, 16);
    assert_eq!(registers.len(), 16);
    for x in 0..16u8 {
        assert_eq!(registers.register(x), 0);
    }
    assert_eq!(registers.index(), 0x000);
    assert_eq!(registers.program_counter(), 0x200);
}

#[test]
fn registers_change_one_at_a_time() {
    let mut registers = RegisterFile::new();
    registers.set_register(0x0, 0x11);
    registers.set_register(0xF, 0xFF);
    registers.set_register(0x7, 0x77);
    for x in 0..16u8 {
        let expected = match x {
            0x0 => 0x11,
            0x7 => 0x77,
            0xF => 0xFF,
            _ => 0x00,
        };
        assert_eq!(registers.register(x), expected);
    }
    assert_eq!(registers.index(), 0x000);
    assert_eq!(registers.program_counter(), 0x200);
    registers.set_register(0x7, 0x01);
    assert_eq!(registers.register(0x7), 0x01);
    assert_eq!(registers.register(0x0), 0x11);
}

#[test]
fn index_and_counter_hold_any_sixteen_bit_value() {
    let mut registers = RegisterFile::new();
    registers.set_index(0xFFFF);
    assert_eq!(registers.index(), 0xFFFF);
    assert_eq!(registers.program_counter(), 0x200);
    registers.set_program_counter(0xABCD);
    assert_eq!(registers.program_counter(), 0xABCD);
    assert_eq!(registers.index(), 0xFFFF);
    for x in 0..16u8 {
        assert_eq!(registers.register(x), 0);
    }
}
