use gb_cpu::flags::{
    FlagsRegister, CARRY_FLAG_BYTE_POSITION, HALF_CARRY_FLAG_BYTE_POSITION,
    SUBTRACT_FLAG_BYTE_POSITION, ZERO_FLAG_BYTE_POSITION,
};
use gb_cpu::registers::Registers;

fn all_flag_sets() -> Vec<FlagsRegister> {
    let mut sets = Vec::new();
    for zero in [false, true] {
        for subtract in [false, true] {
            for half_carry in [false, true] {
                for carry in [false, true] {
                    sets.push(FlagsRegister { zero, subtract, half_carry, carry });
                }
            }
        }
    }
    sets
}

#[test]
fn flag_positions_fill_the_high_nibble() {
    assert_eq!(ZERO_FLAG_BYTE_POSITION, 7);
    assert_eq!(SUBTRACT_FLAG_BYTE_POSITION, 6);
    assert_eq!(HALF_CARRY_FLAG_BYTE_POSITION, 5);
    assert_eq!(CARRY_FLAG_BYTE_POSITION, 4);
}

#[test]
fn decode_reads_bits_seven_to_four() {
    let flags = FlagsRegister::decode(0xB0);
    assert_eq!(
        flags,
        FlagsRegister { zero: true, subtract: false, half_carry: true, carry: true }
    );
    let flags = FlagsRegister::decode(0xE0);
    assert_eq!(
        flags,
        FlagsRegister { zero: true, subtract: true, half_carry: true, carry: false }
    );
}

#[test]
fn encode_zero_and_half_carry() {
    let flags = FlagsRegister { zero: true, subtract: false, half_carry: true, carry: false };
    assert_eq!(flags.encode(), 0xA0);
}

#[test]
fn each_flag_has_its_own_bit() {
    let none = FlagsRegister { zero: false, subtract: false, half_carry: false, carry: false };
    assert_eq!(none.encode(), 0x00);
    assert_eq!(FlagsRegister { zero: true, ..none }.encode(), 0x80);
    assert_eq!(FlagsRegister { subtract: true, ..none }.encode(), 0x40);
    assert_eq!(FlagsRegister { half_carry: true, ..none }.encode(), 0x20);
    assert_eq!(FlagsRegister { carry: true, ..none }.encode(), 0x10);
    let all = FlagsRegister { zero: true, subtract: true, half_carry: true, carry: true };
    assert_eq!(all.encode(), 0xF0);

    assert_eq!(FlagsRegister::decode(0x00), none);
    assert_eq!(FlagsRegister::decode(0x80), FlagsRegister { zero: true, ..none });
    assert_eq!(FlagsRegister::decode(0x40), FlagsRegister { subtract: true, ..none });
    assert_eq!(FlagsRegister::decode(0x20), FlagsRegister { half_carry: true, ..none });
    assert_eq!(FlagsRegister::decode(0x10), FlagsRegister { carry: true, ..none });
    assert_eq!(FlagsRegister::decode(0xF0), all);
}

#[test]
fn decode_undoes_encode_for_every_flag_set() {
    let sets = all_flag_sets();
    assert_eq!(sets.len(), 16);
    for flags in sets {
        assert_eq!(FlagsRegister::decode(flags.encode()), flags);
    }
}

#[test]
fn encode_undoes_decode_where_the_low_nibble_is_zero() {
    for high in 0..16u8 {
        let byte = high << 4;
        assert_eq!(FlagsRegister::decode(byte).encode(), byte);
    }
}

#[test]
fn encode_after_decode_clears_the_low_nibble() {
    for byte in 0..=u8::MAX {
        let again = FlagsRegister::decode(byte).encode();
        assert_eq!(again & 0x0F, 0);
        assert_eq!(again, byte & 0xF0);
    }
}

#[test]
fn encode_never_sets_a_low_bit() {
    for flags in all_flag_sets() {
        assert_eq!(flags.encode() & 0x0F, 0);
    }
}

#[test]
fn decode_ignores_the_low_nibble() {
    for byte in 0..=u8::MAX {
        assert_eq!(FlagsRegister::decode(byte), FlagsRegister::decode(byte & 0xF0));
    }
    assert_eq!(
        FlagsRegister::decode(0x0F),
        FlagsRegister { zero: false, subtract: false, half_carry: false, carry: false }
    );
    assert_eq!(
        FlagsRegister::decode(0xBF),
        FlagsRegister { zero: true, subtract: false, half_carry: true, carry: true }
    );
}

#[test]
fn encode_differs_from_decode_input_where_low_bits_are_set() {
    assert_eq!(FlagsRegister::decode(0xA7).encode(), 0xA0);
    assert_eq!(FlagsRegister::decode(0x01).encode(), 0x00);
}

#[test]
fn conversions_agree_with_encode_and_decode() {
    for byte in 0..=u8::MAX {
        let flags = FlagsRegister::from(byte);
        assert_eq!(flags, FlagsRegister::decode(byte));
        assert_eq!(u8::from(flags), flags.encode());
        let through_into: FlagsRegister = byte.into();
        assert_eq!(through_into, flags);
        let back: u8 = flags.into();
        assert_eq!(back, byte & 0xF0);
    }
    let flags = FlagsRegister { zero: false, subtract: true, half_carry: false, carry: true };
    assert_eq!(u8::from(flags), 0x50);
    assert_eq!(
        FlagsRegister::from(0x90u8),
        FlagsRegister { zero: true, subtract: false, half_carry: false, carry: true }
    );
}

#[test]
fn flags_travel_through_the_f_register() {
    let flags = FlagsRegister { zero: true, subtract: true, half_carry: false, carry: true };
    let mut registers = Registers::new();
    registers.a = 0x42;
    registers.f = flags.encode();
    assert_eq!(registers.get_af(), 0x42D0);
    assert_eq!(FlagsRegister::decode(registers.f), flags);

    registers.set_af(0x00B7);
    assert_eq!(
        FlagsRegister::decode(registers.f),
        FlagsRegister { zero: true, subtract: false, half_carry: true, carry: true }
    );
    assert_eq!(registers.f, 0xB7);
}
