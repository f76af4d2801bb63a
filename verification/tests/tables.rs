use lis2hh12::rate::{rate_in, with_rate};
use lis2hh12::sample::{decode_sample, i16_from_le};
use lis2hh12::{DataRate, Register};

const ALL: [(Register, u8, bool); 37] = [
    (Register::TEMP_L, 0x0B, true),
    (Register::TEMP_H, 0x0C, true),
    (Register::WHOAMI, 0x0F, true),
    (Register::ACT_THS, 0x1E, false),
    (Register::ACT_DUR, 0x1F, false),
    (Register::CTRL1, 0x20, false),
    (Register::CTRL2, 0x21, false),
    (Register::CTRL3, 0x22, false),
    (Register::CTRL4, 0x23, false),
    (Register::CTRL5, 0x24, false),
    (Register::CTRL6, 0x25, false),
    (Register::CTRL7, 0x26, false),
    (Register::STATUS, 0x27, true),
    (Register::OUT_X_L, 0x28, true),
    (Register::OUT_X_H, 0x29, true),
    (Register::OUT_Y_L, 0x2A, true),
    (Register::OUT_Y_H, 0x2B, true),
    (Register::OUT_Z_L, 0x2C, true),
    (Register::OUT_Z_H, 0x2D, true),
    (Register::FIFO_CTRL, 0x2E, false),
    (Register::FIFO_SRC, 0x2F, true),
    (Register::INT1_CFG, 0x30, false),
    (Register::INT1_SRC, 0x31, true),
    (Register::INT1_THS_X, 0x32, false),
    (Register::INT1_THS_Y, 0x33, false),
    (Register::INT2_THS_Z, 0x34, false),
    (Register::INT1_DUR, 0x35, false),
    (Register::INT2_CFG, 0x36, false),
    (Register::INT2_SRC, 0x37, true),
    (Register::INT2_THS, 0x38, false),
    (Register::INT2_DUR, 0x39, false),
    (Register::XL_REF, 0x3A, false),
    (Register::XH_REF, 0x3B, false),
    (Register::YL_REF, 0x3C, false),
    (Register::YH_REF, 0x3D, false),
    (Register::ZL_REF, 0x3E, false),
    (Register::ZH_REF, 0x3F, false),
];

const RATES: [(DataRate, u8); 7] = [
    (DataRate::Hz_800, 0b110),
    (DataRate::Hz_400, 0b101),
    (DataRate::Hz_200, 0b100),
    (DataRate::Hz_100, 0b011),
    (DataRate::Hz_50, 0b010),
    (DataRate::Hz_10, 0b001),
    (DataRate::PowerDown, 0b000),
];

#[test]
fn every_register_has_its_address() {
    for (register, address, _) in ALL {
        assert_eq!(register.addr(), address, "{:?}", register);
    }
}

#[test]
fn every_register_has_its_class() {
    for (register, _, read_only) in ALL {
        assert_eq!(register.read_only(), read_only, "{:?}", register);
    }
    assert_eq!(ALL.iter().filter(|r| r.0.read_only()).count(), 13);
}

#[test]
fn no_two_registers_share_an_address() {
    for (i, a) in ALL.iter().enumerate() {
        for b in ALL.iter().skip(i + 1) {
            assert_ne!(a.0.addr(), b.0.addr());
            assert_ne!(a.0, b.0);
        }
    }
}

#[test]
fn every_rate_has_its_code() {
    for (rate, code) in RATES {
        assert_eq!(rate.bits(), code);
    }
    assert_eq!(DataRate::Invalid.bits(), 0xFF);
}

#[test]
fn every_rate_comes_back_from_its_code() {
    for (rate, _) in RATES {
        assert_eq!(DataRate::from(rate.bits()), rate);
    }
}

#[test]
fn every_other_code_is_invalid() {
    for code in 7..=255u8 {
        assert_eq!(DataRate::from(code), DataRate::Invalid);
    }
    assert_eq!(DataRate::from(0b111), DataRate::Invalid);
    assert_eq!(DataRate::from(DataRate::Invalid.bits()), DataRate::Invalid);
}

#[test]
fn with_rate_replaces_the_high_nibble_only() {
    assert_eq!(with_rate(0b1010_0111, DataRate::Hz_400), 0b0101_0111);
    assert_eq!(with_rate(0x07, DataRate::Hz_800), 0x67);
    assert_eq!(with_rate(0xFF, DataRate::PowerDown), 0x0F);
    for ctrl1 in 0..=255u8 {
        for (rate, code) in RATES {
            let byte = with_rate(ctrl1, rate);
            assert_eq!(byte & 0x0F, ctrl1 & 0x0F);
            assert_eq!(byte >> 4, code);
            assert_eq!(rate_in(byte), rate);
        }
    }
}

#[test]
fn rate_in_reads_the_high_nibble() {
    assert_eq!(rate_in(0x57), DataRate::Hz_400);
    assert_eq!(rate_in(0x0F), DataRate::PowerDown);
    assert_eq!(rate_in(0x6A), DataRate::Hz_800);
    assert_eq!(rate_in(0x7A), DataRate::Invalid);
    assert_eq!(rate_in(0xF0), DataRate::Invalid);
}

#[test]
fn decode_sample_is_little_endian_and_signed() {
    assert_eq!(decode_sample(&[0x01, 0x00, 0x02, 0x00, 0xFF, 0xFF]), (1, 2, -1));
    assert_eq!(decode_sample(&[0x34, 0x12, 0x00, 0x80, 0xFF, 0x7F]), (0x1234, -32768, 32767));
    assert_eq!(decode_sample(&[0, 0, 0, 1, 1, 0]), (0, 256, 1));
}

#[test]
fn i16_from_le_agrees_with_the_standard_library() {
    for lo in 0..=255u8 {
        for hi in 0..=255u8 {
            assert_eq!(i16_from_le(lo, hi), i16::from_le_bytes([lo, hi]));
        }
    }
}
