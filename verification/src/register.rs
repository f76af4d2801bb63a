//! The register map of the device: every addressable register with its fixed
//! address and whether the hardware lets it be written.
use vstd::prelude::*;

verus! {

/// A register of the device.
#[derive(Copy, Clone, Debug, PartialEq, Eq, Structural)]
pub enum Register {
    TEMP_L,
    TEMP_H,
    WHOAMI,
    ACT_THS,
    ACT_DUR,
    CTRL1,
    CTRL2,
    CTRL3,
    CTRL4,
    CTRL5,
    CTRL6,
    CTRL7,
    STATUS,
    OUT_X_L,
    OUT_X_H,
    OUT_Y_L,
    OUT_Y_H,
    OUT_Z_L,
    OUT_Z_H,
    FIFO_CTRL,
    FIFO_SRC,
    INT1_CFG,
    INT1_SRC,
    INT1_THS_X,
    INT1_THS_Y,
    INT2_THS_Z,
    INT1_DUR,
    INT2_CFG,
    INT2_SRC,
    INT2_THS,
    INT2_DUR,
    XL_REF,
    XH_REF,
    YL_REF,
    YH_REF,
    ZL_REF,
    ZH_REF,
}

impl Register {
    /// The address of the register on the device.
    pub open spec fn spec_addr(self) -> u8 {
        match self {
            Register::TEMP_L => 0x0B,
            Register::TEMP_H => 0x0C,
            Register::WHOAMI => 0x0F,
            Register::ACT_THS => 0x1E,
            Register::ACT_DUR => 0x1F,
            Register::CTRL1 => 0x20,
            Register::CTRL2 => 0x21,
            Register::CTRL3 => 0x22,
            Register::CTRL4 => 0x23,
            Register::CTRL5 => 0x24,
            Register::CTRL6 => 0x25,
            Register::CTRL7 => 0x26,
            Register::STATUS => 0x27,
            Register::OUT_X_L => 0x28,
            Register::OUT_X_H => 0x29,
            Register::OUT_Y_L => 0x2A,
            Register::OUT_Y_H => 0x2B,
            Register::OUT_Z_L => 0x2C,
            Register::OUT_Z_H => 0x2D,
            Register::FIFO_CTRL => 0x2E,
            Register::FIFO_SRC => 0x2F,
            Register::INT1_CFG => 0x30,
            Register::INT1_SRC => 0x31,
            Register::INT1_THS_X => 0x32,
            Register::INT1_THS_Y => 0x33,
            Register::INT2_THS_Z => 0x34,
            Register::INT1_DUR => 0x35,
            Register::INT2_CFG => 0x36,
            Register::INT2_SRC => 0x37,
            Register::INT2_THS => 0x38,
            Register::INT2_DUR => 0x39,
            Register::XL_REF => 0x3A,
            Register::XH_REF => 0x3B,
            Register::YL_REF => 0x3C,
            Register::YH_REF => 0x3D,
            Register::ZL_REF => 0x3E,
            Register::ZH_REF => 0x3F,
        }
    }

    /// Whether the hardware refuses writes to the register: the temperature
    /// bytes, the identity, the status, the six output bytes and the three
    /// source registers.
    pub open spec fn spec_read_only(self) -> bool {
        ||| self == Register::TEMP_L
        ||| self == Register::TEMP_H
        ||| self == Register::WHOAMI
        ||| self == Register::STATUS
        ||| 0x28 <= self.spec_addr() <= 0x2D
        ||| self == Register::FIFO_SRC
        ||| self == Register::INT1_SRC
        ||| self == Register::INT2_SRC
    }

    /// The address of the register on the device.
    #[verifier::when_used_as_spec(spec_addr)]
    pub fn addr(self) -> (a: u8)
        ensures
            a == self.spec_addr(),
    {
        match self {
            Register::TEMP_L => 0x0B,
            Register::TEMP_H => 0x0C,
            Register::WHOAMI => 0x0F,
            Register::ACT_THS => 0x1E,
            Register::ACT_DUR => 0x1F,
            Register::CTRL1 => 0x20,
            Register::CTRL2 => 0x21,
            Register::CTRL3 => 0x22,
            Register::CTRL4 => 0x23,
            Register::CTRL5 => 0x24,
            Register::CTRL6 => 0x25,
            Register::CTRL7 => 0x26,
            Register::STATUS => 0x27,
            Register::OUT_X_L => 0x28,
            Register::OUT_X_H => 0x29,
            Register::OUT_Y_L => 0x2A,
            Register::OUT_Y_H => 0x2B,
            Register::OUT_Z_L => 0x2C,
            Register::OUT_Z_H => 0x2D,
            Register::FIFO_CTRL => 0x2E,
            Register::FIFO_SRC => 0x2F,
            Register::INT1_CFG => 0x30,
            Register::INT1_SRC => 0x31,
            Register::INT1_THS_X => 0x32,
            Register::INT1_THS_Y => 0x33,
            Register::INT2_THS_Z => 0x34,
            Register::INT1_DUR => 0x35,
            Register::INT2_CFG => 0x36,
            Register::INT2_SRC => 0x37,
            Register::INT2_THS => 0x38,
            Register::INT2_DUR => 0x39,
            Register::XL_REF => 0x3A,
            Register::XH_REF => 0x3B,
            Register::YL_REF => 0x3C,
            Register::YH_REF => 0x3D,
            Register::ZL_REF => 0x3E,
            Register::ZH_REF => 0x3F,
        }
    }

    /// Whether the hardware refuses writes to the register.
    #[verifier::when_used_as_spec(spec_read_only)]
    pub fn read_only(self) -> (ro: bool)
        ensures
            ro == self.spec_read_only(),
    {
        match self {
            Register::TEMP_L
            | Register::TEMP_H
            | Register::WHOAMI
            | Register::STATUS
            | Register::OUT_X_L
            | Register::OUT_X_H
            | Register::OUT_Y_L
            | Register::OUT_Y_H
            | Register::OUT_Z_L
            | Register::OUT_Z_H
            | Register::FIFO_SRC
            | Register::INT1_SRC
            | Register::INT2_SRC => true,
            _ => false,
        }
    }
}

/// No two registers share an address, and every address lies in the device's
/// seven-bit register space.
pub proof fn lemma_addr_injective(a: Register, b: Register)
    ensures
        a.spec_addr() == b.spec_addr() <==> a == b,
        0x0B <= a.spec_addr() <= 0x3F,
{
}

} // verus!
