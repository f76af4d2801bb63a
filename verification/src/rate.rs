//! The output data rates of the device and their three-bit codes.
use vstd::prelude::*;

verus! {

/// An output data rate. `Invalid` stands for a code that names no rate: it
/// comes out of decoding and cannot be programmed.
#[derive(Copy, Clone, Debug, PartialEq, Eq, Structural)]
pub enum DataRate {
    Hz_800,
    Hz_400,
    Hz_200,
    Hz_100,
    Hz_50,
    Hz_10,
    PowerDown,
    Invalid,
}

impl DataRate {
    /// The code of the rate in the rate field; `0xff` for `Invalid`.
    pub open spec fn spec_bits(self) -> u8 {
        match self {
            DataRate::Hz_800 => 0b110,
            DataRate::Hz_400 => 0b101,
            DataRate::Hz_200 => 0b100,
            DataRate::Hz_100 => 0b011,
            DataRate::Hz_50 => 0b010,
            DataRate::Hz_10 => 0b001,
            DataRate::PowerDown => 0b000,
            DataRate::Invalid => 0xff,
        }
    }

    /// The rate that a code stands for; `Invalid` for every code above `0b110`.
    pub open spec fn spec_from(value: u8) -> DataRate {
        if value == 0b110 {
            DataRate::Hz_800
        } else if value == 0b101 {
            DataRate::Hz_400
        } else if value == 0b100 {
            DataRate::Hz_200
        } else if value == 0b011 {
            DataRate::Hz_100
        } else if value == 0b010 {
            DataRate::Hz_50
        } else if value == 0b001 {
            DataRate::Hz_10
        } else if value == 0b000 {
            DataRate::PowerDown
        } else {
            DataRate::Invalid
        }
    }

    /// The code of the rate in the rate field; `0xff` for `Invalid`.
    #[verifier::when_used_as_spec(spec_bits)]
    pub fn bits(self) -> (code: u8)
        ensures
            code == self.spec_bits(),
    {
        match self {
            DataRate::Hz_800 => 0b110,
            DataRate::Hz_400 => 0b101,
            DataRate::Hz_200 => 0b100,
            DataRate::Hz_100 => 0b011,
            DataRate::Hz_50 => 0b010,
            DataRate::Hz_10 => 0b001,
            DataRate::PowerDown => 0b000,
            DataRate::Invalid => 0xff,
        }
    }

    /// Decodes a code of the rate field. Total: a code that names no rate
    /// gives `Invalid`.
    #[verifier::when_used_as_spec(spec_from)]
    pub fn from(value: u8) -> (rate: DataRate)
        ensures
            rate == DataRate::spec_from(value),
            value > 0b110 ==> rate == DataRate::Invalid,
            rate != DataRate::Invalid ==> rate.spec_bits() == value,
    {
        match value {
            0b110 => DataRate::Hz_800,
            0b101 => DataRate::Hz_400,
            0b100 => DataRate::Hz_200,
            0b011 => DataRate::Hz_100,
            0b010 => DataRate::Hz_50,
            0b001 => DataRate::Hz_10,
            0b000 => DataRate::PowerDown,
            _ => DataRate::Invalid,
        }
    }
}

/// The control byte `ctrl1` with its rate field, the high nibble, replaced by
/// the code of `rate`; the low nibble stays.
pub open spec fn spec_with_rate(ctrl1: u8, rate: DataRate) -> u8 {
    (ctrl1 & 0x0f) | (rate.spec_bits() << 4)
}

/// The rate that the high nibble of the control byte `ctrl1` names.
pub open spec fn spec_rate_in(ctrl1: u8) -> DataRate {
    DataRate::spec_from((ctrl1 >> 4) & 0x0f)
}

/// Replaces the rate field of the control byte `ctrl1` by the code of `rate`.
#[verifier::when_used_as_spec(spec_with_rate)]
pub fn with_rate(ctrl1: u8, rate: DataRate) -> (byte: u8)
    ensures
        byte == spec_with_rate(ctrl1, rate),
{
    (ctrl1 & 0x0f) | (rate.bits() << 4)
}

/// Decodes the rate field of the control byte `ctrl1`.
#[verifier::when_used_as_spec(spec_rate_in)]
pub fn rate_in(ctrl1: u8) -> (rate: DataRate)
    ensures
        rate == spec_rate_in(ctrl1),
{
    DataRate::from((ctrl1 >> 4) & 0x0f)
}

/// Every rate but `Invalid` comes back from its own code, and that code fits
/// in three bits.
pub proof fn lemma_bits_round_trip(rate: DataRate)
    requires
        rate != DataRate::Invalid,
    ensures
        DataRate::spec_from(rate.spec_bits()) == rate,
        rate.spec_bits() <= 0b110,
{
}

/// A code decodes to `Invalid` exactly when it lies above `0b110`, and
/// `Invalid` never decodes from its own code's rate field.
pub proof fn lemma_unknown_code_is_invalid(value: u8)
    ensures
        DataRate::spec_from(value) == DataRate::Invalid <==> value > 0b110,
        DataRate::spec_from(DataRate::Invalid.spec_bits()) == DataRate::Invalid,
{
}

/// Writing a rate into a control byte leaves the low nibble as it was, and a
/// rate other than `Invalid` is read back from the byte that was written.
pub proof fn lemma_with_rate(ctrl1: u8, rate: DataRate)
    ensures
        spec_with_rate(ctrl1, rate) & 0x0f == ctrl1 & 0x0f,
        rate != DataRate::Invalid ==> spec_rate_in(spec_with_rate(ctrl1, rate)) == rate,
        rate != DataRate::Invalid ==> spec_with_rate(ctrl1, rate) >> 4 == rate.spec_bits(),
{
    let code = rate.spec_bits();
    assert(((ctrl1 & 0x0f) | (code << 4)) & 0x0f == ctrl1 & 0x0f) by (bit_vector);
    if rate != DataRate::Invalid {
        assert((((ctrl1 & 0x0f) | (code << 4)) >> 4) & 0x0f == code) by (bit_vector)
            requires
                code <= 0b110,
        ;
        assert(((ctrl1 & 0x0f) | (code << 4)) >> 4 == code) by (bit_vector)
            requires
                code <= 0b110,
        ;
    }
}

} // verus!
