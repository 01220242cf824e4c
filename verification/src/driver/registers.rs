//! The register map of the device.
#![allow(non_camel_case_types)]

pub mod access;
pub mod addressable;
pub mod bits;
pub mod data;
pub mod value;

use vstd::prelude::*;

use self::addressable::Address;
use self::addressable::Addressable;

verus! {

/// The registers of the device.
#[derive(Clone, Copy, Debug, PartialEq, Eq, Structural)]
pub enum Register {
    /// ID control register, address `00h`.
    ID,
    /// Configuration register 1, address `01h`, `06h` after reset.
    CONFIG1,
    /// Configuration register 2, address `02h`, `40h` after reset.
    CONFIG2,
    /// Configuration register 3, address `03h`, `40h` after reset.
    CONFIG3,
    /// Lead-off control register, address `04h`.
    LOFF,
    /// Settings of channel 1, address `05h`.
    CH1SET,
    /// Settings of channel 2, address `06h`.
    CH2SET,
    /// Settings of channel 3, address `07h`.
    CH3SET,
    /// Settings of channel 4, address `08h`.
    CH4SET,
    /// Settings of channel 5, address `09h`.
    CH5SET,
    /// Settings of channel 6, address `0Ah`.
    CH6SET,
    /// Settings of channel 7, address `0Bh`.
    CH7SET,
    /// Settings of channel 8, address `0Ch`.
    CH8SET,
    /// Derivation of the right-leg drive from the positive inputs, address `0Dh`.
    RLD_SENSP,
    /// Derivation of the right-leg drive from the negative inputs, address `0Eh`.
    RLD_SENSN,
    /// Lead-off detection on the positive inputs, address `0Fh`.
    LOFF_SENSP,
    /// Lead-off detection on the negative inputs, address `10h`.
    LOFF_SENSN,
    /// Lead-off flip register, address `11h`.
    LOFF_FLIP,
    /// Lead-off status of the positive inputs, address `12h`.
    LOFF_STATP,
    /// Lead-off status of the negative inputs, address `13h`.
    LOFF_STATN,
    /// General-purpose I/O register, address `14h`, `0Fh` after reset.
    GPIO,
    /// Pace detection register, address `15h`.
    PACE,
    /// Respiration control register, address `16h`.
    RESP,
    /// Configuration register 4, address `17h`.
    CONFIG4,
    /// Wilson central terminal and augmented leads, address `18h`.
    WCT1,
    /// Wilson central terminal, address `19h`.
    WCT2,
}

impl Addressable for Register {
    open spec fn address(&self) -> Address {
        match *self {
            Register::ID => 0x00,
            Register::CONFIG1 => 0x01,
            Register::CONFIG2 => 0x02,
            Register::CONFIG3 => 0x03,
            Register::LOFF => 0x04,
            Register::CH1SET => 0x05,
            Register::CH2SET => 0x06,
            Register::CH3SET => 0x07,
            Register::CH4SET => 0x08,
            Register::CH5SET => 0x09,
            Register::CH6SET => 0x0a,
            Register::CH7SET => 0x0b,
            Register::CH8SET => 0x0c,
            Register::RLD_SENSP => 0x0d,
            Register::RLD_SENSN => 0x0e,
            Register::LOFF_SENSP => 0x0f,
            Register::LOFF_SENSN => 0x10,
            Register::LOFF_FLIP => 0x11,
            Register::LOFF_STATP => 0x12,
            Register::LOFF_STATN => 0x13,
            Register::GPIO => 0x14,
            Register::PACE => 0x15,
            Register::RESP => 0x16,
            Register::CONFIG4 => 0x17,
            Register::WCT1 => 0x18,
            Register::WCT2 => 0x19,
        }
    }

    proof fn lemma_address_in_map(&self) {
    }

    fn get_address(&self) -> (a: Address) {
        match *self {
            Register::ID => 0x00,
            Register::CONFIG1 => 0x01,
            Register::CONFIG2 => 0x02,
            Register::CONFIG3 => 0x03,
            Register::LOFF => 0x04,
            Register::CH1SET => 0x05,
            Register::CH2SET => 0x06,
            Register::CH3SET => 0x07,
            Register::CH4SET => 0x08,
            Register::CH5SET => 0x09,
            Register::CH6SET => 0x0a,
            Register::CH7SET => 0x0b,
            Register::CH8SET => 0x0c,
            Register::RLD_SENSP => 0x0d,
            Register::RLD_SENSN => 0x0e,
            Register::LOFF_SENSP => 0x0f,
            Register::LOFF_SENSN => 0x10,
            Register::LOFF_FLIP => 0x11,
            Register::LOFF_STATP => 0x12,
            Register::LOFF_STATN => 0x13,
            Register::GPIO => 0x14,
            Register::PACE => 0x15,
            Register::RESP => 0x16,
            Register::CONFIG4 => 0x17,
            Register::WCT1 => 0x18,
            Register::WCT2 => 0x19,
        }
    }
}

/// A 24-bit unsigned integer: one sample as the device sends it.
#[derive(Clone, Copy, Debug, PartialEq, Eq, Structural)]
pub struct U24 {
    value: u32,
}

impl U24 {
    #[verifier::type_invariant]
    spec fn in_range(self) -> bool {
        self.value <= 0xff_ffff
    }

    /// The number that `self` stands for.
    pub closed spec fn view(self) -> u32 {
        self.value
    }

    /// Whether the number fits in 24 bits. Every `U24` that a program holds
    /// does.
    pub open spec fn valid(self) -> bool {
        self@ <= 0xff_ffff
    }

    /// The sample as a signed number: the 24 bits read as two's complement.
    pub open spec fn signed(self) -> int {
        if self@ >= 0x80_0000 {
            self@ - 0x100_0000
        } else {
            self@ as int
        }
    }

    pub fn new(value: u32) -> (r: U24)
        requires
            value <= 0xff_ffff,
        ensures
            r@ == value,
            r.valid(),
    {
        U24 { value }
    }

    pub fn value(self) -> (r: u32)
        ensures
            r == self@,
            r <= 0xff_ffff,
    {
        proof {
            use_type_invariant(self);
        }
        self.value
    }

    /// The sample as a signed number.
    pub fn to_signed(self) -> (r: i32)
        ensures
            r == self.signed(),
            -0x80_0000 <= r < 0x80_0000,
    {
        proof {
            use_type_invariant(self);
        }
        if self.value >= 0x80_0000 {
            (self.value as i32) - 0x100_0000
        } else {
            self.value as i32
        }
    }
}

/// What a field of a frame of data holds.
pub enum DataValue {
    /// The whole status word, byte by byte.
    Status(u8, u8, u8),
    /// The first byte of the status word.
    Status1(u8),
    /// The second byte of the status word.
    Status2(u8),
    /// The third byte of the status word.
    Status3(u8),
    /// The sample of the channel with this number, 1 to 8.
    Channel { channel: nat, sample: u32 },
}

impl DataValue {
    /// The number of bytes that the field takes in a frame.
    pub open spec fn width(self) -> nat {
        match self {
            DataValue::Status1(_) => 1,
            DataValue::Status2(_) => 1,
            DataValue::Status3(_) => 1,
            DataValue::Status(_, _, _) => 3,
            DataValue::Channel { .. } => 3,
        }
    }
}

/// The fields of a frame of data.
#[derive(Clone, Copy, Debug, PartialEq, Eq, Structural)]
pub enum DataRegister {
    DATA_STATUS(data::DataStatus),
    DATA_STATUS_1(data::DataStatus1),
    DATA_STATUS_2(data::DataStatus2),
    DATA_STATUS_3(data::DataStatus3),
    DATA_CH1(U24),
    DATA_CH2(U24),
    DATA_CH3(U24),
    DATA_CH4(U24),
    DATA_CH5(U24),
    DATA_CH6(U24),
    DATA_CH7(U24),
    DATA_CH8(U24),
}

impl View for DataRegister {
    type V = DataValue;

    open spec fn view(&self) -> DataValue {
        match *self {
            DataRegister::DATA_STATUS(s) => DataValue::Status(s.ds1.0, s.ds2.0, s.ds3.0),
            DataRegister::DATA_STATUS_1(s) => DataValue::Status1(s.0),
            DataRegister::DATA_STATUS_2(s) => DataValue::Status2(s.0),
            DataRegister::DATA_STATUS_3(s) => DataValue::Status3(s.0),
            DataRegister::DATA_CH1(v) => DataValue::Channel { channel: 1, sample: v@ },
            DataRegister::DATA_CH2(v) => DataValue::Channel { channel: 2, sample: v@ },
            DataRegister::DATA_CH3(v) => DataValue::Channel { channel: 3, sample: v@ },
            DataRegister::DATA_CH4(v) => DataValue::Channel { channel: 4, sample: v@ },
            DataRegister::DATA_CH5(v) => DataValue::Channel { channel: 5, sample: v@ },
            DataRegister::DATA_CH6(v) => DataValue::Channel { channel: 6, sample: v@ },
            DataRegister::DATA_CH7(v) => DataValue::Channel { channel: 7, sample: v@ },
            DataRegister::DATA_CH8(v) => DataValue::Channel { channel: 8, sample: v@ },
        }
    }
}

impl DataRegister {
    /// The number of bytes that the field takes in a frame.
    pub fn width(&self) -> (w: usize)
        ensures
            w == self@.width(),
    {
        match self {
            DataRegister::DATA_STATUS_1(_) => 1,
            DataRegister::DATA_STATUS_2(_) => 1,
            DataRegister::DATA_STATUS_3(_) => 1,
            _ => 3,
        }
    }
}

/// No two registers share an address.
pub proof fn lemma_addresses_differ(a: Register, b: Register)
    requires
        a != b,
    ensures
        a.address() != b.address(),
{
}

} // verus!
