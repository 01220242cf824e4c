//! The registers' values: one byte each, read and written field by field.
//!
//! A value starts out as the plain byte, most often zero, and takes its fields
//! one by one; what goes to the device is the byte.

use vstd::prelude::*;

use super::bits;
use super::bits::get_bit;
use super::bits::get_bits;
use super::bits::set_bit;
use super::bits::set_bits;

verus! {

/// The status word at the head of a frame of data, byte by byte.
#[derive(Clone, Copy, Debug, PartialEq, Eq, Structural)]
pub struct DataStatus {
    pub ds1: DataStatus1,
    pub ds2: DataStatus2,
    pub ds3: DataStatus3,
}

/// First byte of the status word: the fixed prefix `1100` and the
/// lead-off status of the positive inputs 8 to 5.
#[derive(Clone, Copy, Debug, PartialEq, Eq, Structural)]
pub struct DataStatus1(pub u8);

impl DataStatus1 {
    /// Bit 0: lead-off status of input IN5P.
    pub fn in5p_off(&self) -> (r: bool)
        ensures
            r == get_bit(self.0, 0),
    {
        bits::bit(self.0, 0)
    }

    /// Sets bit 0: lead-off status of input IN5P.
    pub fn set_in5p_off(&mut self, value: bool)
        ensures
            final(self).0 == set_bit(old(self).0, 0, value),
    {
        self.0 = bits::put_bit(self.0, 0, value);
    }

    /// Bit 1: lead-off status of input IN6P.
    pub fn in6p_off(&self) -> (r: bool)
        ensures
            r == get_bit(self.0, 1),
    {
        bits::bit(self.0, 1)
    }

    /// Sets bit 1: lead-off status of input IN6P.
    pub fn set_in6p_off(&mut self, value: bool)
        ensures
            final(self).0 == set_bit(old(self).0, 1, value),
    {
        self.0 = bits::put_bit(self.0, 1, value);
    }

    /// Bit 2: lead-off status of input IN7P.
    pub fn in7p_off(&self) -> (r: bool)
        ensures
            r == get_bit(self.0, 2),
    {
        bits::bit(self.0, 2)
    }

    /// Sets bit 2: lead-off status of input IN7P.
    pub fn set_in7p_off(&mut self, value: bool)
        ensures
            final(self).0 == set_bit(old(self).0, 2, value),
    {
        self.0 = bits::put_bit(self.0, 2, value);
    }

    /// Bit 3: lead-off status of input IN8P.
    pub fn in8p_off(&self) -> (r: bool)
        ensures
            r == get_bit(self.0, 3),
    {
        bits::bit(self.0, 3)
    }

    /// Sets bit 3: lead-off status of input IN8P.
    pub fn set_in8p_off(&mut self, value: bool)
        ensures
            final(self).0 == set_bit(old(self).0, 3, value),
    {
        self.0 = bits::put_bit(self.0, 3, value);
    }

    /// Bit 4: reserved.
    pub fn prefix_4(&self) -> (r: bool)
        ensures
            r == get_bit(self.0, 4),
    {
        bits::bit(self.0, 4)
    }

    /// Sets bit 4: reserved.
    pub fn set_prefix_4(&mut self, value: bool)
        ensures
            final(self).0 == set_bit(old(self).0, 4, value),
    {
        self.0 = bits::put_bit(self.0, 4, value);
    }

    /// Bit 5: reserved.
    pub fn prefix_5(&self) -> (r: bool)
        ensures
            r == get_bit(self.0, 5),
    {
        bits::bit(self.0, 5)
    }

    /// Sets bit 5: reserved.
    pub fn set_prefix_5(&mut self, value: bool)
        ensures
            final(self).0 == set_bit(old(self).0, 5, value),
    {
        self.0 = bits::put_bit(self.0, 5, value);
    }

    /// Bit 6: reserved.
    pub fn prefix_6(&self) -> (r: bool)
        ensures
            r == get_bit(self.0, 6),
    {
        bits::bit(self.0, 6)
    }

    /// Sets bit 6: reserved.
    pub fn set_prefix_6(&mut self, value: bool)
        ensures
            final(self).0 == set_bit(old(self).0, 6, value),
    {
        self.0 = bits::put_bit(self.0, 6, value);
    }

    /// Bit 7: reserved.
    pub fn prefix_7(&self) -> (r: bool)
        ensures
            r == get_bit(self.0, 7),
    {
        bits::bit(self.0, 7)
    }

    /// Sets bit 7: reserved.
    pub fn set_prefix_7(&mut self, value: bool)
        ensures
            final(self).0 == set_bit(old(self).0, 7, value),
    {
        self.0 = bits::put_bit(self.0, 7, value);
    }
}

/// Second byte of the status word: the lead-off status of the positive
/// inputs 4 to 1 and of the negative inputs 8 to 5.
#[derive(Clone, Copy, Debug, PartialEq, Eq, Structural)]
pub struct DataStatus2(pub u8);

impl DataStatus2 {
    /// Bit 0: lead-off status of input IN5N.
    pub fn in5n_off(&self) -> (r: bool)
        ensures
            r == get_bit(self.0, 0),
    {
        bits::bit(self.0, 0)
    }

    /// Sets bit 0: lead-off status of input IN5N.
    pub fn set_in5n_off(&mut self, value: bool)
        ensures
            final(self).0 == set_bit(old(self).0, 0, value),
    {
        self.0 = bits::put_bit(self.0, 0, value);
    }

    /// Bit 1: lead-off status of input IN6N.
    pub fn in6n_off(&self) -> (r: bool)
        ensures
            r == get_bit(self.0, 1),
    {
        bits::bit(self.0, 1)
    }

    /// Sets bit 1: lead-off status of input IN6N.
    pub fn set_in6n_off(&mut self, value: bool)
        ensures
            final(self).0 == set_bit(old(self).0, 1, value),
    {
        self.0 = bits::put_bit(self.0, 1, value);
    }

    /// Bit 2: lead-off status of input IN7N.
    pub fn in7n_off(&self) -> (r: bool)
        ensures
            r == get_bit(self.0, 2),
    {
        bits::bit(self.0, 2)
    }

    /// Sets bit 2: lead-off status of input IN7N.
    pub fn set_in7n_off(&mut self, value: bool)
        ensures
            final(self).0 == set_bit(old(self).0, 2, value),
    {
        self.0 = bits::put_bit(self.0, 2, value);
    }

    /// Bit 3: lead-off status of input IN8N.
    pub fn in8n_off(&self) -> (r: bool)
        ensures
            r == get_bit(self.0, 3),
    {
        bits::bit(self.0, 3)
    }

    /// Sets bit 3: lead-off status of input IN8N.
    pub fn set_in8n_off(&mut self, value: bool)
        ensures
            final(self).0 == set_bit(old(self).0, 3, value),
    {
        self.0 = bits::put_bit(self.0, 3, value);
    }

    /// Bit 4: lead-off status of input IN1P.
    pub fn in1p_off(&self) -> (r: bool)
        ensures
            r == get_bit(self.0, 4),
    {
        bits::bit(self.0, 4)
    }

    /// Sets bit 4: lead-off status of input IN1P.
    pub fn set_in1p_off(&mut self, value: bool)
        ensures
            final(self).0 == set_bit(old(self).0, 4, value),
    {
        self.0 = bits::put_bit(self.0, 4, value);
    }

    /// Bit 5: lead-off status of input IN2P.
    pub fn in2p_off(&self) -> (r: bool)
        ensures
            r == get_bit(self.0, 5),
    {
        bits::bit(self.0, 5)
    }

    /// Sets bit 5: lead-off status of input IN2P.
    pub fn set_in2p_off(&mut self, value: bool)
        ensures
            final(self).0 == set_bit(old(self).0, 5, value),
    {
        self.0 = bits::put_bit(self.0, 5, value);
    }

    /// Bit 6: lead-off status of input IN3P.
    pub fn in3p_off(&self) -> (r: bool)
        ensures
            r == get_bit(self.0, 6),
    {
        bits::bit(self.0, 6)
    }

    /// Sets bit 6: lead-off status of input IN3P.
    pub fn set_in3p_off(&mut self, value: bool)
        ensures
            final(self).0 == set_bit(old(self).0, 6, value),
    {
        self.0 = bits::put_bit(self.0, 6, value);
    }

    /// Bit 7: lead-off status of input IN4P.
    pub fn in4p_off(&self) -> (r: bool)
        ensures
            r == get_bit(self.0, 7),
    {
        bits::bit(self.0, 7)
    }

    /// Sets bit 7: lead-off status of input IN4P.
    pub fn set_in4p_off(&mut self, value: bool)
        ensures
            final(self).0 == set_bit(old(self).0, 7, value),
    {
        self.0 = bits::put_bit(self.0, 7, value);
    }
}

/// Third byte of the status word: the lead-off status of the negative
/// inputs 4 to 1 and the GPIO data.
#[derive(Clone, Copy, Debug, PartialEq, Eq, Structural)]
pub struct DataStatus3(pub u8);

impl DataStatus3 {
    /// Bit 0: data of GPIO pin 1.
    pub fn gpiod_1(&self) -> (r: bool)
        ensures
            r == get_bit(self.0, 0),
    {
        bits::bit(self.0, 0)
    }

    /// Sets bit 0: data of GPIO pin 1.
    pub fn set_gpiod_1(&mut self, value: bool)
        ensures
            final(self).0 == set_bit(old(self).0, 0, value),
    {
        self.0 = bits::put_bit(self.0, 0, value);
    }

    /// Bit 1: data of GPIO pin 2.
    pub fn gpiod_2(&self) -> (r: bool)
        ensures
            r == get_bit(self.0, 1),
    {
        bits::bit(self.0, 1)
    }

    /// Sets bit 1: data of GPIO pin 2.
    pub fn set_gpiod_2(&mut self, value: bool)
        ensures
            final(self).0 == set_bit(old(self).0, 1, value),
    {
        self.0 = bits::put_bit(self.0, 1, value);
    }

    /// Bit 2: data of GPIO pin 3.
    pub fn gpiod_3(&self) -> (r: bool)
        ensures
            r == get_bit(self.0, 2),
    {
        bits::bit(self.0, 2)
    }

    /// Sets bit 2: data of GPIO pin 3.
    pub fn set_gpiod_3(&mut self, value: bool)
        ensures
            final(self).0 == set_bit(old(self).0, 2, value),
    {
        self.0 = bits::put_bit(self.0, 2, value);
    }

    /// Bit 3: data of GPIO pin 4.
    pub fn gpiod_4(&self) -> (r: bool)
        ensures
            r == get_bit(self.0, 3),
    {
        bits::bit(self.0, 3)
    }

    /// Sets bit 3: data of GPIO pin 4.
    pub fn set_gpiod_4(&mut self, value: bool)
        ensures
            final(self).0 == set_bit(old(self).0, 3, value),
    {
        self.0 = bits::put_bit(self.0, 3, value);
    }

    /// Bit 4: lead-off status of input IN1N.
    pub fn in1n_off(&self) -> (r: bool)
        ensures
            r == get_bit(self.0, 4),
    {
        bits::bit(self.0, 4)
    }

    /// Sets bit 4: lead-off status of input IN1N.
    pub fn set_in1n_off(&mut self, value: bool)
        ensures
            final(self).0 == set_bit(old(self).0, 4, value),
    {
        self.0 = bits::put_bit(self.0, 4, value);
    }

    /// Bit 5: lead-off status of input IN2N.
    pub fn in2n_off(&self) -> (r: bool)
        ensures
            r == get_bit(self.0, 5),
    {
        bits::bit(self.0, 5)
    }

    /// Sets bit 5: lead-off status of input IN2N.
    pub fn set_in2n_off(&mut self, value: bool)
        ensures
            final(self).0 == set_bit(old(self).0, 5, value),
    {
        self.0 = bits::put_bit(self.0, 5, value);
    }

    /// Bit 6: lead-off status of input IN3N.
    pub fn in3n_off(&self) -> (r: bool)
        ensures
            r == get_bit(self.0, 6),
    {
        bits::bit(self.0, 6)
    }

    /// Sets bit 6: lead-off status of input IN3N.
    pub fn set_in3n_off(&mut self, value: bool)
        ensures
            final(self).0 == set_bit(old(self).0, 6, value),
    {
        self.0 = bits::put_bit(self.0, 6, value);
    }

    /// Bit 7: lead-off status of input IN4N.
    pub fn in4n_off(&self) -> (r: bool)
        ensures
            r == get_bit(self.0, 7),
    {
        bits::bit(self.0, 7)
    }

    /// Sets bit 7: lead-off status of input IN4N.
    pub fn set_in4n_off(&mut self, value: bool)
        ensures
            final(self).0 == set_bit(old(self).0, 7, value),
    {
        self.0 = bits::put_bit(self.0, 7, value);
    }
}

/// ID control register, address `00h`.
#[derive(Clone, Copy, Debug, PartialEq, Eq, Structural)]
pub struct IdReg(pub u8);

impl IdReg {
    /// Bit 7: device identification, bit 7.
    pub fn dev_id_7(&self) -> (r: bool)
        ensures
            r == get_bit(self.0, 7),
    {
        bits::bit(self.0, 7)
    }

    /// Sets bit 7: device identification, bit 7.
    pub fn set_dev_id_7(&mut self, value: bool)
        ensures
            final(self).0 == set_bit(old(self).0, 7, value),
    {
        self.0 = bits::put_bit(self.0, 7, value);
    }

    /// Bit 6: device identification, bit 6.
    pub fn dev_id_6(&self) -> (r: bool)
        ensures
            r == get_bit(self.0, 6),
    {
        bits::bit(self.0, 6)
    }

    /// Sets bit 6: device identification, bit 6.
    pub fn set_dev_id_6(&mut self, value: bool)
        ensures
            final(self).0 == set_bit(old(self).0, 6, value),
    {
        self.0 = bits::put_bit(self.0, 6, value);
    }

    /// Bit 5: device identification, bit 5.
    pub fn dev_id_5(&self) -> (r: bool)
        ensures
            r == get_bit(self.0, 5),
    {
        bits::bit(self.0, 5)
    }

    /// Sets bit 5: device identification, bit 5.
    pub fn set_dev_id_5(&mut self, value: bool)
        ensures
            final(self).0 == set_bit(old(self).0, 5, value),
    {
        self.0 = bits::put_bit(self.0, 5, value);
    }

    /// Bit 4: reserved.
    pub fn rev_4(&self) -> (r: bool)
        ensures
            r == get_bit(self.0, 4),
    {
        bits::bit(self.0, 4)
    }

    /// Sets bit 4: reserved.
    pub fn set_rev_4(&mut self, value: bool)
        ensures
            final(self).0 == set_bit(old(self).0, 4, value),
    {
        self.0 = bits::put_bit(self.0, 4, value);
    }

    /// Bit 3: reserved.
    pub fn rev_3(&self) -> (r: bool)
        ensures
            r == get_bit(self.0, 3),
    {
        bits::bit(self.0, 3)
    }

    /// Sets bit 3: reserved.
    pub fn set_rev_3(&mut self, value: bool)
        ensures
            final(self).0 == set_bit(old(self).0, 3, value),
    {
        self.0 = bits::put_bit(self.0, 3, value);
    }

    /// Bit 2: device identification, bit 2.
    pub fn dev_id_2(&self) -> (r: bool)
        ensures
            r == get_bit(self.0, 2),
    {
        bits::bit(self.0, 2)
    }

    /// Sets bit 2: device identification, bit 2.
    pub fn set_dev_id_2(&mut self, value: bool)
        ensures
            final(self).0 == set_bit(old(self).0, 2, value),
    {
        self.0 = bits::put_bit(self.0, 2, value);
    }

    /// Bit 1: device identification, bit 1.
    pub fn dev_id_1(&self) -> (r: bool)
        ensures
            r == get_bit(self.0, 1),
    {
        bits::bit(self.0, 1)
    }

    /// Sets bit 1: device identification, bit 1.
    pub fn set_dev_id_1(&mut self, value: bool)
        ensures
            final(self).0 == set_bit(old(self).0, 1, value),
    {
        self.0 = bits::put_bit(self.0, 1, value);
    }

    /// Bit 0: device identification, bit 0.
    pub fn dev_id_0(&self) -> (r: bool)
        ensures
            r == get_bit(self.0, 0),
    {
        bits::bit(self.0, 0)
    }

    /// Sets bit 0: device identification, bit 0.
    pub fn set_dev_id_0(&mut self, value: bool)
        ensures
            final(self).0 == set_bit(old(self).0, 0, value),
    {
        self.0 = bits::put_bit(self.0, 0, value);
    }
}

/// Configuration register 1, address `01h`, `06h` after reset.
#[derive(Clone, Copy, Debug, PartialEq, Eq, Structural)]
pub struct Config1Reg(pub u8);

impl Config1Reg {
    /// Bit 7: high-resolution mode (1) or low-power mode (0).
    pub fn hr(&self) -> (r: bool)
        ensures
            r == get_bit(self.0, 7),
    {
        bits::bit(self.0, 7)
    }

    /// Sets bit 7: high-resolution mode (1) or low-power mode (0).
    pub fn set_hr(&mut self, value: bool)
        ensures
            final(self).0 == set_bit(old(self).0, 7, value),
    {
        self.0 = bits::put_bit(self.0, 7, value);
    }

    /// Bit 6: multiple readback mode (1) or daisy-chain mode (0).
    pub fn daisy_en(&self) -> (r: bool)
        ensures
            r == get_bit(self.0, 6),
    {
        bits::bit(self.0, 6)
    }

    /// Sets bit 6: multiple readback mode (1) or daisy-chain mode (0).
    pub fn set_daisy_en(&mut self, value: bool)
        ensures
            final(self).0 == set_bit(old(self).0, 6, value),
    {
        self.0 = bits::put_bit(self.0, 6, value);
    }

    /// Bit 5: oscillator clock output on the CLK pin.
    pub fn clk_en(&self) -> (r: bool)
        ensures
            r == get_bit(self.0, 5),
    {
        bits::bit(self.0, 5)
    }

    /// Sets bit 5: oscillator clock output on the CLK pin.
    pub fn set_clk_en(&mut self, value: bool)
        ensures
            final(self).0 == set_bit(old(self).0, 5, value),
    {
        self.0 = bits::put_bit(self.0, 5, value);
    }

    /// Bit 4: reserved.
    pub fn rev_4(&self) -> (r: bool)
        ensures
            r == get_bit(self.0, 4),
    {
        bits::bit(self.0, 4)
    }

    /// Sets bit 4: reserved.
    pub fn set_rev_4(&mut self, value: bool)
        ensures
            final(self).0 == set_bit(old(self).0, 4, value),
    {
        self.0 = bits::put_bit(self.0, 4, value);
    }

    /// Bit 3: reserved.
    pub fn rev_3(&self) -> (r: bool)
        ensures
            r == get_bit(self.0, 3),
    {
        bits::bit(self.0, 3)
    }

    /// Sets bit 3: reserved.
    pub fn set_rev_3(&mut self, value: bool)
        ensures
            final(self).0 == set_bit(old(self).0, 3, value),
    {
        self.0 = bits::put_bit(self.0, 3, value);
    }

    /// Bits 2 to 0: output data rate.
    pub fn dr(&self) -> (r: u8)
        ensures
            r == get_bits(self.0, 2, 0),
    {
        bits::bit_range(self.0, 2, 0)
    }

    /// Sets bits 2 to 0: output data rate.
    pub fn set_dr(&mut self, value: u8)
        ensures
            final(self).0 == set_bits(old(self).0, 2, 0, value),
    {
        self.0 = bits::set_bit_range(self.0, 2, 0, value);
    }
}

/// Configuration register 2, address `02h`, `40h` after reset.
#[derive(Clone, Copy, Debug, PartialEq, Eq, Structural)]
pub struct Config2Reg(pub u8);

impl Config2Reg {
    /// Bit 7: reserved.
    pub fn rev_7(&self) -> (r: bool)
        ensures
            r == get_bit(self.0, 7),
    {
        bits::bit(self.0, 7)
    }

    /// Sets bit 7: reserved.
    pub fn set_rev_7(&mut self, value: bool)
        ensures
            final(self).0 == set_bit(old(self).0, 7, value),
    {
        self.0 = bits::put_bit(self.0, 7, value);
    }

    /// Bit 6: reserved.
    pub fn rev_6(&self) -> (r: bool)
        ensures
            r == get_bit(self.0, 6),
    {
        bits::bit(self.0, 6)
    }

    /// Sets bit 6: reserved.
    pub fn set_rev_6(&mut self, value: bool)
        ensures
            final(self).0 == set_bit(old(self).0, 6, value),
    {
        self.0 = bits::put_bit(self.0, 6, value);
    }

    /// Bit 5: WCT chopping frequency, fixed (1) or variable (0).
    pub fn wct_chop(&self) -> (r: bool)
        ensures
            r == get_bit(self.0, 5),
    {
        bits::bit(self.0, 5)
    }

    /// Sets bit 5: WCT chopping frequency, fixed (1) or variable (0).
    pub fn set_wct_chop(&mut self, value: bool)
        ensures
            final(self).0 == set_bit(old(self).0, 5, value),
    {
        self.0 = bits::put_bit(self.0, 5, value);
    }

    /// Bit 4: test signal generated internally (1) or driven externally (0).
    pub fn int_test(&self) -> (r: bool)
        ensures
            r == get_bit(self.0, 4),
    {
        bits::bit(self.0, 4)
    }

    /// Sets bit 4: test signal generated internally (1) or driven externally (0).
    pub fn set_int_test(&mut self, value: bool)
        ensures
            final(self).0 == set_bit(old(self).0, 4, value),
    {
        self.0 = bits::put_bit(self.0, 4, value);
    }

    /// Bit 3: reserved.
    pub fn rev_3(&self) -> (r: bool)
        ensures
            r == get_bit(self.0, 3),
    {
        bits::bit(self.0, 3)
    }

    /// Sets bit 3: reserved.
    pub fn set_rev_3(&mut self, value: bool)
        ensures
            final(self).0 == set_bit(old(self).0, 3, value),
    {
        self.0 = bits::put_bit(self.0, 3, value);
    }

    /// Bit 2: test signal amplitude.
    pub fn test_amp(&self) -> (r: bool)
        ensures
            r == get_bit(self.0, 2),
    {
        bits::bit(self.0, 2)
    }

    /// Sets bit 2: test signal amplitude.
    pub fn set_test_amp(&mut self, value: bool)
        ensures
            final(self).0 == set_bit(old(self).0, 2, value),
    {
        self.0 = bits::put_bit(self.0, 2, value);
    }

    /// Bits 1 to 0: test signal frequency.
    pub fn test_freq(&self) -> (r: u8)
        ensures
            r == get_bits(self.0, 1, 0),
    {
        bits::bit_range(self.0, 1, 0)
    }

    /// Sets bits 1 to 0: test signal frequency.
    pub fn set_test_freq(&mut self, value: u8)
        ensures
            final(self).0 == set_bits(old(self).0, 1, 0, value),
    {
        self.0 = bits::set_bit_range(self.0, 1, 0, value);
    }
}

/// Configuration register 3, address `03h`, `40h` after reset.
#[derive(Clone, Copy, Debug, PartialEq, Eq, Structural)]
pub struct Config3Reg(pub u8);

impl Config3Reg {
    /// Bit 7: internal reference buffer enabled (1) or powered down (0).
    pub fn pd_refbuf(&self) -> (r: bool)
        ensures
            r == get_bit(self.0, 7),
    {
        bits::bit(self.0, 7)
    }

    /// Sets bit 7: internal reference buffer enabled (1) or powered down (0).
    pub fn set_pd_refbuf(&mut self, value: bool)
        ensures
            final(self).0 == set_bit(old(self).0, 7, value),
    {
        self.0 = bits::put_bit(self.0, 7, value);
    }

    /// Bit 6: reserved.
    pub fn rev_6(&self) -> (r: bool)
        ensures
            r == get_bit(self.0, 6),
    {
        bits::bit(self.0, 6)
    }

    /// Sets bit 6: reserved.
    pub fn set_rev_6(&mut self, value: bool)
        ensures
            final(self).0 == set_bit(old(self).0, 6, value),
    {
        self.0 = bits::put_bit(self.0, 6, value);
    }

    /// Bit 5: reference voltage, 4 V (1) or 2.4 V (0).
    pub fn vref_4v(&self) -> (r: bool)
        ensures
            r == get_bit(self.0, 5),
    {
        bits::bit(self.0, 5)
    }

    /// Sets bit 5: reference voltage, 4 V (1) or 2.4 V (0).
    pub fn set_vref_4v(&mut self, value: bool)
        ensures
            final(self).0 == set_bit(old(self).0, 5, value),
    {
        self.0 = bits::put_bit(self.0, 5, value);
    }

    /// Bit 4: RLD_IN routed to the channel whose multiplexer selects it.
    pub fn rld_meas(&self) -> (r: bool)
        ensures
            r == get_bit(self.0, 4),
    {
        bits::bit(self.0, 4)
    }

    /// Sets bit 4: RLD_IN routed to the channel whose multiplexer selects it.
    pub fn set_rld_meas(&mut self, value: bool)
        ensures
            final(self).0 == set_bit(old(self).0, 4, value),
    {
        self.0 = bits::put_bit(self.0, 4, value);
    }

    /// Bit 3: RLDREF generated internally (1) or fed externally (0).
    pub fn rldref_int(&self) -> (r: bool)
        ensures
            r == get_bit(self.0, 3),
    {
        bits::bit(self.0, 3)
    }

    /// Sets bit 3: RLDREF generated internally (1) or fed externally (0).
    pub fn set_rldref_int(&mut self, value: bool)
        ensures
            final(self).0 == set_bit(old(self).0, 3, value),
    {
        self.0 = bits::put_bit(self.0, 3, value);
    }

    /// Bit 2: RLD buffer enabled (1) or powered down (0).
    pub fn pd_rld(&self) -> (r: bool)
        ensures
            r == get_bit(self.0, 2),
    {
        bits::bit(self.0, 2)
    }

    /// Sets bit 2: RLD buffer enabled (1) or powered down (0).
    pub fn set_pd_rld(&mut self, value: bool)
        ensures
            final(self).0 == set_bit(old(self).0, 2, value),
    {
        self.0 = bits::put_bit(self.0, 2, value);
    }

    /// Bit 1: RLD lead-off sensing.
    pub fn rld_loff_sens(&self) -> (r: bool)
        ensures
            r == get_bit(self.0, 1),
    {
        bits::bit(self.0, 1)
    }

    /// Sets bit 1: RLD lead-off sensing.
    pub fn set_rld_loff_sens(&mut self, value: bool)
        ensures
            final(self).0 == set_bit(old(self).0, 1, value),
    {
        self.0 = bits::put_bit(self.0, 1, value);
    }

    /// Bit 0: RLD lead-off status, connected (0) or not (1).
    pub fn rld_stat(&self) -> (r: bool)
        ensures
            r == get_bit(self.0, 0),
    {
        bits::bit(self.0, 0)
    }

    /// Sets bit 0: RLD lead-off status, connected (0) or not (1).
    pub fn set_rld_stat(&mut self, value: bool)
        ensures
            final(self).0 == set_bit(old(self).0, 0, value),
    {
        self.0 = bits::put_bit(self.0, 0, value);
    }
}

/// Lead-off control register, address `04h`.
#[derive(Clone, Copy, Debug, PartialEq, Eq, Structural)]
pub struct LOffReg(pub u8);

impl LOffReg {
    /// Bits 7 to 5: lead-off comparator threshold.
    pub fn comp_th(&self) -> (r: u8)
        ensures
            r == get_bits(self.0, 7, 5),
    {
        bits::bit_range(self.0, 7, 5)
    }

    /// Sets bits 7 to 5: lead-off comparator threshold.
    pub fn set_comp_th(&mut self, value: u8)
        ensures
            final(self).0 == set_bits(old(self).0, 7, 5, value),
    {
        self.0 = bits::set_bit_range(self.0, 7, 5, value);
    }

    /// Bit 4: lead-off detection by resistors (1) or by current sources (0).
    pub fn vlead_off_en(&self) -> (r: bool)
        ensures
            r == get_bit(self.0, 4),
    {
        bits::bit(self.0, 4)
    }

    /// Sets bit 4: lead-off detection by resistors (1) or by current sources (0).
    pub fn set_vlead_off_en(&mut self, value: bool)
        ensures
            final(self).0 == set_bit(old(self).0, 4, value),
    {
        self.0 = bits::put_bit(self.0, 4, value);
    }

    /// Bits 3 to 2: lead-off current magnitude.
    pub fn ilead_off(&self) -> (r: u8)
        ensures
            r == get_bits(self.0, 3, 2),
    {
        bits::bit_range(self.0, 3, 2)
    }

    /// Sets bits 3 to 2: lead-off current magnitude.
    pub fn set_ilead_off(&mut self, value: u8)
        ensures
            final(self).0 == set_bits(old(self).0, 3, 2, value),
    {
        self.0 = bits::set_bit_range(self.0, 3, 2, value);
    }

    /// Bits 1 to 0: lead-off detection frequency.
    pub fn flead_off(&self) -> (r: u8)
        ensures
            r == get_bits(self.0, 1, 0),
    {
        bits::bit_range(self.0, 1, 0)
    }

    /// Sets bits 1 to 0: lead-off detection frequency.
    pub fn set_flead_off(&mut self, value: u8)
        ensures
            final(self).0 == set_bits(old(self).0, 1, 0, value),
    {
        self.0 = bits::set_bit_range(self.0, 1, 0, value);
    }
}

/// Settings of one channel, addresses `05h` to `0Ch`.
#[derive(Clone, Copy, Debug, PartialEq, Eq, Structural)]
pub struct ChSetReg(pub u8);

impl ChSetReg {
    /// Bit 7: channel powered down.
    pub fn pd(&self) -> (r: bool)
        ensures
            r == get_bit(self.0, 7),
    {
        bits::bit(self.0, 7)
    }

    /// Sets bit 7: channel powered down.
    pub fn set_pd(&mut self, value: bool)
        ensures
            final(self).0 == set_bit(old(self).0, 7, value),
    {
        self.0 = bits::put_bit(self.0, 7, value);
    }

    /// Bits 6 to 4: PGA gain.
    pub fn gain(&self) -> (r: u8)
        ensures
            r == get_bits(self.0, 6, 4),
    {
        bits::bit_range(self.0, 6, 4)
    }

    /// Sets bits 6 to 4: PGA gain.
    pub fn set_gain(&mut self, value: u8)
        ensures
            final(self).0 == set_bits(old(self).0, 6, 4, value),
    {
        self.0 = bits::set_bit_range(self.0, 6, 4, value);
    }

    /// Bit 3: reserved.
    pub fn rev_3(&self) -> (r: bool)
        ensures
            r == get_bit(self.0, 3),
    {
        bits::bit(self.0, 3)
    }

    /// Sets bit 3: reserved.
    pub fn set_rev_3(&mut self, value: bool)
        ensures
            final(self).0 == set_bit(old(self).0, 3, value),
    {
        self.0 = bits::put_bit(self.0, 3, value);
    }

    /// Bits 2 to 0: channel input selection.
    pub fn mux(&self) -> (r: u8)
        ensures
            r == get_bits(self.0, 2, 0),
    {
        bits::bit_range(self.0, 2, 0)
    }

    /// Sets bits 2 to 0: channel input selection.
    pub fn set_mux(&mut self, value: u8)
        ensures
            final(self).0 == set_bits(old(self).0, 2, 0, value),
    {
        self.0 = bits::set_bit_range(self.0, 2, 0, value);
    }
}

/// Derivation of the right-leg drive from the positive inputs, address `0Dh`.
#[derive(Clone, Copy, Debug, PartialEq, Eq, Structural)]
pub struct RldSensPReg(pub u8);

impl RldSensPReg {
    /// Bit 7: IN8P routed into the right-leg drive derivation.
    pub fn rld8p(&self) -> (r: bool)
        ensures
            r == get_bit(self.0, 7),
    {
        bits::bit(self.0, 7)
    }

    /// Sets bit 7: IN8P routed into the right-leg drive derivation.
    pub fn set_rld8p(&mut self, value: bool)
        ensures
            final(self).0 == set_bit(old(self).0, 7, value),
    {
        self.0 = bits::put_bit(self.0, 7, value);
    }

    /// Bit 6: IN7P routed into the right-leg drive derivation.
    pub fn rld7p(&self) -> (r: bool)
        ensures
            r == get_bit(self.0, 6),
    {
        bits::bit(self.0, 6)
    }

    /// Sets bit 6: IN7P routed into the right-leg drive derivation.
    pub fn set_rld7p(&mut self, value: bool)
        ensures
            final(self).0 == set_bit(old(self).0, 6, value),
    {
        self.0 = bits::put_bit(self.0, 6, value);
    }

    /// Bit 5: IN6P routed into the right-leg drive derivation.
    pub fn rld6p(&self) -> (r: bool)
        ensures
            r == get_bit(self.0, 5),
    {
        bits::bit(self.0, 5)
    }

    /// Sets bit 5: IN6P routed into the right-leg drive derivation.
    pub fn set_rld6p(&mut self, value: bool)
        ensures
            final(self).0 == set_bit(old(self).0, 5, value),
    {
        self.0 = bits::put_bit(self.0, 5, value);
    }

    /// Bit 4: IN5P routed into the right-leg drive derivation.
    pub fn rld5p(&self) -> (r: bool)
        ensures
            r == get_bit(self.0, 4),
    {
        bits::bit(self.0, 4)
    }

    /// Sets bit 4: IN5P routed into the right-leg drive derivation.
    pub fn set_rld5p(&mut self, value: bool)
        ensures
            final(self).0 == set_bit(old(self).0, 4, value),
    {
        self.0 = bits::put_bit(self.0, 4, value);
    }

    /// Bit 3: IN4P routed into the right-leg drive derivation.
    pub fn rld4p(&self) -> (r: bool)
        ensures
            r == get_bit(self.0, 3),
    {
        bits::bit(self.0, 3)
    }

    /// Sets bit 3: IN4P routed into the right-leg drive derivation.
    pub fn set_rld4p(&mut self, value: bool)
        ensures
            final(self).0 == set_bit(old(self).0, 3, value),
    {
        self.0 = bits::put_bit(self.0, 3, value);
    }

    /// Bit 2: IN3P routed into the right-leg drive derivation.
    pub fn rld3p(&self) -> (r: bool)
        ensures
            r == get_bit(self.0, 2),
    {
        bits::bit(self.0, 2)
    }

    /// Sets bit 2: IN3P routed into the right-leg drive derivation.
    pub fn set_rld3p(&mut self, value: bool)
        ensures
            final(self).0 == set_bit(old(self).0, 2, value),
    {
        self.0 = bits::put_bit(self.0, 2, value);
    }

    /// Bit 1: IN2P routed into the right-leg drive derivation.
    pub fn rld2p(&self) -> (r: bool)
        ensures
            r == get_bit(self.0, 1),
    {
        bits::bit(self.0, 1)
    }

    /// Sets bit 1: IN2P routed into the right-leg drive derivation.
    pub fn set_rld2p(&mut self, value: bool)
        ensures
            final(self).0 == set_bit(old(self).0, 1, value),
    {
        self.0 = bits::put_bit(self.0, 1, value);
    }

    /// Bit 0: IN1P routed into the right-leg drive derivation.
    pub fn rld1p(&self) -> (r: bool)
        ensures
            r == get_bit(self.0, 0),
    {
        bits::bit(self.0, 0)
    }

    /// Sets bit 0: IN1P routed into the right-leg drive derivation.
    pub fn set_rld1p(&mut self, value: bool)
        ensures
            final(self).0 == set_bit(old(self).0, 0, value),
    {
        self.0 = bits::put_bit(self.0, 0, value);
    }
}

/// Derivation of the right-leg drive from the negative inputs, address `0Eh`.
#[derive(Clone, Copy, Debug, PartialEq, Eq, Structural)]
pub struct RldSensNReg(pub u8);

impl RldSensNReg {
    /// Bit 7: IN8N routed into the right-leg drive derivation.
    pub fn rld8n(&self) -> (r: bool)
        ensures
            r == get_bit(self.0, 7),
    {
        bits::bit(self.0, 7)
    }

    /// Sets bit 7: IN8N routed into the right-leg drive derivation.
    pub fn set_rld8n(&mut self, value: bool)
        ensures
            final(self).0 == set_bit(old(self).0, 7, value),
    {
        self.0 = bits::put_bit(self.0, 7, value);
    }

    /// Bit 6: IN7N routed into the right-leg drive derivation.
    pub fn rld7n(&self) -> (r: bool)
        ensures
            r == get_bit(self.0, 6),
    {
        bits::bit(self.0, 6)
    }

    /// Sets bit 6: IN7N routed into the right-leg drive derivation.
    pub fn set_rld7n(&mut self, value: bool)
        ensures
            final(self).0 == set_bit(old(self).0, 6, value),
    {
        self.0 = bits::put_bit(self.0, 6, value);
    }

    /// Bit 5: IN6N routed into the right-leg drive derivation.
    pub fn rld6n(&self) -> (r: bool)
        ensures
            r == get_bit(self.0, 5),
    {
        bits::bit(self.0, 5)
    }

    /// Sets bit 5: IN6N routed into the right-leg drive derivation.
    pub fn set_rld6n(&mut self, value: bool)
        ensures
            final(self).0 == set_bit(old(self).0, 5, value),
    {
        self.0 = bits::put_bit(self.0, 5, value);
    }

    /// Bit 4: IN5N routed into the right-leg drive derivation.
    pub fn rld5n(&self) -> (r: bool)
        ensures
            r == get_bit(self.0, 4),
    {
        bits::bit(self.0, 4)
    }

    /// Sets bit 4: IN5N routed into the right-leg drive derivation.
    pub fn set_rld5n(&mut self, value: bool)
        ensures
            final(self).0 == set_bit(old(self).0, 4, value),
    {
        self.0 = bits::put_bit(self.0, 4, value);
    }

    /// Bit 3: IN4N routed into the right-leg drive derivation.
    pub fn rld4n(&self) -> (r: bool)
        ensures
            r == get_bit(self.0, 3),
    {
        bits::bit(self.0, 3)
    }

    /// Sets bit 3: IN4N routed into the right-leg drive derivation.
    pub fn set_rld4n(&mut self, value: bool)
        ensures
            final(self).0 == set_bit(old(self).0, 3, value),
    {
        self.0 = bits::put_bit(self.0, 3, value);
    }

    /// Bit 2: IN3N routed into the right-leg drive derivation.
    pub fn rld3n(&self) -> (r: bool)
        ensures
            r == get_bit(self.0, 2),
    {
        bits::bit(self.0, 2)
    }

    /// Sets bit 2: IN3N routed into the right-leg drive derivation.
    pub fn set_rld3n(&mut self, value: bool)
        ensures
            final(self).0 == set_bit(old(self).0, 2, value),
    {
        self.0 = bits::put_bit(self.0, 2, value);
    }

    /// Bit 1: IN2N routed into the right-leg drive derivation.
    pub fn rld2n(&self) -> (r: bool)
        ensures
            r == get_bit(self.0, 1),
    {
        bits::bit(self.0, 1)
    }

    /// Sets bit 1: IN2N routed into the right-leg drive derivation.
    pub fn set_rld2n(&mut self, value: bool)
        ensures
            final(self).0 == set_bit(old(self).0, 1, value),
    {
        self.0 = bits::put_bit(self.0, 1, value);
    }

    /// Bit 0: IN1N routed into the right-leg drive derivation.
    pub fn rld1n(&self) -> (r: bool)
        ensures
            r == get_bit(self.0, 0),
    {
        bits::bit(self.0, 0)
    }

    /// Sets bit 0: IN1N routed into the right-leg drive derivation.
    pub fn set_rld1n(&mut self, value: bool)
        ensures
            final(self).0 == set_bit(old(self).0, 0, value),
    {
        self.0 = bits::put_bit(self.0, 0, value);
    }
}

/// Lead-off detection on the positive inputs, address `0Fh`.
#[derive(Clone, Copy, Debug, PartialEq, Eq, Structural)]
pub struct LOffSensPReg(pub u8);

impl LOffSensPReg {
    /// Bit 7: lead-off detection on IN8P.
    pub fn loff8p(&self) -> (r: bool)
        ensures
            r == get_bit(self.0, 7),
    {
        bits::bit(self.0, 7)
    }

    /// Sets bit 7: lead-off detection on IN8P.
    pub fn set_loff8p(&mut self, value: bool)
        ensures
            final(self).0 == set_bit(old(self).0, 7, value),
    {
        self.0 = bits::put_bit(self.0, 7, value);
    }

    /// Bit 6: lead-off detection on IN7P.
    pub fn loff7p(&self) -> (r: bool)
        ensures
            r == get_bit(self.0, 6),
    {
        bits::bit(self.0, 6)
    }

    /// Sets bit 6: lead-off detection on IN7P.
    pub fn set_loff7p(&mut self, value: bool)
        ensures
            final(self).0 == set_bit(old(self).0, 6, value),
    {
        self.0 = bits::put_bit(self.0, 6, value);
    }

    /// Bit 5: lead-off detection on IN6P.
    pub fn loff6p(&self) -> (r: bool)
        ensures
            r == get_bit(self.0, 5),
    {
        bits::bit(self.0, 5)
    }

    /// Sets bit 5: lead-off detection on IN6P.
    pub fn set_loff6p(&mut self, value: bool)
        ensures
            final(self).0 == set_bit(old(self).0, 5, value),
    {
        self.0 = bits::put_bit(self.0, 5, value);
    }

    /// Bit 4: lead-off detection on IN5P.
    pub fn loff5p(&self) -> (r: bool)
        ensures
            r == get_bit(self.0, 4),
    {
        bits::bit(self.0, 4)
    }

    /// Sets bit 4: lead-off detection on IN5P.
    pub fn set_loff5p(&mut self, value: bool)
        ensures
            final(self).0 == set_bit(old(self).0, 4, value),
    {
        self.0 = bits::put_bit(self.0, 4, value);
    }

    /// Bit 3: lead-off detection on IN4P.
    pub fn loff4p(&self) -> (r: bool)
        ensures
            r == get_bit(self.0, 3),
    {
        bits::bit(self.0, 3)
    }

    /// Sets bit 3: lead-off detection on IN4P.
    pub fn set_loff4p(&mut self, value: bool)
        ensures
            final(self).0 == set_bit(old(self).0, 3, value),
    {
        self.0 = bits::put_bit(self.0, 3, value);
    }

    /// Bit 2: lead-off detection on IN3P.
    pub fn loff3p(&self) -> (r: bool)
        ensures
            r == get_bit(self.0, 2),
    {
        bits::bit(self.0, 2)
    }

    /// Sets bit 2: lead-off detection on IN3P.
    pub fn set_loff3p(&mut self, value: bool)
        ensures
            final(self).0 == set_bit(old(self).0, 2, value),
    {
        self.0 = bits::put_bit(self.0, 2, value);
    }

    /// Bit 1: lead-off detection on IN2P.
    pub fn loff2p(&self) -> (r: bool)
        ensures
            r == get_bit(self.0, 1),
    {
        bits::bit(self.0, 1)
    }

    /// Sets bit 1: lead-off detection on IN2P.
    pub fn set_loff2p(&mut self, value: bool)
        ensures
            final(self).0 == set_bit(old(self).0, 1, value),
    {
        self.0 = bits::put_bit(self.0, 1, value);
    }

    /// Bit 0: lead-off detection on IN1P.
    pub fn loff1p(&self) -> (r: bool)
        ensures
            r == get_bit(self.0, 0),
    {
        bits::bit(self.0, 0)
    }

    /// Sets bit 0: lead-off detection on IN1P.
    pub fn set_loff1p(&mut self, value: bool)
        ensures
            final(self).0 == set_bit(old(self).0, 0, value),
    {
        self.0 = bits::put_bit(self.0, 0, value);
    }
}

/// Lead-off detection on the negative inputs, address `10h`.
#[derive(Clone, Copy, Debug, PartialEq, Eq, Structural)]
pub struct LOffSensNReg(pub u8);

impl LOffSensNReg {
    /// Bit 7: lead-off detection on IN8N.
    pub fn loff8n(&self) -> (r: bool)
        ensures
            r == get_bit(self.0, 7),
    {
        bits::bit(self.0, 7)
    }

    /// Sets bit 7: lead-off detection on IN8N.
    pub fn set_loff8n(&mut self, value: bool)
        ensures
            final(self).0 == set_bit(old(self).0, 7, value),
    {
        self.0 = bits::put_bit(self.0, 7, value);
    }

    /// Bit 6: lead-off detection on IN7N.
    pub fn loff7n(&self) -> (r: bool)
        ensures
            r == get_bit(self.0, 6),
    {
        bits::bit(self.0, 6)
    }

    /// Sets bit 6: lead-off detection on IN7N.
    pub fn set_loff7n(&mut self, value: bool)
        ensures
            final(self).0 == set_bit(old(self).0, 6, value),
    {
        self.0 = bits::put_bit(self.0, 6, value);
    }

    /// Bit 5: lead-off detection on IN6N.
    pub fn loff6n(&self) -> (r: bool)
        ensures
            r == get_bit(self.0, 5),
    {
        bits::bit(self.0, 5)
    }

    /// Sets bit 5: lead-off detection on IN6N.
    pub fn set_loff6n(&mut self, value: bool)
        ensures
            final(self).0 == set_bit(old(self).0, 5, value),
    {
        self.0 = bits::put_bit(self.0, 5, value);
    }

    /// Bit 4: lead-off detection on IN5N.
    pub fn loff5n(&self) -> (r: bool)
        ensures
            r == get_bit(self.0, 4),
    {
        bits::bit(self.0, 4)
    }

    /// Sets bit 4: lead-off detection on IN5N.
    pub fn set_loff5n(&mut self, value: bool)
        ensures
            final(self).0 == set_bit(old(self).0, 4, value),
    {
        self.0 = bits::put_bit(self.0, 4, value);
    }

    /// Bit 3: lead-off detection on IN4N.
    pub fn loff4n(&self) -> (r: bool)
        ensures
            r == get_bit(self.0, 3),
    {
        bits::bit(self.0, 3)
    }

    /// Sets bit 3: lead-off detection on IN4N.
    pub fn set_loff4n(&mut self, value: bool)
        ensures
            final(self).0 == set_bit(old(self).0, 3, value),
    {
        self.0 = bits::put_bit(self.0, 3, value);
    }

    /// Bit 2: lead-off detection on IN3N.
    pub fn loff3n(&self) -> (r: bool)
        ensures
            r == get_bit(self.0, 2),
    {
        bits::bit(self.0, 2)
    }

    /// Sets bit 2: lead-off detection on IN3N.
    pub fn set_loff3n(&mut self, value: bool)
        ensures
            final(self).0 == set_bit(old(self).0, 2, value),
    {
        self.0 = bits::put_bit(self.0, 2, value);
    }

    /// Bit 1: lead-off detection on IN2N.
    pub fn loff2n(&self) -> (r: bool)
        ensures
            r == get_bit(self.0, 1),
    {
        bits::bit(self.0, 1)
    }

    /// Sets bit 1: lead-off detection on IN2N.
    pub fn set_loff2n(&mut self, value: bool)
        ensures
            final(self).0 == set_bit(old(self).0, 1, value),
    {
        self.0 = bits::put_bit(self.0, 1, value);
    }

    /// Bit 0: lead-off detection on IN1N.
    pub fn loff1n(&self) -> (r: bool)
        ensures
            r == get_bit(self.0, 0),
    {
        bits::bit(self.0, 0)
    }

    /// Sets bit 0: lead-off detection on IN1N.
    pub fn set_loff1n(&mut self, value: bool)
        ensures
            final(self).0 == set_bit(old(self).0, 0, value),
    {
        self.0 = bits::put_bit(self.0, 0, value);
    }
}

/// Lead-off flip register, address `11h`.
#[derive(Clone, Copy, Debug, PartialEq, Eq, Structural)]
pub struct LoffFlipReg(pub u8);

impl LoffFlipReg {
    /// Bit 7: flipped lead-off polarity on channel 8.
    pub fn loff_flip8(&self) -> (r: bool)
        ensures
            r == get_bit(self.0, 7),
    {
        bits::bit(self.0, 7)
    }

    /// Sets bit 7: flipped lead-off polarity on channel 8.
    pub fn set_loff_flip8(&mut self, value: bool)
        ensures
            final(self).0 == set_bit(old(self).0, 7, value),
    {
        self.0 = bits::put_bit(self.0, 7, value);
    }

    /// Bit 6: flipped lead-off polarity on channel 7.
    pub fn loff_flip7(&self) -> (r: bool)
        ensures
            r == get_bit(self.0, 6),
    {
        bits::bit(self.0, 6)
    }

    /// Sets bit 6: flipped lead-off polarity on channel 7.
    pub fn set_loff_flip7(&mut self, value: bool)
        ensures
            final(self).0 == set_bit(old(self).0, 6, value),
    {
        self.0 = bits::put_bit(self.0, 6, value);
    }

    /// Bit 5: flipped lead-off polarity on channel 6.
    pub fn loff_flip6(&self) -> (r: bool)
        ensures
            r == get_bit(self.0, 5),
    {
        bits::bit(self.0, 5)
    }

    /// Sets bit 5: flipped lead-off polarity on channel 6.
    pub fn set_loff_flip6(&mut self, value: bool)
        ensures
            final(self).0 == set_bit(old(self).0, 5, value),
    {
        self.0 = bits::put_bit(self.0, 5, value);
    }

    /// Bit 4: flipped lead-off polarity on channel 5.
    pub fn loff_flip5(&self) -> (r: bool)
        ensures
            r == get_bit(self.0, 4),
    {
        bits::bit(self.0, 4)
    }

    /// Sets bit 4: flipped lead-off polarity on channel 5.
    pub fn set_loff_flip5(&mut self, value: bool)
        ensures
            final(self).0 == set_bit(old(self).0, 4, value),
    {
        self.0 = bits::put_bit(self.0, 4, value);
    }

    /// Bit 3: flipped lead-off polarity on channel 4.
    pub fn loff_flip4(&self) -> (r: bool)
        ensures
            r == get_bit(self.0, 3),
    {
        bits::bit(self.0, 3)
    }

    /// Sets bit 3: flipped lead-off polarity on channel 4.
    pub fn set_loff_flip4(&mut self, value: bool)
        ensures
            final(self).0 == set_bit(old(self).0, 3, value),
    {
        self.0 = bits::put_bit(self.0, 3, value);
    }

    /// Bit 2: flipped lead-off polarity on channel 3.
    pub fn loff_flip3(&self) -> (r: bool)
        ensures
            r == get_bit(self.0, 2),
    {
        bits::bit(self.0, 2)
    }

    /// Sets bit 2: flipped lead-off polarity on channel 3.
    pub fn set_loff_flip3(&mut self, value: bool)
        ensures
            final(self).0 == set_bit(old(self).0, 2, value),
    {
        self.0 = bits::put_bit(self.0, 2, value);
    }

    /// Bit 1: flipped lead-off polarity on channel 2.
    pub fn loff_flip2(&self) -> (r: bool)
        ensures
            r == get_bit(self.0, 1),
    {
        bits::bit(self.0, 1)
    }

    /// Sets bit 1: flipped lead-off polarity on channel 2.
    pub fn set_loff_flip2(&mut self, value: bool)
        ensures
            final(self).0 == set_bit(old(self).0, 1, value),
    {
        self.0 = bits::put_bit(self.0, 1, value);
    }

    /// Bit 0: flipped lead-off polarity on channel 1.
    pub fn loff_flip1(&self) -> (r: bool)
        ensures
            r == get_bit(self.0, 0),
    {
        bits::bit(self.0, 0)
    }

    /// Sets bit 0: flipped lead-off polarity on channel 1.
    pub fn set_loff_flip1(&mut self, value: bool)
        ensures
            final(self).0 == set_bit(old(self).0, 0, value),
    {
        self.0 = bits::put_bit(self.0, 0, value);
    }
}

/// Lead-off status of the positive inputs, address `12h`.
#[derive(Clone, Copy, Debug, PartialEq, Eq, Structural)]
pub struct LOffStatPReg(pub u8);

impl LOffStatPReg {
    /// Bit 7: lead-off status of input IN8P.
    pub fn in8p_off(&self) -> (r: bool)
        ensures
            r == get_bit(self.0, 7),
    {
        bits::bit(self.0, 7)
    }

    /// Sets bit 7: lead-off status of input IN8P.
    pub fn set_in8p_off(&mut self, value: bool)
        ensures
            final(self).0 == set_bit(old(self).0, 7, value),
    {
        self.0 = bits::put_bit(self.0, 7, value);
    }

    /// Bit 6: lead-off status of input IN7P.
    pub fn in7p_off(&self) -> (r: bool)
        ensures
            r == get_bit(self.0, 6),
    {
        bits::bit(self.0, 6)
    }

    /// Sets bit 6: lead-off status of input IN7P.
    pub fn set_in7p_off(&mut self, value: bool)
        ensures
            final(self).0 == set_bit(old(self).0, 6, value),
    {
        self.0 = bits::put_bit(self.0, 6, value);
    }

    /// Bit 5: lead-off status of input IN6P.
    pub fn in6p_off(&self) -> (r: bool)
        ensures
            r == get_bit(self.0, 5),
    {
        bits::bit(self.0, 5)
    }

    /// Sets bit 5: lead-off status of input IN6P.
    pub fn set_in6p_off(&mut self, value: bool)
        ensures
            final(self).0 == set_bit(old(self).0, 5, value),
    {
        self.0 = bits::put_bit(self.0, 5, value);
    }

    /// Bit 4: lead-off status of input IN5P.
    pub fn in5p_off(&self) -> (r: bool)
        ensures
            r == get_bit(self.0, 4),
    {
        bits::bit(self.0, 4)
    }

    /// Sets bit 4: lead-off status of input IN5P.
    pub fn set_in5p_off(&mut self, value: bool)
        ensures
            final(self).0 == set_bit(old(self).0, 4, value),
    {
        self.0 = bits::put_bit(self.0, 4, value);
    }

    /// Bit 3: lead-off status of input IN4P.
    pub fn in4p_off(&self) -> (r: bool)
        ensures
            r == get_bit(self.0, 3),
    {
        bits::bit(self.0, 3)
    }

    /// Sets bit 3: lead-off status of input IN4P.
    pub fn set_in4p_off(&mut self, value: bool)
        ensures
            final(self).0 == set_bit(old(self).0, 3, value),
    {
        self.0 = bits::put_bit(self.0, 3, value);
    }

    /// Bit 2: lead-off status of input IN3P.
    pub fn in3p_off(&self) -> (r: bool)
        ensures
            r == get_bit(self.0, 2),
    {
        bits::bit(self.0, 2)
    }

    /// Sets bit 2: lead-off status of input IN3P.
    pub fn set_in3p_off(&mut self, value: bool)
        ensures
            final(self).0 == set_bit(old(self).0, 2, value),
    {
        self.0 = bits::put_bit(self.0, 2, value);
    }

    /// Bit 1: lead-off status of input IN2P.
    pub fn in2p_off(&self) -> (r: bool)
        ensures
            r == get_bit(self.0, 1),
    {
        bits::bit(self.0, 1)
    }

    /// Sets bit 1: lead-off status of input IN2P.
    pub fn set_in2p_off(&mut self, value: bool)
        ensures
            final(self).0 == set_bit(old(self).0, 1, value),
    {
        self.0 = bits::put_bit(self.0, 1, value);
    }

    /// Bit 0: lead-off status of input IN1P.
    pub fn in1p_off(&self) -> (r: bool)
        ensures
            r == get_bit(self.0, 0),
    {
        bits::bit(self.0, 0)
    }

    /// Sets bit 0: lead-off status of input IN1P.
    pub fn set_in1p_off(&mut self, value: bool)
        ensures
            final(self).0 == set_bit(old(self).0, 0, value),
    {
        self.0 = bits::put_bit(self.0, 0, value);
    }
}

/// Lead-off status of the negative inputs, address `13h`.
#[derive(Clone, Copy, Debug, PartialEq, Eq, Structural)]
pub struct LOffStatNReg(pub u8);

impl LOffStatNReg {
    /// Bit 7: lead-off status of input IN8N.
    pub fn in8n_off(&self) -> (r: bool)
        ensures
            r == get_bit(self.0, 7),
    {
        bits::bit(self.0, 7)
    }

    /// Sets bit 7: lead-off status of input IN8N.
    pub fn set_in8n_off(&mut self, value: bool)
        ensures
            final(self).0 == set_bit(old(self).0, 7, value),
    {
        self.0 = bits::put_bit(self.0, 7, value);
    }

    /// Bit 6: lead-off status of input IN7N.
    pub fn in7n_off(&self) -> (r: bool)
        ensures
            r == get_bit(self.0, 6),
    {
        bits::bit(self.0, 6)
    }

    /// Sets bit 6: lead-off status of input IN7N.
    pub fn set_in7n_off(&mut self, value: bool)
        ensures
            final(self).0 == set_bit(old(self).0, 6, value),
    {
        self.0 = bits::put_bit(self.0, 6, value);
    }

    /// Bit 5: lead-off status of input IN6N.
    pub fn in6n_off(&self) -> (r: bool)
        ensures
            r == get_bit(self.0, 5),
    {
        bits::bit(self.0, 5)
    }

    /// Sets bit 5: lead-off status of input IN6N.
    pub fn set_in6n_off(&mut self, value: bool)
        ensures
            final(self).0 == set_bit(old(self).0, 5, value),
    {
        self.0 = bits::put_bit(self.0, 5, value);
    }

    /// Bit 4: lead-off status of input IN5N.
    pub fn in5n_off(&self) -> (r: bool)
        ensures
            r == get_bit(self.0, 4),
    {
        bits::bit(self.0, 4)
    }

    /// Sets bit 4: lead-off status of input IN5N.
    pub fn set_in5n_off(&mut self, value: bool)
        ensures
            final(self).0 == set_bit(old(self).0, 4, value),
    {
        self.0 = bits::put_bit(self.0, 4, value);
    }

    /// Bit 3: lead-off status of input IN4N.
    pub fn in4n_off(&self) -> (r: bool)
        ensures
            r == get_bit(self.0, 3),
    {
        bits::bit(self.0, 3)
    }

    /// Sets bit 3: lead-off status of input IN4N.
    pub fn set_in4n_off(&mut self, value: bool)
        ensures
            final(self).0 == set_bit(old(self).0, 3, value),
    {
        self.0 = bits::put_bit(self.0, 3, value);
    }

    /// Bit 2: lead-off status of input IN3N.
    pub fn in3n_off(&self) -> (r: bool)
        ensures
            r == get_bit(self.0, 2),
    {
        bits::bit(self.0, 2)
    }

    /// Sets bit 2: lead-off status of input IN3N.
    pub fn set_in3n_off(&mut self, value: bool)
        ensures
            final(self).0 == set_bit(old(self).0, 2, value),
    {
        self.0 = bits::put_bit(self.0, 2, value);
    }

    /// Bit 1: lead-off status of input IN2N.
    pub fn in2n_off(&self) -> (r: bool)
        ensures
            r == get_bit(self.0, 1),
    {
        bits::bit(self.0, 1)
    }

    /// Sets bit 1: lead-off status of input IN2N.
    pub fn set_in2n_off(&mut self, value: bool)
        ensures
            final(self).0 == set_bit(old(self).0, 1, value),
    {
        self.0 = bits::put_bit(self.0, 1, value);
    }

    /// Bit 0: lead-off status of input IN1N.
    pub fn in1n_off(&self) -> (r: bool)
        ensures
            r == get_bit(self.0, 0),
    {
        bits::bit(self.0, 0)
    }

    /// Sets bit 0: lead-off status of input IN1N.
    pub fn set_in1n_off(&mut self, value: bool)
        ensures
            final(self).0 == set_bit(old(self).0, 0, value),
    {
        self.0 = bits::put_bit(self.0, 0, value);
    }
}

/// General-purpose I/O register, address `14h`, `0Fh` after reset.
#[derive(Clone, Copy, Debug, PartialEq, Eq, Structural)]
pub struct GpioReg(pub u8);

impl GpioReg {
    /// Bits 7 to 4: GPIO data.
    pub fn gpio_d(&self) -> (r: u8)
        ensures
            r == get_bits(self.0, 7, 4),
    {
        bits::bit_range(self.0, 7, 4)
    }

    /// Sets bits 7 to 4: GPIO data.
    pub fn set_gpio_d(&mut self, value: u8)
        ensures
            final(self).0 == set_bits(old(self).0, 7, 4, value),
    {
        self.0 = bits::set_bit_range(self.0, 7, 4, value);
    }

    /// Bits 3 to 0: GPIO direction, input (1) or output (0), one bit per pin.
    pub fn gpio_c(&self) -> (r: u8)
        ensures
            r == get_bits(self.0, 3, 0),
    {
        bits::bit_range(self.0, 3, 0)
    }

    /// Sets bits 3 to 0: GPIO direction, input (1) or output (0), one bit per pin.
    pub fn set_gpio_c(&mut self, value: u8)
        ensures
            final(self).0 == set_bits(old(self).0, 3, 0, value),
    {
        self.0 = bits::set_bit_range(self.0, 3, 0, value);
    }
}

/// Pace detection register, address `15h`.
#[derive(Clone, Copy, Debug, PartialEq, Eq, Structural)]
pub struct PaceReg(pub u8);

impl PaceReg {
    /// Bits 7 to 5: reserved.
    pub fn rev_7_5(&self) -> (r: u8)
        ensures
            r == get_bits(self.0, 7, 5),
    {
        bits::bit_range(self.0, 7, 5)
    }

    /// Sets bits 7 to 5: reserved.
    pub fn set_rev_7_5(&mut self, value: u8)
        ensures
            final(self).0 == set_bits(old(self).0, 7, 5, value),
    {
        self.0 = bits::set_bit_range(self.0, 7, 5, value);
    }

    /// Bits 4 to 3: even channel for pace detection.
    pub fn pace_e(&self) -> (r: u8)
        ensures
            r == get_bits(self.0, 4, 3),
    {
        bits::bit_range(self.0, 4, 3)
    }

    /// Sets bits 4 to 3: even channel for pace detection.
    pub fn set_pace_e(&mut self, value: u8)
        ensures
            final(self).0 == set_bits(old(self).0, 4, 3, value),
    {
        self.0 = bits::set_bit_range(self.0, 4, 3, value);
    }

    /// Bits 2 to 1: odd channel for pace detection.
    pub fn pace_o(&self) -> (r: u8)
        ensures
            r == get_bits(self.0, 2, 1),
    {
        bits::bit_range(self.0, 2, 1)
    }

    /// Sets bits 2 to 1: odd channel for pace detection.
    pub fn set_pace_o(&mut self, value: u8)
        ensures
            final(self).0 == set_bits(old(self).0, 2, 1, value),
    {
        self.0 = bits::set_bit_range(self.0, 2, 1, value);
    }

    /// Bit 0: pace detect buffer on.
    pub fn pd_pace(&self) -> (r: bool)
        ensures
            r == get_bit(self.0, 0),
    {
        bits::bit(self.0, 0)
    }

    /// Sets bit 0: pace detect buffer on.
    pub fn set_pd_pace(&mut self, value: bool)
        ensures
            final(self).0 == set_bit(old(self).0, 0, value),
    {
        self.0 = bits::put_bit(self.0, 0, value);
    }
}

/// Respiration control register, address `16h`.
#[derive(Clone, Copy, Debug, PartialEq, Eq, Structural)]
pub struct RespReg(pub u8);

impl RespReg {
    /// Bit 7: respiration demodulation circuitry on.
    pub fn resp_demod_en1(&self) -> (r: bool)
        ensures
            r == get_bit(self.0, 7),
    {
        bits::bit(self.0, 7)
    }

    /// Sets bit 7: respiration demodulation circuitry on.
    pub fn set_resp_demod_en1(&mut self, value: bool)
        ensures
            final(self).0 == set_bit(old(self).0, 7, value),
    {
        self.0 = bits::put_bit(self.0, 7, value);
    }

    /// Bit 6: respiration modulation circuitry on.
    pub fn resp_mod_en1(&self) -> (r: bool)
        ensures
            r == get_bit(self.0, 6),
    {
        bits::bit(self.0, 6)
    }

    /// Sets bit 6: respiration modulation circuitry on.
    pub fn set_resp_mod_en1(&mut self, value: bool)
        ensures
            final(self).0 == set_bit(old(self).0, 6, value),
    {
        self.0 = bits::put_bit(self.0, 6, value);
    }

    /// Bit 5: reserved.
    pub fn rev_5(&self) -> (r: bool)
        ensures
            r == get_bit(self.0, 5),
    {
        bits::bit(self.0, 5)
    }

    /// Sets bit 5: reserved.
    pub fn set_rev_5(&mut self, value: bool)
        ensures
            final(self).0 == set_bit(old(self).0, 5, value),
    {
        self.0 = bits::put_bit(self.0, 5, value);
    }

    /// Bits 4 to 2: respiration phase.
    pub fn resp_phase(&self) -> (r: u8)
        ensures
            r == get_bits(self.0, 4, 2),
    {
        bits::bit_range(self.0, 4, 2)
    }

    /// Sets bits 4 to 2: respiration phase.
    pub fn set_resp_phase(&mut self, value: u8)
        ensures
            final(self).0 == set_bits(old(self).0, 4, 2, value),
    {
        self.0 = bits::set_bit_range(self.0, 4, 2, value);
    }

    /// Bits 1 to 0: respiration control mode.
    pub fn resp_ctrl(&self) -> (r: u8)
        ensures
            r == get_bits(self.0, 1, 0),
    {
        bits::bit_range(self.0, 1, 0)
    }

    /// Sets bits 1 to 0: respiration control mode.
    pub fn set_resp_ctrl(&mut self, value: u8)
        ensures
            final(self).0 == set_bits(old(self).0, 1, 0, value),
    {
        self.0 = bits::set_bit_range(self.0, 1, 0, value);
    }
}

/// Configuration register 4, address `17h`.
#[derive(Clone, Copy, Debug, PartialEq, Eq, Structural)]
pub struct Config4Reg(pub u8);

impl Config4Reg {
    /// Bits 7 to 5: respiration modulation frequency.
    pub fn resp_freq(&self) -> (r: u8)
        ensures
            r == get_bits(self.0, 7, 5),
    {
        bits::bit_range(self.0, 7, 5)
    }

    /// Sets bits 7 to 5: respiration modulation frequency.
    pub fn set_resp_freq(&mut self, value: u8)
        ensures
            final(self).0 == set_bits(old(self).0, 7, 5, value),
    {
        self.0 = bits::set_bit_range(self.0, 7, 5, value);
    }

    /// Bit 4: reserved.
    pub fn rev_4(&self) -> (r: bool)
        ensures
            r == get_bit(self.0, 4),
    {
        bits::bit(self.0, 4)
    }

    /// Sets bit 4: reserved.
    pub fn set_rev_4(&mut self, value: bool)
        ensures
            final(self).0 == set_bit(old(self).0, 4, value),
    {
        self.0 = bits::put_bit(self.0, 4, value);
    }

    /// Bit 3: single-shot (1) or continuous (0) conversion.
    pub fn single_shot(&self) -> (r: bool)
        ensures
            r == get_bit(self.0, 3),
    {
        bits::bit(self.0, 3)
    }

    /// Sets bit 3: single-shot (1) or continuous (0) conversion.
    pub fn set_single_shot(&mut self, value: bool)
        ensures
            final(self).0 == set_bit(old(self).0, 3, value),
    {
        self.0 = bits::put_bit(self.0, 3, value);
    }

    /// Bit 2: WCT connected to the RLD.
    pub fn wct_to_rld(&self) -> (r: bool)
        ensures
            r == get_bit(self.0, 2),
    {
        bits::bit(self.0, 2)
    }

    /// Sets bit 2: WCT connected to the RLD.
    pub fn set_wct_to_rld(&mut self, value: bool)
        ensures
            final(self).0 == set_bit(old(self).0, 2, value),
    {
        self.0 = bits::put_bit(self.0, 2, value);
    }

    /// Bit 1: lead-off comparators enabled (1) or powered down (0).
    pub fn pd_loff_comp(&self) -> (r: bool)
        ensures
            r == get_bit(self.0, 1),
    {
        bits::bit(self.0, 1)
    }

    /// Sets bit 1: lead-off comparators enabled (1) or powered down (0).
    pub fn set_pd_loff_comp(&mut self, value: bool)
        ensures
            final(self).0 == set_bit(old(self).0, 1, value),
    {
        self.0 = bits::put_bit(self.0, 1, value);
    }

    /// Bit 0: reserved.
    pub fn rev_0(&self) -> (r: bool)
        ensures
            r == get_bit(self.0, 0),
    {
        bits::bit(self.0, 0)
    }

    /// Sets bit 0: reserved.
    pub fn set_rev_0(&mut self, value: bool)
        ensures
            final(self).0 == set_bit(old(self).0, 0, value),
    {
        self.0 = bits::put_bit(self.0, 0, value);
    }
}

/// Wilson central terminal and augmented leads, address `18h`.
#[derive(Clone, Copy, Debug, PartialEq, Eq, Structural)]
pub struct Wct1Reg(pub u8);

impl Wct1Reg {
    /// Bit 7: augmented lead to the negative input of channel 6.
    pub fn a_vf_ch6(&self) -> (r: bool)
        ensures
            r == get_bit(self.0, 7),
    {
        bits::bit(self.0, 7)
    }

    /// Sets bit 7: augmented lead to the negative input of channel 6.
    pub fn set_a_vf_ch6(&mut self, value: bool)
        ensures
            final(self).0 == set_bit(old(self).0, 7, value),
    {
        self.0 = bits::put_bit(self.0, 7, value);
    }

    /// Bit 6: augmented lead to the negative input of channel 5.
    pub fn a_vl_ch5(&self) -> (r: bool)
        ensures
            r == get_bit(self.0, 6),
    {
        bits::bit(self.0, 6)
    }

    /// Sets bit 6: augmented lead to the negative input of channel 5.
    pub fn set_a_vl_ch5(&mut self, value: bool)
        ensures
            final(self).0 == set_bit(old(self).0, 6, value),
    {
        self.0 = bits::put_bit(self.0, 6, value);
    }

    /// Bit 5: augmented lead to the negative input of channel 7.
    pub fn a_vr_ch7(&self) -> (r: bool)
        ensures
            r == get_bit(self.0, 5),
    {
        bits::bit(self.0, 5)
    }

    /// Sets bit 5: augmented lead to the negative input of channel 7.
    pub fn set_a_vr_ch7(&mut self, value: bool)
        ensures
            final(self).0 == set_bit(old(self).0, 5, value),
    {
        self.0 = bits::put_bit(self.0, 5, value);
    }

    /// Bit 4: augmented lead to the negative input of channel 4.
    pub fn avr_ch4(&self) -> (r: bool)
        ensures
            r == get_bit(self.0, 4),
    {
        bits::bit(self.0, 4)
    }

    /// Sets bit 4: augmented lead to the negative input of channel 4.
    pub fn set_avr_ch4(&mut self, value: bool)
        ensures
            final(self).0 == set_bit(old(self).0, 4, value),
    {
        self.0 = bits::put_bit(self.0, 4, value);
    }

    /// Bit 3: WCT amplifier A powered up.
    pub fn pd_wtca(&self) -> (r: bool)
        ensures
            r == get_bit(self.0, 3),
    {
        bits::bit(self.0, 3)
    }

    /// Sets bit 3: WCT amplifier A powered up.
    pub fn set_pd_wtca(&mut self, value: bool)
        ensures
            final(self).0 == set_bit(old(self).0, 3, value),
    {
        self.0 = bits::put_bit(self.0, 3, value);
    }

    /// Bits 2 to 0: input that WCT amplifier A takes.
    pub fn wcta_channel(&self) -> (r: u8)
        ensures
            r == get_bits(self.0, 2, 0),
    {
        bits::bit_range(self.0, 2, 0)
    }

    /// Sets bits 2 to 0: input that WCT amplifier A takes.
    pub fn set_wcta_channel(&mut self, value: u8)
        ensures
            final(self).0 == set_bits(old(self).0, 2, 0, value),
    {
        self.0 = bits::set_bit_range(self.0, 2, 0, value);
    }
}

/// Wilson central terminal, address `19h`.
#[derive(Clone, Copy, Debug, PartialEq, Eq, Structural)]
pub struct Wct2Reg(pub u8);

impl Wct2Reg {
    /// Bit 7: WCT amplifier C powered up.
    pub fn pd_wctc(&self) -> (r: bool)
        ensures
            r == get_bit(self.0, 7),
    {
        bits::bit(self.0, 7)
    }

    /// Sets bit 7: WCT amplifier C powered up.
    pub fn set_pd_wctc(&mut self, value: bool)
        ensures
            final(self).0 == set_bit(old(self).0, 7, value),
    {
        self.0 = bits::put_bit(self.0, 7, value);
    }

    /// Bit 6: WCT amplifier B powered up.
    pub fn pd_wctb(&self) -> (r: bool)
        ensures
            r == get_bit(self.0, 6),
    {
        bits::bit(self.0, 6)
    }

    /// Sets bit 6: WCT amplifier B powered up.
    pub fn set_pd_wctb(&mut self, value: bool)
        ensures
            final(self).0 == set_bit(old(self).0, 6, value),
    {
        self.0 = bits::put_bit(self.0, 6, value);
    }

    /// Bits 5 to 3: input that WCT amplifier B takes.
    pub fn wctb_channel(&self) -> (r: u8)
        ensures
            r == get_bits(self.0, 5, 3),
    {
        bits::bit_range(self.0, 5, 3)
    }

    /// Sets bits 5 to 3: input that WCT amplifier B takes.
    pub fn set_wctb_channel(&mut self, value: u8)
        ensures
            final(self).0 == set_bits(old(self).0, 5, 3, value),
    {
        self.0 = bits::set_bit_range(self.0, 5, 3, value);
    }

    /// Bits 2 to 0: input that WCT amplifier C takes.
    pub fn wctc_channel(&self) -> (r: u8)
        ensures
            r == get_bits(self.0, 2, 0),
    {
        bits::bit_range(self.0, 2, 0)
    }

    /// Sets bits 2 to 0: input that WCT amplifier C takes.
    pub fn set_wctc_channel(&mut self, value: u8)
        ensures
            final(self).0 == set_bits(old(self).0, 2, 0, value),
    {
        self.0 = bits::set_bit_range(self.0, 2, 0, value);
    }
}

} // verus!
