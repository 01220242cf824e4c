use ads1298::driver::registers::addressable::Addressable;
use ads1298::driver::registers::addressable::LAST_ADDRESS;
use ads1298::driver::registers::data::ChSetReg;
use ads1298::driver::registers::data::Config1Reg;
use ads1298::driver::registers::data::Config3Reg;
use ads1298::driver::registers::data::DataStatus1;
use ads1298::driver::registers::data::DataStatus2;
use ads1298::driver::registers::data::DataStatus3;
use ads1298::driver::registers::data::GpioReg;
use ads1298::driver::registers::data::IdReg;
use ads1298::driver::registers::data::LOffReg;
use ads1298::driver::registers::data::LOffSensPReg;
use ads1298::driver::registers::data::PaceReg;
use ads1298::driver::registers::data::RespReg;
use ads1298::driver::registers::data::Wct2Reg;
use ads1298::driver::registers::value::RegisterValue;
use ads1298::driver::registers::Register;
use ads1298::driver::registers::U24;

fn all_registers() -> Vec<Register> {
    vec![
        Register::ID,
        Register::CONFIG1,
        Register::CONFIG2,
        Register::CONFIG3,
        Register::LOFF,
        Register::CH1SET,
        Register::CH2SET,
        Register::CH3SET,
        Register::CH4SET,
        Register::CH5SET,
        Register::CH6SET,
        Register::CH7SET,
        Register::CH8SET,
        Register::RLD_SENSP,
        Register::RLD_SENSN,
        Register::LOFF_SENSP,
        Register::LOFF_SENSN,
        Register::LOFF_FLIP,
        Register::LOFF_STATP,
        Register::LOFF_STATN,
        Register::GPIO,
        Register::PACE,
        Register::RESP,
        Register::CONFIG4,
        Register::WCT1,
        Register::WCT2,
    ]
}

#[test]
fn registers_lie_at_0x00_to_0x19_in_order() {
    let registers = all_registers();
    assert_eq!(registers.len(), 26);
    for (at, register) in registers.iter().enumerate() {
        assert_eq!(register.get_address() as usize, at);
        assert!(register.get_address() <= LAST_ADDRESS);
    }
    assert_eq!(Register::ID.get_address(), 0x00);
    assert_eq!(Register::LOFF_SENSN.get_address(), 0x10);
    assert_eq!(Register::WCT2.get_address(), 0x19);
    assert_eq!(LAST_ADDRESS, 0x19);
}

#[test]
fn a_value_knows_its_register_and_its_byte() {
    for register in all_registers() {
        for raw in [0x00u8, 0x01, 0x5a, 0xff] {
            let value = RegisterValue::from_raw(register, raw);
            assert_eq!(value.register(), register);
            assert_eq!(value.raw(), raw);
        }
    }
    assert_eq!(RegisterValue::from_raw(Register::CH3SET, 0x20), RegisterValue::CH3SET(ChSetReg(0x20)));
}

#[test]
fn single_bits_read_as_the_byte_has_them() {
    for raw in 0u8..=255 {
        let id = IdReg(raw);
        assert_eq!(id.dev_id_0(), raw & 0x01 != 0);
        assert_eq!(id.dev_id_1(), raw & 0x02 != 0);
        assert_eq!(id.dev_id_2(), raw & 0x04 != 0);
        assert_eq!(id.rev_3(), raw & 0x08 != 0);
        assert_eq!(id.rev_4(), raw & 0x10 != 0);
        assert_eq!(id.dev_id_5(), raw & 0x20 != 0);
        assert_eq!(id.dev_id_6(), raw & 0x40 != 0);
        assert_eq!(id.dev_id_7(), raw & 0x80 != 0);
    }
}

#[test]
fn fields_read_as_the_byte_has_them() {
    for raw in 0u8..=255 {
        assert_eq!(Config1Reg(raw).dr(), raw & 0x07);
        assert_eq!(ChSetReg(raw).mux(), raw & 0x07);
        assert_eq!(ChSetReg(raw).gain(), (raw >> 4) & 0x07);
        assert_eq!(LOffReg(raw).comp_th(), raw >> 5);
        assert_eq!(LOffReg(raw).ilead_off(), (raw >> 2) & 0x03);
        assert_eq!(LOffReg(raw).flead_off(), raw & 0x03);
        assert_eq!(GpioReg(raw).gpio_d(), raw >> 4);
        assert_eq!(GpioReg(raw).gpio_c(), raw & 0x0f);
        assert_eq!(PaceReg(raw).pace_e(), (raw >> 3) & 0x03);
        assert_eq!(PaceReg(raw).pace_o(), (raw >> 1) & 0x03);
        assert_eq!(RespReg(raw).resp_phase(), (raw >> 2) & 0x07);
        assert_eq!(Wct2Reg(raw).wctb_channel(), (raw >> 3) & 0x07);
        assert_eq!(Wct2Reg(raw).wctc_channel(), raw & 0x07);
    }
}

#[test]
fn a_field_of_a_known_byte() {
    assert_eq!(ChSetReg(0x20).gain(), 2);
    assert_eq!(ChSetReg(0x20).mux(), 0);
    assert_eq!(Config1Reg(0x86).dr(), 6);
    assert!(Config1Reg(0x86).hr());
    assert!(!Config1Reg(0x86).daisy_en());
}

#[test]
fn writing_a_bit_changes_that_bit_only() {
    for raw in 0u8..=255 {
        let mut set = Config3Reg(raw);
        set.set_rld_meas(true);
        assert_eq!(set.0, raw | 0x10);
        assert!(set.rld_meas());
        let mut cleared = Config3Reg(raw);
        cleared.set_rld_meas(false);
        assert_eq!(cleared.0, raw & !0x10);
        assert!(!cleared.rld_meas());
        let mut top = Config1Reg(raw);
        top.set_hr(true);
        assert_eq!(top.0, raw | 0x80);
        let mut bottom = LOffSensPReg(raw);
        bottom.set_loff1p(false);
        assert_eq!(bottom.0, raw & !0x01);
    }
}

#[test]
fn writing_a_field_changes_that_field_only() {
    for raw in 0u8..=255 {
        for value in 0u8..=255 {
            let mut channel = ChSetReg(raw);
            channel.set_gain(value);
            assert_eq!(channel.0, (raw & !0x70) | ((value << 4) & 0x70));
            assert_eq!(channel.gain(), value & 0x07);
            assert_eq!(channel.mux(), raw & 0x07);
            assert_eq!(channel.pd(), raw & 0x80 != 0);
            let mut rate = Config1Reg(raw);
            rate.set_dr(value);
            assert_eq!(rate.0, (raw & !0x07) | (value & 0x07));
            let mut gpio = GpioReg(raw);
            gpio.set_gpio_d(value);
            assert_eq!(gpio.0, (raw & 0x0f) | (value << 4));
        }
    }
}

#[test]
fn a_value_built_field_by_field() {
    let mut config1 = Config1Reg(0);
    config1.set_hr(true);
    config1.set_dr(0b110);
    assert_eq!(config1.0, 0x86);
    let mut channel = ChSetReg(0);
    channel.set_mux(0b000);
    channel.set_gain(0b010);
    assert_eq!(channel.0, 0x20);
    let mut loff = LOffReg(0);
    loff.set_flead_off(0b11);
    loff.set_vlead_off_en(true);
    assert_eq!(loff.0, 0x13);
}

#[test]
fn status_bytes_show_the_electrodes() {
    let first = DataStatus1(0b1100_0101);
    assert!(first.prefix_7());
    assert!(first.prefix_6());
    assert!(!first.prefix_5());
    assert!(!first.prefix_4());
    assert!(!first.in8p_off());
    assert!(first.in7p_off());
    assert!(!first.in6p_off());
    assert!(first.in5p_off());
    let second = DataStatus2(0b1000_0001);
    assert!(second.in4p_off());
    assert!(!second.in1p_off());
    assert!(second.in5n_off());
    let third = DataStatus3(0b0001_1000);
    assert!(third.in1n_off());
    assert!(third.gpiod_4());
    assert!(!third.gpiod_1());
}

#[test]
fn a_sample_reads_as_twos_complement() {
    assert_eq!(U24::new(0).value(), 0);
    assert_eq!(U24::new(0).to_signed(), 0);
    assert_eq!(U24::new(1).to_signed(), 1);
    assert_eq!(U24::new(0x7f_ffff).to_signed(), 8_388_607);
    assert_eq!(U24::new(0x80_0000).to_signed(), -8_388_608);
    assert_eq!(U24::new(0xff_ffff).to_signed(), -1);
    assert_eq!(U24::new(0xff_ffff).value(), 0xff_ffff);
}
