use ads1298::driver::initialization::RegisterWrite;
use ads1298::driver::operator::Operation;
use ads1298::driver::operator::Operator;
use ads1298::driver::operator::U5;
use ads1298::driver::registers::access::ReadError;
use ads1298::driver::registers::access::WriteError;
use ads1298::driver::registers::data::ChSetReg;
use ads1298::driver::registers::data::Config1Reg;
use ads1298::driver::registers::data::IdReg;
use ads1298::driver::registers::data::LOffStatPReg;
use ads1298::driver::registers::value::RegisterValue;
use ads1298::driver::registers::Register;
use ads1298::driver::ADS1298;

#[test]
fn a_five_bit_number_keeps_its_value() {
    for value in 0u8..32 {
        assert_eq!(U5::new(value).value(), value);
    }
    assert_eq!(U5::new(7), U5::new(7));
    assert_ne!(U5::new(7), U5::new(8));
}

#[test]
fn the_device_holds_an_operator() {
    let device = ADS1298::new();
    assert_eq!(device.operator, Operator::new());
}

#[test]
fn a_value_goes_to_its_own_register() {
    let device = ADS1298::new();
    let t = device.write(RegisterValue::CONFIG1(Config1Reg(0x86)));
    assert_eq!(t.operations, vec![Operation::Write(vec![0x41, 0x00, 0x86])]);
    let t = device.write(RegisterValue::CH8SET(ChSetReg(0x20)));
    assert_eq!(t.operations, vec![Operation::Write(vec![0x4c, 0x00, 0x20])]);
    let t = device.write(RegisterValue::from_raw(Register::WCT2, 0x00));
    assert_eq!(t.operations, vec![Operation::Write(vec![0x59, 0x00, 0x00])]);
}

#[test]
fn a_read_asks_for_the_register() {
    let device = ADS1298::new();
    let t = device.read(Register::ID);
    assert_eq!(t.operations, vec![Operation::Transfer { read: 1, write: vec![0x20, 0x00] }]);
    let t = device.read(Register::LOFF_STATP);
    assert_eq!(t.operations, vec![Operation::Transfer { read: 1, write: vec![0x32, 0x00] }]);
}

#[test]
fn what_was_read_comes_back_as_the_value_of_the_register() {
    let device = ADS1298::new();
    let outcome: Result<Vec<u8>, &str> = Ok(vec![0x92]);
    let value = device.received(Register::ID, outcome).unwrap();
    assert_eq!(value, RegisterValue::ID(IdReg(0x92)));
    match value {
        RegisterValue::ID(id) => assert!(id.rev_4()),
        _ => panic!("not the ID register"),
    }
    let outcome: Result<Vec<u8>, &str> = Ok(vec![0x0f]);
    assert_eq!(
        device.received(Register::LOFF_STATP, outcome),
        Ok(RegisterValue::LOFF_STATP(LOffStatPReg(0x0f)))
    );
    let outcome: Result<Vec<u8>, &str> = Err("bus");
    assert_eq!(
        device.received(Register::ID, outcome),
        Err(ReadError::SpiTransferError("bus"))
    );
}

#[test]
fn the_end_of_a_write_is_told() {
    let device = ADS1298::new();
    let outcome: Result<Vec<u8>, &str> = Ok(vec![]);
    assert_eq!(device.written(outcome), Ok(()));
    let outcome: Result<Vec<u8>, &str> = Err("bus");
    assert_eq!(device.written(outcome), Err(WriteError::SpiTransferError("bus")));
}

#[test]
fn a_value_as_a_write_of_a_profile() {
    assert_eq!(
        RegisterValue::CONFIG1(Config1Reg(0x86)).write(),
        RegisterWrite { register: Register::CONFIG1, value: 0x86 }
    );
    assert_eq!(
        RegisterValue::CH3SET(ChSetReg(0x20)).write(),
        RegisterWrite { register: Register::CH3SET, value: 0x20 }
    );
}
