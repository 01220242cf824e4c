use ads1298::driver::operator::OpCode;
use ads1298::driver::operator::U5;

#[test]
fn single_byte_commands_have_their_fixed_bytes() {
    let table: Vec<(OpCode, u8)> = vec![
        (OpCode::WakeUp, 0x02),
        (OpCode::StandBy, 0x04),
        (OpCode::Reset, 0x06),
        (OpCode::Start, 0x08),
        (OpCode::Stop, 0x0a),
        (OpCode::RDataC, 0x10),
        (OpCode::SDataC, 0x11),
        (OpCode::RData, 0x12),
    ];
    for (op, byte) in table {
        let bytes: Vec<u8> = op.into();
        assert_eq!(bytes, vec![byte]);
    }
}

#[test]
fn register_commands_carry_address_and_count() {
    for address in 0u8..32 {
        for count in 0u8..32 {
            let read: Vec<u8> = OpCode::RReg { start: U5::new(address), n: U5::new(count) }.into();
            assert_eq!(read, vec![0b0010_0000 | address, count]);
            assert_eq!(read[0] & 0x1f, address);
            assert_eq!(read[0] >> 5, 0b001);
            let write: Vec<u8> = OpCode::WReg { start: U5::new(address), n: U5::new(count) }.into();
            assert_eq!(write, vec![0b0100_0000 | address, count]);
            assert_eq!(write[0] & 0x1f, address);
            assert_eq!(write[0] >> 5, 0b010);
        }
    }
}
