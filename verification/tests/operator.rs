use ads1298::driver::operator::Operation;
use ads1298::driver::operator::Operator;
use ads1298::driver::operator::Transaction;
use ads1298::driver::operator::RESET_CYCLES;
use ads1298::driver::operator::START_CYCLES;
use ads1298::driver::operator::STOP_STREAM_CYCLES;
use ads1298::driver::operator::TCLK_2_048M;
use ads1298::driver::operator::WAKE_UP_CYCLES;
use ads1298::driver::registers::access::ReadError;
use ads1298::driver::registers::access::WriteError;

fn delays(transaction: &Transaction) -> Vec<(usize, u32)> {
    let mut found = Vec::new();
    for (at, operation) in transaction.operations.iter().enumerate() {
        if let Operation::DelayNs(ns) = operation {
            found.push((at, *ns));
        }
    }
    found
}

#[test]
fn write_sends_header_and_byte_in_one_operation() {
    let t = Operator::new().write(0x01, 0x86);
    assert_eq!(t.operations, vec![Operation::Write(vec![0x41, 0x00, 0x86])]);
}

#[test]
fn write_to_the_highest_address() {
    let t = Operator::new().write(31, 0xff);
    assert_eq!(t.operations, vec![Operation::Write(vec![0x5f, 0x00, 0xff])]);
}

#[test]
fn read_takes_one_byte_while_the_header_goes_out() {
    let t = Operator::new().read(0x00);
    assert_eq!(t.operations, vec![Operation::Transfer { read: 1, write: vec![0x20, 0x00] }]);
    let t = Operator::new().read(0x19);
    assert_eq!(t.operations, vec![Operation::Transfer { read: 1, write: vec![0x39, 0x00] }]);
}

#[test]
fn stream_puts_the_command_in_the_first_byte() {
    let t = Operator::new().stream(0x05, vec![0xaa, 0xbb, 0xcc]);
    assert_eq!(t.operations, vec![Operation::TransferInPlace(vec![0x85, 0xbb, 0xcc])]);
    let t = Operator::new().stream(0x00, vec![0x00]);
    assert_eq!(t.operations, vec![Operation::TransferInPlace(vec![0x80])]);
}

#[test]
fn streamed_drops_the_first_byte() {
    let operator = Operator::new();
    let outcome: Result<Vec<u8>, u8> = Ok(vec![0x85, 1, 2, 3]);
    assert_eq!(operator.streamed(outcome), Ok(vec![1, 2, 3]));
    let outcome: Result<Vec<u8>, u8> = Ok(vec![0x85]);
    assert_eq!(operator.streamed(outcome), Ok(vec![]));
    let outcome: Result<Vec<u8>, u8> = Err(7);
    assert_eq!(operator.streamed(outcome), Err(ReadError::SpiTransferError(7)));
}

#[test]
fn read_single_data_asks_for_a_frame() {
    let t = Operator::new().read_single_data(22);
    assert_eq!(t.operations, vec![Operation::Transfer { read: 22, write: vec![0x12] }]);
}

#[test]
fn wake_up_waits_four_cycles() {
    let t = Operator::new().wake_up();
    assert_eq!(t.operations, vec![Operation::Write(vec![0x02]), Operation::DelayNs(2000)]);
    assert_eq!(delays(&t), vec![(1, TCLK_2_048M * WAKE_UP_CYCLES)]);
}

#[test]
fn reset_waits_eighteen_cycles() {
    let t = Operator::new().reset();
    assert_eq!(t.operations, vec![Operation::Write(vec![0x06]), Operation::DelayNs(9000)]);
    assert_eq!(delays(&t), vec![(1, TCLK_2_048M * RESET_CYCLES)]);
}

#[test]
fn start_waits_four_cycles() {
    let t = Operator::new().start();
    assert_eq!(t.operations, vec![Operation::Write(vec![0x08]), Operation::DelayNs(2000)]);
    assert_eq!(delays(&t), vec![(1, TCLK_2_048M * START_CYCLES)]);
}

#[test]
fn stop_stream_waits_four_cycles() {
    let t = Operator::new().stop_stream();
    assert_eq!(t.operations, vec![Operation::Write(vec![0x11]), Operation::DelayNs(2000)]);
    assert_eq!(delays(&t), vec![(1, TCLK_2_048M * STOP_STREAM_CYCLES)]);
}

#[test]
fn the_delay_is_the_last_operation() {
    let operator = Operator::new();
    for t in [operator.wake_up(), operator.reset(), operator.start(), operator.stop_stream()] {
        let found = delays(&t);
        assert_eq!(found.len(), 1);
        assert_eq!(found[0].0, t.operations.len() - 1);
    }
}

#[test]
fn stand_by_and_stop_do_not_wait() {
    let t = Operator::new().stand_by();
    assert_eq!(t.operations, vec![Operation::Write(vec![0x04])]);
    let t = Operator::new().stop();
    assert_eq!(t.operations, vec![Operation::Write(vec![0x0a])]);
}

#[test]
fn clock_period_is_500_ns() {
    assert_eq!(TCLK_2_048M, 500);
    assert_eq!(WAKE_UP_CYCLES, 4);
    assert_eq!(RESET_CYCLES, 18);
    assert_eq!(START_CYCLES, 4);
    assert_eq!(STOP_STREAM_CYCLES, 4);
}

#[test]
fn written_maps_the_bus_error() {
    let operator = Operator::new();
    let outcome: Result<Vec<u8>, &str> = Ok(vec![]);
    assert_eq!(operator.written(outcome), Ok(()));
    let outcome: Result<Vec<u8>, &str> = Err("bus");
    assert_eq!(operator.written(outcome), Err(WriteError::SpiTransferError("bus")));
}

#[test]
fn received_gives_the_byte_or_the_bus_error() {
    let operator = Operator::new();
    let outcome: Result<Vec<u8>, &str> = Ok(vec![0x92]);
    assert_eq!(operator.received(outcome), Ok(0x92));
    let outcome: Result<Vec<u8>, &str> = Err("bus");
    assert_eq!(operator.received(outcome), Err(ReadError::SpiTransferError("bus")));
}
