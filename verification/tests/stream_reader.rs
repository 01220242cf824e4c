use ads1298::driver::operator::Operation;
use ads1298::driver::registers::access::ReadError;
use ads1298::driver::registers::data::DataStatus;
use ads1298::driver::registers::data::DataStatus1;
use ads1298::driver::registers::data::DataStatus2;
use ads1298::driver::registers::data::DataStatus3;
use ads1298::driver::registers::DataRegister;
use ads1298::driver::registers::U24;
use ads1298::driver::stream_reader::loop_read_back_fields;
use ads1298::driver::stream_reader::FieldConfig;
use ads1298::driver::stream_reader::StreamReader;
use ads1298::driver::StreamError;
use ads1298::driver::ADS1298;

fn counting_frame() -> Vec<u8> {
    (0u8..22).collect()
}

fn sample(register: &DataRegister) -> u32 {
    match register {
        DataRegister::DATA_CH1(v)
        | DataRegister::DATA_CH2(v)
        | DataRegister::DATA_CH3(v)
        | DataRegister::DATA_CH4(v)
        | DataRegister::DATA_CH5(v)
        | DataRegister::DATA_CH6(v)
        | DataRegister::DATA_CH7(v)
        | DataRegister::DATA_CH8(v) => v.value(),
        _ => panic!("not a channel"),
    }
}

#[test]
fn the_fixed_table_has_three_status_bytes_and_six_channels() {
    let table = loop_read_back_fields();
    assert_eq!(table.len(), 9);
    let widths: Vec<usize> = table.iter().map(|field| field.width()).collect();
    assert_eq!(widths, vec![1, 1, 1, 3, 3, 3, 3, 3, 3]);
    assert_eq!(table[0].register(), DataRegister::DATA_STATUS_1(DataStatus1(0)));
    assert_eq!(table[1].register(), DataRegister::DATA_STATUS_2(DataStatus2(0)));
    assert_eq!(table[2].register(), DataRegister::DATA_STATUS_3(DataStatus3(0)));
    assert_eq!(table[3].register(), DataRegister::DATA_CH1(U24::new(0)));
    assert_eq!(table[8].register(), DataRegister::DATA_CH6(U24::new(0)));
}

#[test]
fn a_frame_is_one_byte_longer_than_its_fields() {
    let reader = StreamReader::new(loop_read_back_fields());
    assert_eq!(reader.frame_len(), 22);
    let reader = StreamReader::new(vec![]);
    assert_eq!(reader.frame_len(), 1);
    let reader = StreamReader::new(vec![FieldConfig::new(DataRegister::DATA_CH8(U24::new(0)))]);
    assert_eq!(reader.frame_len(), 4);
}

#[test]
fn the_request_reads_a_whole_frame() {
    let reader = StreamReader::new(loop_read_back_fields());
    let request = reader.request();
    assert_eq!(request.operations, vec![Operation::Transfer { read: 22, write: vec![0x12] }]);
}

#[test]
fn fields_come_in_table_order_each_at_its_place() {
    let reader = StreamReader::new(loop_read_back_fields());
    let outcome: Result<Vec<u8>, ()> = Ok(counting_frame());
    let fields = reader.read(outcome).unwrap();
    assert_eq!(
        fields,
        vec![
            DataRegister::DATA_STATUS_1(DataStatus1(1)),
            DataRegister::DATA_STATUS_2(DataStatus2(2)),
            DataRegister::DATA_STATUS_3(DataStatus3(3)),
            DataRegister::DATA_CH1(U24::new(0x04_05_06)),
            DataRegister::DATA_CH2(U24::new(0x07_08_09)),
            DataRegister::DATA_CH3(U24::new(0x0a_0b_0c)),
            DataRegister::DATA_CH4(U24::new(0x0d_0e_0f)),
            DataRegister::DATA_CH5(U24::new(0x10_11_12)),
            DataRegister::DATA_CH6(U24::new(0x13_14_15)),
        ]
    );
}

#[test]
fn samples_are_big_endian() {
    let reader = StreamReader::new(vec![FieldConfig::new(DataRegister::DATA_CH1(U24::new(0)))]);
    let one: Result<Vec<u8>, ()> = Ok(vec![0x12, 0x00, 0x00, 0x01]);
    let fields = reader.read(one).unwrap();
    assert_eq!(fields, vec![DataRegister::DATA_CH1(U24::new(1))]);
    assert_eq!(sample(&fields[0]), 1);
    let high: Result<Vec<u8>, ()> = Ok(vec![0x12, 0x01, 0x00, 0x00]);
    assert_eq!(sample(&reader.read(high).unwrap()[0]), 65_536);
    let mixed: Result<Vec<u8>, ()> = Ok(vec![0x12, 0x12, 0x34, 0x56]);
    assert_eq!(sample(&reader.read(mixed).unwrap()[0]), 0x12_34_56);
}

#[test]
fn all_ones_is_the_reading_minus_one() {
    let reader = StreamReader::new(vec![FieldConfig::new(DataRegister::DATA_CH3(U24::new(0)))]);
    let outcome: Result<Vec<u8>, ()> = Ok(vec![0x00, 0xff, 0xff, 0xff]);
    let fields = reader.read(outcome).unwrap();
    assert_eq!(fields, vec![DataRegister::DATA_CH3(U24::new(0xff_ffff))]);
    match fields[0] {
        DataRegister::DATA_CH3(v) => assert_eq!(v.to_signed(), -1),
        _ => panic!("not channel 3"),
    }
    let lowest: Result<Vec<u8>, ()> = Ok(vec![0x00, 0x80, 0x00, 0x00]);
    match reader.read(lowest).unwrap()[0] {
        DataRegister::DATA_CH3(v) => assert_eq!(v.to_signed(), -8_388_608),
        _ => panic!("not channel 3"),
    }
}

#[test]
fn the_first_byte_of_a_frame_is_no_field() {
    let reader = StreamReader::new(loop_read_back_fields());
    let mut frame = counting_frame();
    let outcome: Result<Vec<u8>, ()> = Ok(frame.clone());
    let before = reader.read(outcome).unwrap();
    frame[0] = 0xee;
    let outcome: Result<Vec<u8>, ()> = Ok(frame);
    assert_eq!(reader.read(outcome).unwrap(), before);
}

#[test]
fn reading_a_frame_twice_gives_the_same_fields() {
    let reader = StreamReader::new(loop_read_back_fields());
    let mut frame = vec![0xffu8; 22];
    frame[5] = 0x7f;
    frame[21] = 0x01;
    let first: Result<Vec<u8>, ()> = Ok(frame.clone());
    let second: Result<Vec<u8>, ()> = Ok(frame.clone());
    let a = reader.read(first).unwrap();
    let b = reader.read(second).unwrap();
    assert_eq!(a, b);
    assert_eq!(a.len(), 9);
    assert_eq!(a[0], DataRegister::DATA_STATUS_1(DataStatus1(0xff)));
    assert_eq!(sample(&a[3]), 0xff_7f_ff);
    assert_eq!(sample(&a[8]), 0xff_ff_01);
}

#[test]
fn a_table_in_another_order() {
    let reader = StreamReader::new(vec![
        FieldConfig::new(DataRegister::DATA_CH8(U24::new(0))),
        FieldConfig::new(DataRegister::DATA_STATUS_3(DataStatus3(0))),
        FieldConfig::new(DataRegister::DATA_CH7(U24::new(5))),
    ]);
    assert_eq!(reader.frame_len(), 8);
    let outcome: Result<Vec<u8>, ()> = Ok(vec![9, 0, 0, 8, 0x31, 0, 7, 0]);
    assert_eq!(
        reader.read(outcome).unwrap(),
        vec![
            DataRegister::DATA_CH8(U24::new(8)),
            DataRegister::DATA_STATUS_3(DataStatus3(0x31)),
            DataRegister::DATA_CH7(U24::new(0x0700)),
        ]
    );
}

#[test]
fn the_status_word_as_one_field() {
    let template = DataStatus { ds1: DataStatus1(0), ds2: DataStatus2(0), ds3: DataStatus3(0) };
    let field = FieldConfig::new(DataRegister::DATA_STATUS(template));
    assert_eq!(field.width(), 3);
    let reader = StreamReader::new(vec![field, FieldConfig::new(DataRegister::DATA_CH1(U24::new(0)))]);
    assert_eq!(reader.frame_len(), 7);
    let outcome: Result<Vec<u8>, ()> = Ok(vec![0x12, 0xc0, 0x01, 0x02, 0x00, 0x00, 0x2a]);
    assert_eq!(
        reader.read(outcome).unwrap(),
        vec![
            DataRegister::DATA_STATUS(DataStatus {
                ds1: DataStatus1(0xc0),
                ds2: DataStatus2(0x01),
                ds3: DataStatus3(0x02),
            }),
            DataRegister::DATA_CH1(U24::new(42)),
        ]
    );
}

#[test]
fn a_failing_bus_aborts_the_stream() {
    let reader = StreamReader::new(loop_read_back_fields());
    let outcome: Result<Vec<u8>, &str> = Err("bus");
    assert_eq!(
        reader.read(outcome),
        Err(StreamError::StreamingAbort(ReadError::SpiTransferError("bus")))
    );
}

#[test]
fn the_device_hands_out_a_reader_for_six_channels() {
    let mut device = ADS1298::new();
    let reader: Result<StreamReader, StreamError<()>> = device.stream_reader();
    let reader = reader.unwrap();
    assert_eq!(reader.frame_len(), 22);
    assert_eq!(reader, StreamReader::new(loop_read_back_fields()));
}
