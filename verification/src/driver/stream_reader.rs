//! Reading frames of data.
//!
//! A frame comes back from one `RDATA` transaction. Its first byte is what the
//! bus carried while the command went out; the fields follow one after the
//! other, each as wide as its kind says, the samples with their highest byte
//! first.

use byteorder::BigEndian;
use byteorder::ByteOrder;
use vstd::prelude::*;
use vstd::slice::slice_subrange;

use super::operator::read_data_plan;
use super::operator::Operator;
use super::operator::Transaction;
use super::registers::access::ReadError;
use super::registers::data::DataStatus;
use super::registers::data::DataStatus1;
use super::registers::data::DataStatus2;
use super::registers::data::DataStatus3;
use super::registers::DataRegister;
use super::registers::DataValue;
use super::registers::U24;
use super::StreamError;

verus! {

/// One field of a frame: which register it is and how many bytes it takes.
#[derive(Clone, Copy, Debug, PartialEq, Eq, Structural)]
pub struct FieldConfig {
    register: DataRegister,
    width: usize,
}

impl View for FieldConfig {
    type V = DataValue;

    /// The register of the field, with the value that the table gave it.
    closed spec fn view(&self) -> DataValue {
        self.register@
    }
}

impl FieldConfig {
    #[verifier::type_invariant]
    spec fn width_fits(&self) -> bool {
        self.width == self.register@.width()
    }

    /// A field for `register`, as wide as the register is. The value inside
    /// `register` stands for nothing: reading a frame fills it in.
    pub fn new(register: DataRegister) -> (r: FieldConfig)
        ensures
            r@ == register@,
    {
        FieldConfig { register, width: register.width() }
    }

    pub fn register(&self) -> (r: DataRegister)
        ensures
            r@ == self@,
    {
        self.register
    }

    pub fn width(&self) -> (w: usize)
        ensures
            w == self@.width(),
            1 <= w <= 3,
    {
        proof {
            use_type_invariant(self);
        }
        self.width
    }
}

/// The fields of `table` as plain values.
pub open spec fn table_view(table: Seq<FieldConfig>) -> Seq<DataValue> {
    Seq::new(table.len(), |i: int| table[i]@)
}

/// The registers of `fields` as plain values.
pub open spec fn fields_view(fields: Seq<DataRegister>) -> Seq<DataValue> {
    Seq::new(fields.len(), |i: int| fields[i]@)
}

/// Where the field at `index` begins in a frame: behind the first byte and
/// the fields before it. With the length of the table for `index`, where the
/// frame ends.
pub open spec fn offset(table: Seq<DataValue>, index: int) -> int
    decreases index,
{
    if index <= 0 {
        1
    } else {
        offset(table, index - 1) + table[index - 1].width()
    }
}

/// The length of a frame: one byte and the widths of the fields.
pub open spec fn frame_len(table: Seq<DataValue>) -> int {
    offset(table, table.len() as int)
}

/// The number that three bytes spell, the highest byte first.
pub open spec fn big_endian_24(window: Seq<u8>) -> int {
    window[0] * 0x1_0000 + window[1] * 0x100 + window[2]
}

/// What the field `field` holds when `window` are its bytes in the frame.
pub open spec fn decode_field(field: DataValue, window: Seq<u8>) -> DataValue {
    match field {
        DataValue::Status(_, _, _) => DataValue::Status(window[0], window[1], window[2]),
        DataValue::Status1(_) => DataValue::Status1(window[0]),
        DataValue::Status2(_) => DataValue::Status2(window[0]),
        DataValue::Status3(_) => DataValue::Status3(window[0]),
        DataValue::Channel { channel, .. } => DataValue::Channel {
            channel,
            sample: big_endian_24(window) as u32,
        },
    }
}

/// The bytes of the field at `index` in `frame`.
pub open spec fn window(table: Seq<DataValue>, frame: Seq<u8>, index: int) -> Seq<u8> {
    frame.subrange(offset(table, index), offset(table, index) + table[index].width())
}

/// What `frame` holds, field by field in the order of `table`.
pub open spec fn decode_frame(table: Seq<DataValue>, frame: Seq<u8>) -> Seq<DataValue> {
    Seq::new(table.len(), |i: int| decode_field(table[i], window(table, frame, i)))
}

/// The fields lie one behind the other: none begins before the one before it
/// ends, and the last one ends where the frame ends.
pub proof fn lemma_fields_lie_in_order(table: Seq<DataValue>, i: int, j: int)
    requires
        0 <= i <= j <= table.len(),
    ensures
        1 <= offset(table, i) <= offset(table, j) <= frame_len(table),
        i < j ==> offset(table, i) + table[i].width() <= offset(table, j),
        offset(table, j) <= 1 + 3 * j,
{
    lemma_offset_grows(table, 0, i);
    lemma_offset_grows(table, i, j);
    lemma_offset_grows(table, j, table.len() as int);
    lemma_offset_grows(table, 0, j);
}

proof fn lemma_offset_grows(table: Seq<DataValue>, i: int, j: int)
    requires
        0 <= i <= j,
    ensures
        offset(table, i) <= offset(table, j) <= offset(table, i) + 3 * (j - i),
        i < j ==> offset(table, i) + table[i].width() <= offset(table, j),
    decreases j - i,
{
    if i < j {
        lemma_offset_grows(table, i, j - 1);
    }
}

/// Reading depends on nothing but the table and the bytes behind the first:
/// frames that agree there read alike, and so does one frame read twice.
pub proof fn lemma_same_bytes_same_fields(table: Seq<DataValue>, a: Seq<u8>, b: Seq<u8>)
    requires
        a.len() == frame_len(table),
        b.len() == frame_len(table),
        forall|k: int| 1 <= k < a.len() ==> a[k] == b[k],
    ensures
        decode_frame(table, a) == decode_frame(table, b),
{
    assert forall|i: int| 0 <= i < table.len() implies window(table, a, i) == window(
        table,
        b,
        i,
    ) by {
        lemma_fields_lie_in_order(table, i, i + 1);
        lemma_fields_lie_in_order(table, i + 1, table.len() as int);
        assert(window(table, a, i) =~= window(table, b, i));
    }
    assert(decode_frame(table, a) =~= decode_frame(table, b));
}

/// Reads a 24-bit number, the highest byte first.
///
/// Calls `byteorder::BigEndian::read_u24`, which takes the first three bytes
/// of the slice as the low three bytes of a big-endian integer; it panics on
/// a slice of fewer than three bytes.
#[verifier::external_body]
fn read_u24(raw: &[u8]) -> (value: u32)
    requires
        raw@.len() >= 3,
    ensures
        value == big_endian_24(raw@),
{
    BigEndian::read_u24(raw)
}

/// The table of the frames that the device sends with channels 1 to 6 on:
/// the three bytes of the status word and the six samples.
pub open spec fn loop_read_back_table() -> Seq<DataValue> {
    seq![
        DataValue::Status1(0),
        DataValue::Status2(0),
        DataValue::Status3(0),
        DataValue::Channel { channel: 1, sample: 0 },
        DataValue::Channel { channel: 2, sample: 0 },
        DataValue::Channel { channel: 3, sample: 0 },
        DataValue::Channel { channel: 4, sample: 0 },
        DataValue::Channel { channel: 5, sample: 0 },
        DataValue::Channel { channel: 6, sample: 0 },
    ]
}

/// Such a frame takes 22 bytes.
pub proof fn lemma_loop_read_back_frame_len()
    ensures
        frame_len(loop_read_back_table()) == 22,
{
    reveal_with_fuel(offset, 10);
}

/// The table of [`loop_read_back_table`].
pub fn loop_read_back_fields() -> (table: Vec<FieldConfig>)
    ensures
        table_view(table@) == loop_read_back_table(),
        table@.len() == 9,
{
    let table: Vec<FieldConfig> = vec![
        FieldConfig::new(DataRegister::DATA_STATUS_1(DataStatus1(0))),
        FieldConfig::new(DataRegister::DATA_STATUS_2(DataStatus2(0))),
        FieldConfig::new(DataRegister::DATA_STATUS_3(DataStatus3(0))),
        FieldConfig::new(DataRegister::DATA_CH1(U24::new(0))),
        FieldConfig::new(DataRegister::DATA_CH2(U24::new(0))),
        FieldConfig::new(DataRegister::DATA_CH3(U24::new(0))),
        FieldConfig::new(DataRegister::DATA_CH4(U24::new(0))),
        FieldConfig::new(DataRegister::DATA_CH5(U24::new(0))),
        FieldConfig::new(DataRegister::DATA_CH6(U24::new(0))),
    ];
    assert(table_view(table@) =~= seq![
        DataValue::Status1(0),
        DataValue::Status2(0),
        DataValue::Status3(0),
        DataValue::Channel { channel: 1, sample: 0 },
        DataValue::Channel { channel: 2, sample: 0 },
        DataValue::Channel { channel: 3, sample: 0 },
        DataValue::Channel { channel: 4, sample: 0 },
        DataValue::Channel { channel: 5, sample: 0 },
        DataValue::Channel { channel: 6, sample: 0 },
    ]);
    table
}

/// Reads frames of data after one table of fields.
#[derive(Debug, PartialEq, Eq)]
pub struct StreamReader {
    fields: Vec<FieldConfig>,
    len: usize,
}

impl StreamReader {
    #[verifier::type_invariant]
    spec fn len_fits(&self) -> bool {
        self.len == frame_len(table_view(self.fields@))
    }

    /// The table of fields.
    pub closed spec fn table(&self) -> Seq<DataValue> {
        table_view(self.fields@)
    }

    /// A reader for frames that hold `fields` in this order. The length of
    /// the frame is settled here, once.
    pub fn new(fields: Vec<FieldConfig>) -> (r: StreamReader)
        requires
            1 + 3 * fields@.len() <= usize::MAX,
        ensures
            r.table() == table_view(fields@),
    {
        let ghost table = table_view(fields@);
        let mut len: usize = 1;
        let mut i: usize = 0;
        while i < fields.len()
            invariant
                i <= fields@.len(),
                table == table_view(fields@),
                len == offset(table, i as int),
                1 + 3 * fields@.len() <= usize::MAX,
            decreases fields@.len() - i,
        {
            proof {
                lemma_fields_lie_in_order(table, i as int, i + 1);
                lemma_fields_lie_in_order(table, i + 1, table.len() as int);
            }
            assert(table[i as int] == fields@[i as int]@);
            len = len + fields[i].width();
            i += 1;
        }
        StreamReader { fields, len }
    }

    /// The length of a frame: one byte and the widths of the fields.
    pub fn frame_len(&self) -> (len: usize)
        ensures
            len == frame_len(self.table()),
    {
        proof {
            use_type_invariant(self);
        }
        self.len
    }

    /// The transaction that brings one frame.
    pub fn request(&self) -> (t: Transaction)
        ensures
            t@ == read_data_plan(frame_len(self.table()) as nat),
    {
        proof {
            use_type_invariant(self);
            lemma_fields_lie_in_order(self.table(), 0, 0);
        }
        Operator::new().read_single_data(self.len)
    }

    /// Takes the fields out of the frame that the transaction of
    /// [`StreamReader::request`] brought, or tells that the bus failed.
    ///
    /// Before the transaction the device must have told that data is ready.
    pub fn read<E>(&self, outcome: Result<Vec<u8>, E>) -> (r: Result<
        Vec<DataRegister>,
        StreamError<E>,
    >)
        requires
            outcome matches Ok(frame) ==> frame@.len() == frame_len(self.table()),
        ensures
            match outcome {
                Ok(frame) => r matches Ok(fields) && fields_view(fields@) == decode_frame(
                    self.table(),
                    frame@,
                ),
                Err(e) => r matches Err(error) && error == StreamError::StreamingAbort(
                    ReadError::SpiTransferError(e),
                ),
            },
    {
        let frame = match outcome {
            Ok(frame) => frame,
            Err(e) => {
                return Err(StreamError::StreamingAbort(ReadError::SpiTransferError(e)));
            },
        };
        let ghost table = self.table();
        let frame_length = frame.len();
        let mut result: Vec<DataRegister> = Vec::new();
        let mut cursor: usize = 1;
        let mut i: usize = 0;
        while i < self.fields.len()
            invariant
                i <= self.fields@.len(),
                table == table_view(self.fields@),
                frame@.len() == frame_len(table),
                frame@.len() == frame_length,
                cursor == offset(table, i as int),
                result@.len() == i,
                forall|j: int|
                    0 <= j < i ==> (#[trigger] result@[j])@ == decode_field(
                        table[j],
                        window(table, frame@, j),
                    ),
            decreases self.fields@.len() - i,
        {
            let field = &self.fields[i];
            proof {
                lemma_fields_lie_in_order(table, i as int, i + 1);
                lemma_fields_lie_in_order(table, i + 1, table.len() as int);
            }
            assert(table[i as int] == field@);
            let end = cursor + field.width();
            let raw = slice_subrange(frame.as_slice(), cursor, end);
            assert(raw@ == window(table, frame@, i as int));
            let value = match field.register() {
                DataRegister::DATA_STATUS(_) => DataRegister::DATA_STATUS(
                    DataStatus {
                        ds1: DataStatus1(raw[0]),
                        ds2: DataStatus2(raw[1]),
                        ds3: DataStatus3(raw[2]),
                    },
                ),
                DataRegister::DATA_STATUS_1(_) => DataRegister::DATA_STATUS_1(DataStatus1(raw[0])),
                DataRegister::DATA_STATUS_2(_) => DataRegister::DATA_STATUS_2(DataStatus2(raw[0])),
                DataRegister::DATA_STATUS_3(_) => DataRegister::DATA_STATUS_3(DataStatus3(raw[0])),
                DataRegister::DATA_CH1(_) => DataRegister::DATA_CH1(U24::new(read_u24(raw))),
                DataRegister::DATA_CH2(_) => DataRegister::DATA_CH2(U24::new(read_u24(raw))),
                DataRegister::DATA_CH3(_) => DataRegister::DATA_CH3(U24::new(read_u24(raw))),
                DataRegister::DATA_CH4(_) => DataRegister::DATA_CH4(U24::new(read_u24(raw))),
                DataRegister::DATA_CH5(_) => DataRegister::DATA_CH5(U24::new(read_u24(raw))),
                DataRegister::DATA_CH6(_) => DataRegister::DATA_CH6(U24::new(read_u24(raw))),
                DataRegister::DATA_CH7(_) => DataRegister::DATA_CH7(U24::new(read_u24(raw))),
                DataRegister::DATA_CH8(_) => DataRegister::DATA_CH8(U24::new(read_u24(raw))),
            };
            result.push(value);
            cursor = end;
            i += 1;
        }
        assert(fields_view(result@) =~= decode_frame(table, frame@));
        Ok(result)
    }
}

} // verus!
