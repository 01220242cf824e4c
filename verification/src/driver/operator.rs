//! The command set of the device and the bus transactions that carry it.
//!
//! Nothing here touches a bus. A [`Transaction`] lists, in order, what has to
//! happen on the bus while the device stays selected; the caller runs it and
//! hands back what it read.

use vstd::prelude::*;

use super::registers::access::ReadError;
use super::registers::access::WriteError;
use super::registers::addressable::Address;

verus! {

/// Time that one clock cycle takes at 2.048 MHz, in nanoseconds.
pub const TCLK_2_048M: u32 = 500;

/// Clock cycles the device needs after `WAKEUP`.
pub const WAKE_UP_CYCLES: u32 = 4;

/// Clock cycles the device needs after `RESET`.
pub const RESET_CYCLES: u32 = 18;

/// Clock cycles the device needs after `START`.
pub const START_CYCLES: u32 = 4;

/// Clock cycles the device needs after `SDATAC`.
pub const STOP_STREAM_CYCLES: u32 = 4;

/// A five-bit unsigned integer: a register address or a register count.
#[derive(Clone, Copy, Debug, PartialEq, Eq, Structural)]
pub struct U5 {
    value: u8,
}

impl U5 {
    #[verifier::type_invariant]
    spec fn in_range(self) -> bool {
        self.value <= 31
    }

    /// The number that `self` stands for.
    pub closed spec fn view(self) -> u8 {
        self.value
    }

    /// Whether the number fits in five bits. Every `U5` that a program holds
    /// does.
    pub open spec fn valid(self) -> bool {
        self@ <= 31
    }

    pub fn new(value: u8) -> (r: U5)
        requires
            value <= 31,
        ensures
            r@ == value,
            r.valid(),
    {
        U5 { value }
    }

    pub fn value(self) -> (r: u8)
        ensures
            r == self@,
            r <= 31,
    {
        proof {
            use_type_invariant(self);
        }
        self.value
    }
}

/// The commands of the device.
#[derive(Clone, Copy, Debug, PartialEq, Eq, Structural)]
pub enum OpCode {
    /// Leave standby mode.
    WakeUp,
    /// Enter standby mode.
    StandBy,
    /// Reset the device.
    Reset,
    /// Start or restart conversions.
    Start,
    /// Stop conversions.
    Stop,
    /// Enable continuous data read mode, the mode after power-up.
    RDataC,
    /// Stop continuous data read mode.
    SDataC,
    /// Read one frame of data by command.
    RData,
    /// Read `n + 1` registers, the first at address `start`.
    RReg { start: U5, n: U5 },
    /// Write `n + 1` registers, the first at address `start`.
    WReg { start: U5, n: U5 },
}

impl OpCode {
    /// Whether the address and the count, where the command has them, fit in
    /// five bits each.
    pub open spec fn valid(self) -> bool {
        match self {
            OpCode::RReg { start, n } => start.valid() && n.valid(),
            OpCode::WReg { start, n } => start.valid() && n.valid(),
            _ => true,
        }
    }

    /// The bytes that stand for the command on the wire.
    pub open spec fn bytes(self) -> Seq<u8> {
        match self {
            OpCode::WakeUp => seq![0x02u8],
            OpCode::StandBy => seq![0x04u8],
            OpCode::Reset => seq![0x06u8],
            OpCode::Start => seq![0x08u8],
            OpCode::Stop => seq![0x0au8],
            OpCode::RDataC => seq![0x10u8],
            OpCode::SDataC => seq![0x11u8],
            OpCode::RData => seq![0x12u8],
            OpCode::RReg { start, n } => seq![(0x20 + start@) as u8, n@],
            OpCode::WReg { start, n } => seq![(0x40 + start@) as u8, n@],
        }
    }

    /// A command that reads or writes registers takes two bytes. The low five
    /// bits of the first are the start address and its high three bits tell
    /// reading (`001`) from writing (`010`); the second byte is the count.
    pub proof fn lemma_register_header(self)
        requires
            self is RReg || self is WReg,
            self.valid(),
        ensures
            self.bytes().len() == 2,
            self matches OpCode::RReg { start, n } ==> {
                &&& self.bytes()[0] % 32 == start@
                &&& self.bytes()[0] / 32 == 0b001
                &&& self.bytes()[0] & 0x1f == start@
                &&& self.bytes()[0] >> 5 == 0b001
                &&& self.bytes()[1] == n@
            },
            self matches OpCode::WReg { start, n } ==> {
                &&& self.bytes()[0] % 32 == start@
                &&& self.bytes()[0] / 32 == 0b010
                &&& self.bytes()[0] & 0x1f == start@
                &&& self.bytes()[0] >> 5 == 0b010
                &&& self.bytes()[1] == n@
            },
    {
        let first = self.bytes()[0];
        match self {
            OpCode::RReg { start, n } => {
                let s = start@;
                assert(first == 0x20 + s);
                assert(first & 0x1f == s && first >> 5 == 0b001) by (bit_vector)
                    requires
                        first == 0x20 + s,
                        s <= 31,
                ;
            },
            OpCode::WReg { start, n } => {
                let s = start@;
                assert(first == 0x40 + s);
                assert(first & 0x1f == s && first >> 5 == 0b010) by (bit_vector)
                    requires
                        first == 0x40 + s,
                        s <= 31,
                ;
            },
            _ => {},
        }
    }

    /// A command without an address takes one byte.
    pub proof fn lemma_single_byte(self)
        requires
            !(self is RReg),
            !(self is WReg),
        ensures
            self.bytes().len() == 1,
    {
    }
}

impl Into<Vec<u8>> for OpCode {
    /// Encodes the command for the wire.
    fn into(self) -> (r: Vec<u8>)
        ensures
            ({
                let encoded: Vec<u8> = r;
                encoded@ == self.bytes()
            }),
    {
        let r: Vec<u8> = match self {
            OpCode::WakeUp => vec![0b0000_0010u8],
            OpCode::StandBy => vec![0b0000_0100u8],
            OpCode::Reset => vec![0b0000_0110u8],
            OpCode::Start => vec![0b0000_1000u8],
            OpCode::Stop => vec![0b0000_1010u8],
            OpCode::RDataC => vec![0b0001_0000u8],
            OpCode::SDataC => vec![0b0001_0001u8],
            OpCode::RData => vec![0b0001_0010u8],
            OpCode::RReg { start, n } => {
                let s: u8 = start.value();
                assert(0b0010_0000u8 | s == 0x20 + s) by (bit_vector)
                    requires
                        s <= 31,
                ;
                vec![0b0010_0000u8 | s, n.value()]
            },
            OpCode::WReg { start, n } => {
                let s: u8 = start.value();
                assert(0b0100_0000u8 | s == 0x40 + s) by (bit_vector)
                    requires
                        s <= 31,
                ;
                vec![0b0100_0000u8 | s, n.value()]
            },
        };
        assert(r@ =~= self.bytes());
        r
    }
}

/// `Into::into` is specified on the impl itself: a `Vec` cannot be written
/// down in a specification, only its view can.
impl vstd::std_specs::convert::IntoSpecImpl<Vec<u8>> for OpCode {
    open spec fn obeys_into_spec() -> bool {
        false
    }

    open spec fn into_spec(self) -> Vec<u8> {
        arbitrary()
    }
}

/// One step of a bus transaction.
#[derive(Clone, Debug, PartialEq, Eq)]
pub enum Operation {
    /// Send the bytes and ignore what comes back.
    Write(Vec<u8>),
    /// Send `write` and keep the first `read` bytes that come back meanwhile.
    Transfer { read: usize, write: Vec<u8> },
    /// Send the bytes and keep what comes back in their place.
    TransferInPlace(Vec<u8>),
    /// Wait for so many nanoseconds.
    DelayNs(u32),
}

/// What an [`Operation`] asks for.
pub enum OperationModel {
    Write(Seq<u8>),
    Transfer { read: nat, write: Seq<u8> },
    TransferInPlace(Seq<u8>),
    DelayNs(nat),
}

impl View for Operation {
    type V = OperationModel;

    open spec fn view(&self) -> OperationModel {
        match *self {
            Operation::Write(bytes) => OperationModel::Write(bytes@),
            Operation::Transfer { read, write } => OperationModel::Transfer {
                read: read as nat,
                write: write@,
            },
            Operation::TransferInPlace(bytes) => OperationModel::TransferInPlace(bytes@),
            Operation::DelayNs(ns) => OperationModel::DelayNs(ns as nat),
        }
    }
}

/// Operations that run in order while the device stays selected.
#[derive(Clone, Debug, PartialEq, Eq)]
pub struct Transaction {
    pub operations: Vec<Operation>,
}

impl View for Transaction {
    type V = Seq<OperationModel>;

    open spec fn view(&self) -> Seq<OperationModel> {
        Seq::new(self.operations@.len(), |i: int| self.operations@[i]@)
    }
}

/// The transaction that sends `op` and nothing else.
pub open spec fn command(op: OpCode) -> Seq<OperationModel> {
    seq![OperationModel::Write(op.bytes())]
}

/// The transaction that sends `op` and then waits for `cycles` clock cycles.
pub open spec fn settled_command(op: OpCode, cycles: nat) -> Seq<OperationModel> {
    seq![OperationModel::Write(op.bytes()), OperationModel::DelayNs(cycles * TCLK_2_048M as nat)]
}

/// The transaction that writes `data` to the register at `address`.
pub open spec fn write_plan(address: Address, data: u8) -> Seq<OperationModel> {
    seq![OperationModel::Write(seq![(0x40 + address) as u8, 0u8, data])]
}

/// The transaction that reads the register at `address`.
pub open spec fn read_plan(address: Address) -> Seq<OperationModel> {
    seq![OperationModel::Transfer { read: 1, write: seq![(0x20 + address) as u8, 0u8] }]
}

/// The transaction that asks for one frame of `len` bytes.
pub open spec fn read_data_plan(len: nat) -> Seq<OperationModel> {
    seq![OperationModel::Transfer { read: len, write: OpCode::RData.bytes() }]
}

/// The transaction that streams from `address` into `buffer`, whose first byte
/// gives way to the command.
pub open spec fn stream_plan(address: Address, buffer: Seq<u8>) -> Seq<OperationModel> {
    seq![OperationModel::TransferInPlace(buffer.update(0, address | 0x80u8))]
}

/// A transaction ends in its only delay.
pub open spec fn ends_in_only_delay(plan: Seq<OperationModel>, ns: nat) -> bool {
    &&& plan.len() >= 1
    &&& plan.last() == OperationModel::DelayNs(ns)
    &&& forall|i: int| 0 <= i < plan.len() - 1 ==> !(#[trigger] plan[i] is DelayNs)
}

/// Whatever command is followed by a settling time: the transaction holds one
/// delay, the delay is its last operation, and it lasts the number of clock
/// cycles times the length of one cycle.
pub proof fn lemma_settled_command_ends_in_only_delay(op: OpCode, cycles: nat)
    ensures
        ends_in_only_delay(settled_command(op, cycles), cycles * 500),
        settled_command(op, cycles).len() == 2,
        settled_command(op, cycles)[0] == OperationModel::Write(op.bytes()),
{
}

/// A command without a settling time holds no delay.
pub proof fn lemma_command_has_no_delay(op: OpCode)
    ensures
        forall|i: int| 0 <= i < command(op).len() ==> !(#[trigger] command(op)[i] is DelayNs),
{
}

/// Builds the transactions of the device and reads their outcome.
#[derive(Clone, Copy, Debug, PartialEq, Eq, Structural)]
pub struct Operator {}

impl Operator {
    pub fn new() -> (r: Operator)
        ensures
            r == (Operator {  }),
    {
        Operator {  }
    }

    fn send(op: OpCode) -> (t: Transaction)
        ensures
            t@ == command(op),
    {
        let bytes: Vec<u8> = op.into();
        let t = Transaction { operations: vec![Operation::Write(bytes)] };
        assert(t@ =~= command(op));
        t
    }

    fn send_and_settle(op: OpCode, cycles: u32) -> (t: Transaction)
        requires
            cycles <= 1000,
        ensures
            t@ == settled_command(op, cycles as nat),
    {
        let bytes: Vec<u8> = op.into();
        let t = Transaction {
            operations: vec![Operation::Write(bytes), Operation::DelayNs(TCLK_2_048M * cycles)],
        };
        assert(t@ =~= settled_command(op, cycles as nat));
        t
    }

    /// Writes `data` to the register at `address`: the command and the byte
    /// go out in one transaction.
    pub fn write(&self, address: Address, data: u8) -> (t: Transaction)
        requires
            address <= 31,
        ensures
            t@ == write_plan(address, data),
    {
        let mut buffer: Vec<u8> = OpCode::WReg { start: U5::new(address), n: U5::new(0) }.into();
        buffer.push(data);
        assert(buffer@ =~= seq![(0x40 + address) as u8, 0u8, data]);
        let t = Transaction { operations: vec![Operation::Write(buffer)] };
        assert(t@ =~= write_plan(address, data));
        t
    }

    /// Tells how a register write ended.
    pub fn written<E>(&self, outcome: Result<Vec<u8>, E>) -> (r: Result<(), WriteError<E>>)
        ensures
            match outcome {
                Ok(_) => r == Ok::<(), WriteError<E>>(()),
                Err(e) => r == Err::<(), WriteError<E>>(WriteError::SpiTransferError(e)),
            },
    {
        match outcome {
            Ok(_) => Ok(()),
            Err(e) => Err(WriteError::SpiTransferError(e)),
        }
    }

    /// Reads the register at `address`: one byte comes back while the command
    /// goes out.
    pub fn read(&self, address: Address) -> (t: Transaction)
        requires
            address <= 31,
        ensures
            t@ == read_plan(address),
    {
        let buffer: Vec<u8> = OpCode::RReg { start: U5::new(address), n: U5::new(0) }.into();
        let t = Transaction { operations: vec![Operation::Transfer { read: 1, write: buffer }] };
        assert(t@ =~= read_plan(address));
        t
    }

    /// Takes the register's byte out of what a register read brought.
    pub fn received<E>(&self, outcome: Result<Vec<u8>, E>) -> (r: Result<u8, ReadError<E>>)
        requires
            outcome matches Ok(reply) ==> reply@.len() >= 1,
        ensures
            match outcome {
                Ok(reply) => r == Ok::<u8, ReadError<E>>(reply@[0]),
                Err(e) => r == Err::<u8, ReadError<E>>(ReadError::SpiTransferError(e)),
            },
    {
        match outcome {
            Ok(reply) => Ok(reply[0]),
            Err(e) => Err(ReadError::SpiTransferError(e)),
        }
    }

    /// Streams from `address`: the command takes the place of the first byte
    /// of `buffer`, and the device's answer takes the place of the buffer.
    pub fn stream(&self, address: Address, buffer: Vec<u8>) -> (t: Transaction)
        requires
            buffer@.len() >= 1,
        ensures
            t@ == stream_plan(address, buffer@),
    {
        let command: u8 = address | (1u8 << 7);
        assert(address | (1u8 << 7) == address | 0x80u8) by (bit_vector);
        let mut frame = buffer;
        frame[0] = command;
        let t = Transaction { operations: vec![Operation::TransferInPlace(frame)] };
        assert(t@ =~= stream_plan(address, buffer@));
        t
    }

    /// What the device streamed: all that came back but the first byte.
    pub fn streamed<E>(&self, outcome: Result<Vec<u8>, E>) -> (r: Result<Vec<u8>, ReadError<E>>)
        requires
            outcome matches Ok(reply) ==> reply@.len() >= 1,
        ensures
            match outcome {
                Ok(reply) => r matches Ok(data) && data@ == reply@.subrange(1, reply@.len() as int),
                Err(e) => r matches Err(error) && error == ReadError::SpiTransferError(e),
            },
    {
        match outcome {
            Ok(reply) => {
                let mut data: Vec<u8> = Vec::new();
                let mut i: usize = 1;
                while i < reply.len()
                    invariant
                        1 <= i <= reply@.len(),
                        data@ == reply@.subrange(1, i as int),
                    decreases reply@.len() - i,
                {
                    data.push(reply[i]);
                    assert(data@ =~= reply@.subrange(1, i + 1));
                    i += 1;
                }
                Ok(data)
            },
            Err(e) => Err(ReadError::SpiTransferError(e)),
        }
    }

    /// Asks for one frame of data; `len` is the length of the frame.
    pub fn read_single_data(&self, len: usize) -> (t: Transaction)
        ensures
            t@ == read_data_plan(len as nat),
    {
        let command: Vec<u8> = OpCode::RData.into();
        let t = Transaction { operations: vec![Operation::Transfer { read: len, write: command }] };
        assert(t@ =~= read_data_plan(len as nat));
        t
    }

    /// Leaves standby mode. The device needs four clock cycles afterwards.
    pub fn wake_up(&self) -> (t: Transaction)
        ensures
            t@ == settled_command(OpCode::WakeUp, 4),
            ends_in_only_delay(t@, 2000),
    {
        Self::send_and_settle(OpCode::WakeUp, WAKE_UP_CYCLES)
    }

    /// Enters standby mode.
    pub fn stand_by(&self) -> (t: Transaction)
        ensures
            t@ == command(OpCode::StandBy),
    {
        Self::send(OpCode::StandBy)
    }

    /// Resets the device. The device needs eighteen clock cycles afterwards.
    pub fn reset(&self) -> (t: Transaction)
        ensures
            t@ == settled_command(OpCode::Reset, 18),
            ends_in_only_delay(t@, 9000),
    {
        Self::send_and_settle(OpCode::Reset, RESET_CYCLES)
    }

    /// Starts or restarts conversions. The device needs four clock cycles
    /// before it takes a command to stop.
    pub fn start(&self) -> (t: Transaction)
        ensures
            t@ == settled_command(OpCode::Start, 4),
            ends_in_only_delay(t@, 2000),
    {
        Self::send_and_settle(OpCode::Start, START_CYCLES)
    }

    /// Stops conversions.
    pub fn stop(&self) -> (t: Transaction)
        ensures
            t@ == command(OpCode::Stop),
    {
        Self::send(OpCode::Stop)
    }

    /// Stops continuous data read mode. The device needs four clock cycles
    /// afterwards.
    pub fn stop_stream(&self) -> (t: Transaction)
        ensures
            t@ == settled_command(OpCode::SDataC, 4),
            ends_in_only_delay(t@, 2000),
    {
        Self::send_and_settle(OpCode::SDataC, STOP_STREAM_CYCLES)
    }
}

} // verus!
