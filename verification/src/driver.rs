//! The device: its registers, its commands and its transactions.

pub mod initialization;
pub mod operator;
pub mod registers;
pub mod stream_reader;

use vstd::prelude::*;

use self::initialization::Action;
use self::initialization::Default8Lead1x500;
use self::initialization::Initialization;
use self::initialization::Initializer;
use self::initialization::Profile;
use self::initialization::ProfileView;
use self::operator::read_plan;
use self::operator::write_plan;
use self::operator::Operator;
use self::operator::Transaction;
use self::registers::access::ReadError;
use self::registers::access::WriteError;
use self::registers::addressable::Addressable;
use self::registers::value::RegisterValue;
use self::registers::Register;
use self::stream_reader::loop_read_back_fields;
use self::stream_reader::loop_read_back_table;
use self::stream_reader::StreamReader;

verus! {

/// Why no frame of data could be had.
#[derive(Clone, Debug, PartialEq, Eq)]
pub enum StreamError<SpiError> {
    /// The configuration of the channels could not be read.
    ReadConfigError(ReadError<SpiError>),
    /// The bus failed while a frame came in.
    StreamingAbort(ReadError<SpiError>),
}

/// The device.
#[derive(Clone, Copy, Debug, PartialEq, Eq, Structural)]
pub struct ADS1298 {
    pub operator: Operator,
}

impl ADS1298 {
    pub fn new() -> (r: ADS1298)
        ensures
            r == (ADS1298 { operator: Operator {  } }),
    {
        ADS1298 { operator: Operator::new() }
    }

    /// A reader for the frames that the device sends with channels 1 to 6 on.
    pub fn stream_reader<E>(&mut self) -> (r: Result<StreamReader, StreamError<E>>)
        ensures
            r matches Ok(reader) && reader.table() == loop_read_back_table(),
            *final(self) == *old(self),
    {
        Ok(StreamReader::new(loop_read_back_fields()))
    }

    /// Writes `value` to the register that it belongs to.
    pub fn write(&self, value: RegisterValue) -> (t: Transaction)
        ensures
            t@ == write_plan(value.register_of().address(), value.byte()),
    {
        proof {
            value.register_of().lemma_address_in_map();
        }
        self.operator.write(value.register().get_address(), value.raw())
    }

    /// Tells how a register write ended.
    pub fn written<E>(&self, outcome: Result<Vec<u8>, E>) -> (r: Result<(), WriteError<E>>)
        ensures
            match outcome {
                Ok(_) => r == Ok::<(), WriteError<E>>(()),
                Err(e) => r == Err::<(), WriteError<E>>(WriteError::SpiTransferError(e)),
            },
    {
        self.operator.written(outcome)
    }

    /// Reads `register`.
    pub fn read(&self, register: Register) -> (t: Transaction)
        ensures
            t@ == read_plan(register.address()),
    {
        proof {
            register.lemma_address_in_map();
        }
        self.operator.read(register.get_address())
    }

    /// Takes the value of `register` out of what a read of it brought.
    pub fn received<E>(&self, register: Register, outcome: Result<Vec<u8>, E>) -> (r: Result<
        RegisterValue,
        ReadError<E>,
    >)
        requires
            outcome matches Ok(reply) ==> reply@.len() >= 1,
        ensures
            match outcome {
                Ok(reply) => r == Ok::<RegisterValue, ReadError<E>>(
                    RegisterValue::of(register, reply@[0]),
                ),
                Err(e) => r == Err::<RegisterValue, ReadError<E>>(ReadError::SpiTransferError(e)),
            },
    {
        match self.operator.received(outcome) {
            Ok(raw) => Ok(RegisterValue::from_raw(register, raw)),
            Err(error) => Err(error),
        }
    }
}

impl Initializer<Default8Lead1x500> for ADS1298 {
    open spec fn profile_of(application: Default8Lead1x500) -> ProfileView {
        Default8Lead1x500::profile_view()
    }

    fn init<E>(&mut self, application: Default8Lead1x500) -> (r: (Initialization, Action<E>)) {
        Initialization::begin(application.profile())
    }
}

/// The application may as well say what it wants register by register.
impl Initializer<Profile> for ADS1298 {
    open spec fn profile_of(application: Profile) -> ProfileView {
        application@
    }

    fn init<E>(&mut self, application: Profile) -> (r: (Initialization, Action<E>)) {
        Initialization::begin(application)
    }
}

} // verus!
