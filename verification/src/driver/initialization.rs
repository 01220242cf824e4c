//! Bringing the device up.
//!
//! An [`Initialization`] walks through a [`Profile`]: reset, stop continuous
//! reading, where the profile asks for it make sure that the ID register
//! answers, write the registers in order, start converting. It decides and
//! never touches the bus: it hands out the transaction to run next and takes
//! back how the transaction ended.

use vstd::prelude::*;

use super::operator::read_plan;
use super::operator::settled_command;
use super::operator::write_plan;
use super::operator::OpCode;
use super::operator::OperationModel;
use super::operator::Operator;
use super::operator::Transaction;
use super::registers::access::ReadError;
use super::registers::access::WriteError;
use super::registers::addressable::Addressable;
use super::registers::bits::get_bit;
use super::registers::bits::set_bit;
use super::registers::bits::set_bits;
use super::registers::data::ChSetReg;
use super::registers::data::Config1Reg;
use super::registers::data::Config2Reg;
use super::registers::data::Config3Reg;
use super::registers::data::Config4Reg;
use super::registers::data::IdReg;
use super::registers::data::LOffReg;
use super::registers::data::LOffSensNReg;
use super::registers::data::LOffSensPReg;
use super::registers::data::RldSensNReg;
use super::registers::data::RldSensPReg;
use super::registers::data::Wct1Reg;
use super::registers::data::Wct2Reg;
use super::registers::value::RegisterValue;
use super::registers::Register;

verus! {

/// One register and the byte that it is to hold.
#[derive(Clone, Copy, Debug, PartialEq, Eq, Structural)]
pub struct RegisterWrite {
    pub register: Register,
    pub value: u8,
}

impl RegisterValue {
    /// The write that puts the value into its register.
    pub fn write(self) -> (w: RegisterWrite)
        ensures
            w == write_of(self.register_of(), self.byte()),
    {
        RegisterWrite { register: self.register(), value: self.raw() }
    }
}

/// What an application wants of the device at start-up.
#[derive(Clone, Debug, PartialEq, Eq)]
pub struct Profile {
    /// How often the ID register may be read until it answers as the device
    /// does; `None` where the ID register is not asked at all.
    pub verify_id: Option<u8>,
    /// The registers to write, in this order.
    pub writes: Vec<RegisterWrite>,
    /// Whether conversions are started at the end.
    pub start: bool,
}

/// A [`Profile`] as plain values.
pub struct ProfileView {
    pub verify_id: Option<u8>,
    pub writes: Seq<RegisterWrite>,
    pub start: bool,
}

impl View for Profile {
    type V = ProfileView;

    open spec fn view(&self) -> ProfileView {
        ProfileView { verify_id: self.verify_id, writes: self.writes@, start: self.start }
    }
}

impl ProfileView {
    /// How often the ID register may be read.
    pub open spec fn id_reads_allowed(self) -> nat {
        match self.verify_id {
            Some(n) => n as nat,
            None => 0,
        }
    }
}

/// Why the device could not be brought up.
#[derive(Clone, Debug, PartialEq, Eq)]
pub enum InitializeError<SpiError> {
    /// A register could not be written: which one, and the byte meant for it.
    WriteError { source: WriteError<SpiError>, address: u8, data: u8 },
    /// A command could not be sent.
    ResetError(WriteError<SpiError>, Option<String>),
    /// The ID register could not be read.
    ReadError(ReadError<SpiError>, Option<String>),
    /// The device never answered as it should.
    InitError(Option<String>),
}

/// An [`InitializeError`] with its messages as sequences of characters.
pub enum InitializeErrorView<SpiError> {
    WriteError { source: WriteError<SpiError>, address: u8, data: u8 },
    ResetError(WriteError<SpiError>, Option<Seq<char>>),
    ReadError(ReadError<SpiError>, Option<Seq<char>>),
    InitError(Option<Seq<char>>),
}

/// The text of an optional message.
pub open spec fn message_view(message: Option<String>) -> Option<Seq<char>> {
    match message {
        Some(text) => Some(text@),
        None => None,
    }
}

impl<SpiError> View for InitializeError<SpiError> {
    type V = InitializeErrorView<SpiError>;

    open spec fn view(&self) -> InitializeErrorView<SpiError> {
        match *self {
            InitializeError::WriteError { source, address, data } => InitializeErrorView::WriteError {
                source,
                address,
                data,
            },
            InitializeError::ResetError(source, message) => InitializeErrorView::ResetError(
                source,
                message_view(message),
            ),
            InitializeError::ReadError(source, message) => InitializeErrorView::ReadError(
                source,
                message_view(message),
            ),
            InitializeError::InitError(message) => InitializeErrorView::InitError(
                message_view(message),
            ),
        }
    }
}

/// What the caller does next.
#[derive(Debug, PartialEq, Eq)]
pub enum Action<SpiError> {
    /// Run the transaction and report how it ended.
    Transact(Transaction),
    /// Nothing more: this is how the initialization ended.
    Finished(Result<(), InitializeError<SpiError>>),
}

/// An [`Action`] as plain values.
pub enum ActionView<SpiError> {
    Transact(Seq<OperationModel>),
    Finished(Result<(), InitializeErrorView<SpiError>>),
}

impl<SpiError> View for Action<SpiError> {
    type V = ActionView<SpiError>;

    open spec fn view(&self) -> ActionView<SpiError> {
        match *self {
            Action::Transact(transaction) => ActionView::Transact(transaction@),
            Action::Finished(Ok(_)) => ActionView::Finished(Ok(())),
            Action::Finished(Err(error)) => ActionView::Finished(Err(error@)),
        }
    }
}

/// The step at which an initialization failed.
#[derive(Clone, Copy, Debug, PartialEq, Eq, Structural)]
pub enum Failure {
    /// The reset command did not go out.
    Reset,
    /// The command that stops continuous reading did not go out.
    StopContinuous,
    /// The ID register could not be read.
    ReadId,
    /// The ID register never answered as the device does.
    IncorrectId,
    /// The register at `address` did not take `data`.
    Write { address: u8, data: u8 },
    /// The start command did not go out.
    Start,
}

/// Where an initialization stands. A state with a transaction names the
/// transaction that is on the bus.
#[derive(Clone, Copy, Debug, PartialEq, Eq, Structural)]
pub enum InitState {
    /// The device is being reset; the ID register may still be read
    /// `attempts_left` times.
    Reset { attempts_left: u8 },
    /// Continuous reading is being stopped.
    StopContinuous { attempts_left: u8 },
    /// The ID register is being read, for the last time if `attempts_left` is 1.
    VerifyId { attempts_left: u8 },
    /// The write at `index` of the profile's list is on its way.
    ConfigureRegisters { index: usize },
    /// Conversions are being started.
    Start,
    /// The device is set up.
    Ready,
    /// The device is not set up, and nothing more will be tried.
    Failed(Failure),
}

impl InitState {
    /// Whether the initialization has ended.
    pub open spec fn is_terminal(self) -> bool {
        self is Ready || self is Failed
    }

    /// Whether `self` can come up while `profile` is followed.
    pub open spec fn fits(self, profile: ProfileView) -> bool {
        match self {
            InitState::Reset { attempts_left } => profile.verify_id is Some ==> 1 <= attempts_left
                <= profile.id_reads_allowed(),
            InitState::StopContinuous { attempts_left } => profile.verify_id is Some ==> 1
                <= attempts_left <= profile.id_reads_allowed(),
            InitState::VerifyId { attempts_left } => profile.verify_id is Some && 1 <= attempts_left
                <= profile.id_reads_allowed(),
            InitState::ConfigureRegisters { index } => index < profile.writes.len(),
            InitState::Start => profile.start,
            InitState::Ready => true,
            InitState::Failed(_) => true,
        }
    }
}

pub open spec fn reset_failed() -> Seq<char> {
    "Failed to reset chip"@
}

pub open spec fn stop_continuous_failed() -> Seq<char> {
    "Failed to disable converting mode"@
}

pub open spec fn read_id_failed() -> Seq<char> {
    "Failed to read ID register"@
}

pub open spec fn incorrect_id() -> Seq<char> {
    "Incorrect ID register, check your SPI config and connection"@
}

pub open spec fn start_failed() -> Seq<char> {
    "Failed to enable converting mode"@
}

/// Whether what a read of the ID register brought shows the device: the
/// reserved bit 4 of the register always reads 1.
pub open spec fn id_confirmed(reply: Seq<u8>) -> bool {
    reply.len() >= 1 && get_bit(reply[0], 4)
}

/// A round begins: the device is reset.
pub open spec fn reset_round<E>(attempts_left: u8) -> (InitState, ActionView<E>) {
    (
        InitState::Reset { attempts_left },
        ActionView::Transact(settled_command(OpCode::Reset, 18)),
    )
}

/// The ID register never showed the device.
pub open spec fn give_up<E>() -> (InitState, ActionView<E>) {
    (
        InitState::Failed(Failure::IncorrectId),
        ActionView::Finished(Err(InitializeErrorView::InitError(Some(incorrect_id())))),
    )
}

/// The writes before `index` are done: the next one goes out, or after the
/// last one the start command, or nothing.
pub open spec fn configure_from<E>(profile: ProfileView, index: int) -> (InitState, ActionView<E>) {
    if 0 <= index < profile.writes.len() {
        (
            InitState::ConfigureRegisters { index: index as usize },
            ActionView::Transact(
                write_plan(profile.writes[index].register.address(), profile.writes[index].value),
            ),
        )
    } else if profile.start {
        (InitState::Start, ActionView::Transact(settled_command(OpCode::Start, 4)))
    } else {
        (InitState::Ready, ActionView::Finished(Ok(())))
    }
}

/// How an initialization begins.
pub open spec fn begin_spec<E>(profile: ProfileView) -> (InitState, ActionView<E>) {
    match profile.verify_id {
        Some(n) => if n == 0 {
            give_up()
        } else {
            reset_round(n)
        },
        None => reset_round(0),
    }
}

/// How an initialization goes on when the transaction of `state` has ended
/// with `outcome`: the next state and what to do. `None` where no transaction
/// was on the bus.
pub open spec fn step_spec<E>(
    profile: ProfileView,
    state: InitState,
    outcome: Result<Seq<u8>, E>,
) -> Option<(InitState, ActionView<E>)> {
    match state {
        InitState::Reset { attempts_left } => Some(
            match outcome {
                Ok(_) => (
                    InitState::StopContinuous { attempts_left },
                    ActionView::Transact(settled_command(OpCode::SDataC, 4)),
                ),
                Err(e) => (
                    InitState::Failed(Failure::Reset),
                    ActionView::Finished(
                        Err(
                            InitializeErrorView::ResetError(
                                WriteError::SpiTransferError(e),
                                Some(reset_failed()),
                            ),
                        ),
                    ),
                ),
            },
        ),
        InitState::StopContinuous { attempts_left } => Some(
            match outcome {
                Ok(_) => if profile.verify_id is Some {
                    (
                        InitState::VerifyId { attempts_left },
                        ActionView::Transact(read_plan(Register::ID.address())),
                    )
                } else {
                    configure_from(profile, 0)
                },
                Err(e) => (
                    InitState::Failed(Failure::StopContinuous),
                    ActionView::Finished(
                        Err(
                            InitializeErrorView::ResetError(
                                WriteError::SpiTransferError(e),
                                Some(stop_continuous_failed()),
                            ),
                        ),
                    ),
                ),
            },
        ),
        InitState::VerifyId { attempts_left } => Some(
            match outcome {
                Ok(reply) => if id_confirmed(reply) {
                    configure_from(profile, 0)
                } else if attempts_left <= 1 {
                    give_up()
                } else {
                    reset_round((attempts_left - 1) as u8)
                },
                Err(e) => (
                    InitState::Failed(Failure::ReadId),
                    ActionView::Finished(
                        Err(
                            InitializeErrorView::ReadError(
                                ReadError::SpiTransferError(e),
                                Some(read_id_failed()),
                            ),
                        ),
                    ),
                ),
            },
        ),
        InitState::ConfigureRegisters { index } => Some(
            match outcome {
                Ok(_) => configure_from(profile, index + 1),
                Err(e) => {
                    let address = profile.writes[index as int].register.address();
                    let data = profile.writes[index as int].value;
                    (
                        InitState::Failed(Failure::Write { address, data }),
                        ActionView::Finished(
                            Err(
                                InitializeErrorView::WriteError {
                                    source: WriteError::SpiTransferError(e),
                                    address,
                                    data,
                                },
                            ),
                        ),
                    )
                },
            },
        ),
        InitState::Start => Some(
            match outcome {
                Ok(_) => (InitState::Ready, ActionView::Finished(Ok(()))),
                Err(e) => (
                    InitState::Failed(Failure::Start),
                    ActionView::Finished(
                        Err(
                            InitializeErrorView::ResetError(
                                WriteError::SpiTransferError(e),
                                Some(start_failed()),
                            ),
                        ),
                    ),
                ),
            },
        ),
        InitState::Ready => None,
        InitState::Failed(_) => None,
    }
}

/// How a transaction ended, as plain values.
pub open spec fn outcome_view<E>(outcome: Result<Vec<u8>, E>) -> Result<Seq<u8>, E> {
    match outcome {
        Ok(reply) => Ok(reply@),
        Err(e) => Err(e),
    }
}

/// An initialization under way.
pub struct Initialization {
    profile: Profile,
    state: InitState,
}

/// An [`Initialization`] as plain values.
pub struct InitializationView {
    pub profile: ProfileView,
    pub state: InitState,
}

impl View for Initialization {
    type V = InitializationView;

    closed spec fn view(&self) -> InitializationView {
        InitializationView { profile: self.profile@, state: self.state }
    }
}

impl Initialization {
    #[verifier::type_invariant]
    spec fn state_fits(&self) -> bool {
        self.state.fits(self.profile@)
    }

    fn configure<E>(&mut self, index: usize) -> (action: Action<E>)
        requires
            index <= old(self).profile.writes@.len(),
        ensures
            (final(self).state, action@) == configure_from::<E>(old(self).profile@, index as int),
            final(self).profile == old(self).profile,
            final(self).state.fits(final(self).profile@),
    {
        let operator = Operator::new();
        if index < self.profile.writes.len() {
            let write = self.profile.writes[index];
            proof {
                write.register.lemma_address_in_map();
            }
            self.state = InitState::ConfigureRegisters { index };
            Action::Transact(operator.write(write.register.get_address(), write.value))
        } else if self.profile.start {
            self.state = InitState::Start;
            Action::Transact(operator.start())
        } else {
            self.state = InitState::Ready;
            Action::Finished(Ok(()))
        }
    }

    fn give_up<E>(&mut self) -> (action: Action<E>)
        ensures
            (final(self).state, action@) == give_up::<E>(),
            final(self).profile == old(self).profile,
    {
        self.state = InitState::Failed(Failure::IncorrectId);
        Action::Finished(
            Err(
                InitializeError::InitError(
                    Some("Incorrect ID register, check your SPI config and connection".to_string()),
                ),
            ),
        )
    }

    fn reset_round<E>(&mut self, attempts_left: u8) -> (action: Action<E>)
        requires
            (InitState::Reset { attempts_left }).fits(old(self).profile@),
        ensures
            (final(self).state, action@) == reset_round::<E>(attempts_left),
            final(self).profile == old(self).profile,
    {
        self.state = InitState::Reset { attempts_left };
        Action::Transact(Operator::new().reset())
    }

    /// Begins to follow `profile`: the initialization, and what to do first.
    pub fn begin<E>(profile: Profile) -> (r: (Initialization, Action<E>))
        ensures
            r.0@.profile == profile@,
            (r.0@.state, r.1@) == begin_spec::<E>(profile@),
    {
        let attempts: u8 = match profile.verify_id {
            Some(n) => n,
            None => 0,
        };
        let mut initializer = Initialization { profile, state: InitState::Ready };
        let action = if initializer.profile.verify_id.is_some() && attempts == 0 {
            initializer.give_up()
        } else {
            initializer.reset_round(attempts)
        };
        (initializer, action)
    }

    /// Goes on after the transaction that was handed out last has ended with
    /// `outcome`: what to do next. `None`, and nothing changes, where the
    /// initialization had ended before.
    pub fn step<E>(&mut self, outcome: Result<Vec<u8>, E>) -> (r: Option<Action<E>>)
        ensures
            final(self)@.profile == old(self)@.profile,
            match step_spec(old(self)@.profile, old(self)@.state, outcome_view(outcome)) {
                Some((state, action)) => {
                    &&& final(self)@.state == state
                    &&& r is Some
                    &&& r->0@ == action
                },
                None => final(self)@.state == old(self)@.state && r is None,
            },
    {
        proof {
            use_type_invariant(&*self);
        }
        let operator = Operator::new();
        match self.state {
            InitState::Reset { attempts_left } => match outcome {
                Ok(_) => {
                    self.state = InitState::StopContinuous { attempts_left };
                    Some(Action::Transact(operator.stop_stream()))
                },
                Err(e) => {
                    self.state = InitState::Failed(Failure::Reset);
                    Some(
                        Action::Finished(
                            Err(
                                InitializeError::ResetError(
                                    WriteError::SpiTransferError(e),
                                    Some("Failed to reset chip".to_string()),
                                ),
                            ),
                        ),
                    )
                },
            },
            InitState::StopContinuous { attempts_left } => match outcome {
                Ok(_) => {
                    if self.profile.verify_id.is_some() {
                        self.state = InitState::VerifyId { attempts_left };
                        Some(Action::Transact(operator.read(Register::ID.get_address())))
                    } else {
                        Some(self.configure(0))
                    }
                },
                Err(e) => {
                    self.state = InitState::Failed(Failure::StopContinuous);
                    Some(
                        Action::Finished(
                            Err(
                                InitializeError::ResetError(
                                    WriteError::SpiTransferError(e),
                                    Some("Failed to disable converting mode".to_string()),
                                ),
                            ),
                        ),
                    )
                },
            },
            InitState::VerifyId { attempts_left } => match outcome {
                Ok(reply) => {
                    if reply.len() >= 1 && IdReg(reply[0]).rev_4() {
                        Some(self.configure(0))
                    } else if attempts_left <= 1 {
                        Some(self.give_up())
                    } else {
                        Some(self.reset_round(attempts_left - 1))
                    }
                },
                Err(e) => {
                    self.state = InitState::Failed(Failure::ReadId);
                    Some(
                        Action::Finished(
                            Err(
                                InitializeError::ReadError(
                                    ReadError::SpiTransferError(e),
                                    Some("Failed to read ID register".to_string()),
                                ),
                            ),
                        ),
                    )
                },
            },
            InitState::ConfigureRegisters { index } => match outcome {
                Ok(_) => {
                    assert(index < self.profile.writes.len());
                    Some(self.configure(index + 1))
                },
                Err(e) => {
                    let write = self.profile.writes[index];
                    let address = write.register.get_address();
                    let data = write.value;
                    self.state = InitState::Failed(Failure::Write { address, data });
                    Some(
                        Action::Finished(
                            Err(
                                InitializeError::WriteError {
                                    source: WriteError::SpiTransferError(e),
                                    address,
                                    data,
                                },
                            ),
                        ),
                    )
                },
            },
            InitState::Start => match outcome {
                Ok(_) => {
                    self.state = InitState::Ready;
                    Some(Action::Finished(Ok(())))
                },
                Err(e) => {
                    self.state = InitState::Failed(Failure::Start);
                    Some(
                        Action::Finished(
                            Err(
                                InitializeError::ResetError(
                                    WriteError::SpiTransferError(e),
                                    Some("Failed to enable converting mode".to_string()),
                                ),
                            ),
                        ),
                    )
                },
            },
            InitState::Ready => None,
            InitState::Failed(_) => None,
        }
    }

    /// Where the initialization stands.
    pub fn state(&self) -> (s: InitState)
        ensures
            s == self@.state,
            s.fits(self@.profile),
    {
        proof {
            use_type_invariant(self);
        }
        self.state
    }

    /// The profile that is followed.
    pub fn profile(&self) -> (p: &Profile)
        ensures
            p@ == self@.profile,
    {
        &self.profile
    }
}

/// Eight leads on one device, 8000 samples a second. Its list of registers
/// is the application's to give: a [`Profile`] takes any.
#[derive(Clone, Copy, Debug, PartialEq, Eq, Structural)]
pub struct Default8Lead1x8K;

/// Eight leads on one device, 500 samples a second, high resolution,
/// internal reference, gain 2 on every channel, lead-off detection on every
/// input, right-leg drive from channels 2 and 3. The ID register has ten
/// tries to answer.
#[derive(Clone, Copy, Debug, PartialEq, Eq, Structural)]
pub struct Default8Lead1x500;

/// The write of `value` to `register`.
pub open spec fn write_of(register: Register, value: u8) -> RegisterWrite {
    RegisterWrite { register, value }
}

impl Default8Lead1x500 {
    /// How often the ID register is read at most.
    pub open spec fn id_reads() -> u8 {
        10
    }

    /// The registers and their bytes, in the order in which they are
    /// written.
    pub open spec fn writes() -> Seq<RegisterWrite> {
        seq![
            write_of(Register::CONFIG1, 0x86),
            write_of(Register::CONFIG2, 0x00),
            write_of(Register::CONFIG3, 0xdc),
            write_of(Register::CONFIG4, 0x06),
            write_of(Register::CH1SET, 0x20),
            write_of(Register::CH4SET, 0x20),
            write_of(Register::CH5SET, 0x20),
            write_of(Register::CH6SET, 0x20),
            write_of(Register::CH7SET, 0x20),
            write_of(Register::CH8SET, 0x20),
            write_of(Register::CH2SET, 0x20),
            write_of(Register::CH3SET, 0x20),
            write_of(Register::LOFF, 0x13),
            write_of(Register::LOFF_SENSP, 0xff),
            write_of(Register::LOFF_SENSN, 0xff),
            write_of(Register::RLD_SENSP, 0x06),
            write_of(Register::RLD_SENSN, 0x06),
            write_of(Register::WCT1, 0x00),
            write_of(Register::WCT2, 0x00),
        ]
    }

    /// The profile as plain values.
    pub open spec fn profile_view() -> ProfileView {
        ProfileView { verify_id: Some(Self::id_reads()), writes: Self::writes(), start: true }
    }

    /// The profile of this application.
    pub fn profile(&self) -> (p: Profile)
        ensures
            p@ == Self::profile_view(),
    {
        let mut writes: Vec<RegisterWrite> = Vec::new();
        // High resolution, 500 samples a second.
        let mut config1 = Config1Reg(0);
        config1.set_hr(true);
        config1.set_dr(0b110);
        assert(set_bits(set_bit(0, 7, true), 2, 0, 0b110) == 0x86) by (bit_vector);
        writes.push(RegisterValue::CONFIG1(config1).write());
        // No test signal.
        let config2 = Config2Reg(0);
        writes.push(RegisterValue::CONFIG2(config2).write());
        // Internal reference; the right-leg drive is on and can be measured.
        let mut config3 = Config3Reg(0);
        config3.set_rev_6(true);
        config3.set_pd_refbuf(true);
        config3.set_pd_rld(true);
        config3.set_rldref_int(true);
        config3.set_rld_meas(true);
        assert(set_bit(
            set_bit(set_bit(set_bit(set_bit(0, 6, true), 7, true), 2, true), 3, true),
            4,
            true,
        ) == 0xdc) by (bit_vector);
        writes.push(RegisterValue::CONFIG3(config3).write());
        // The Wilson central terminal goes to the right-leg drive.
        let mut config4 = Config4Reg(0);
        config4.set_wct_to_rld(true);
        config4.set_pd_loff_comp(true);
        assert(set_bit(set_bit(0, 2, true), 1, true) == 0x06) by (bit_vector);
        writes.push(RegisterValue::CONFIG4(config4).write());
        // Gain 2 on the electrode inputs of channels 1 and 4 to 8.
        let mut channel = ChSetReg(0);
        channel.set_mux(0b000);
        channel.set_gain(0b010);
        assert(set_bits(set_bits(0, 2, 0, 0b000), 6, 4, 0b010) == 0x20) by (bit_vector);
        writes.push(RegisterValue::CH1SET(channel).write());
        writes.push(RegisterValue::CH4SET(channel).write());
        writes.push(RegisterValue::CH5SET(channel).write());
        writes.push(RegisterValue::CH6SET(channel).write());
        writes.push(RegisterValue::CH7SET(channel).write());
        writes.push(RegisterValue::CH8SET(channel).write());
        // The same on channels 2 and 3.
        let mut channel = ChSetReg(0);
        channel.set_mux(0b000);
        channel.set_gain(0b010);
        writes.push(RegisterValue::CH2SET(channel).write());
        writes.push(RegisterValue::CH3SET(channel).write());
        // Lead-off detection with direct current and resistors.
        let mut loff = LOffReg(0);
        loff.set_flead_off(0b11);
        loff.set_vlead_off_en(true);
        assert(set_bit(set_bits(0, 1, 0, 0b11), 4, true) == 0x13) by (bit_vector);
        writes.push(RegisterValue::LOFF(loff).write());
        // Lead-off detection on every positive input.
        let mut sens_p = LOffSensPReg(0);
        sens_p.set_loff1p(true);
        sens_p.set_loff2p(true);
        sens_p.set_loff3p(true);
        sens_p.set_loff4p(true);
        sens_p.set_loff5p(true);
        sens_p.set_loff6p(true);
        sens_p.set_loff7p(true);
        sens_p.set_loff8p(true);
        assert(set_bit(
            set_bit(
                set_bit(
                    set_bit(
                        set_bit(set_bit(set_bit(set_bit(0, 0, true), 1, true), 2, true), 3, true),
                        4,
                        true,
                    ),
                    5,
                    true,
                ),
                6,
                true,
            ),
            7,
            true,
        ) == 0xff) by (bit_vector);
        writes.push(RegisterValue::LOFF_SENSP(sens_p).write());
        // Lead-off detection on every negative input.
        let mut sens_n = LOffSensNReg(0);
        sens_n.set_loff1n(true);
        sens_n.set_loff2n(true);
        sens_n.set_loff3n(true);
        sens_n.set_loff4n(true);
        sens_n.set_loff5n(true);
        sens_n.set_loff6n(true);
        sens_n.set_loff7n(true);
        sens_n.set_loff8n(true);
        writes.push(RegisterValue::LOFF_SENSN(sens_n).write());
        // The right-leg drive takes the positive inputs 2 and 3,
        let mut rld_p = RldSensPReg(0);
        rld_p.set_rld2p(true);
        rld_p.set_rld3p(true);
        assert(set_bit(set_bit(0, 1, true), 2, true) == 0x06) by (bit_vector);
        writes.push(RegisterValue::RLD_SENSP(rld_p).write());
        // and the negative inputs 2 and 3.
        let mut rld_n = RldSensNReg(0);
        rld_n.set_rld2n(true);
        rld_n.set_rld3n(true);
        writes.push(RegisterValue::RLD_SENSN(rld_n).write());
        // The amplifiers of the Wilson central terminal stay off.
        let mut wct1 = Wct1Reg(0);
        wct1.set_pd_wtca(false);
        assert(set_bit(0, 3, false) == 0x00) by (bit_vector);
        writes.push(RegisterValue::WCT1(wct1).write());
        let mut wct2 = Wct2Reg(0);
        wct2.set_pd_wctb(false);
        wct2.set_pd_wctc(false);
        assert(set_bit(set_bit(0, 6, false), 7, false) == 0x00) by (bit_vector);
        writes.push(RegisterValue::WCT2(wct2).write());
        assert(writes@ =~= Self::writes());
        Profile { verify_id: Some(10), writes, start: true }
    }
}

/// A device that can be brought up for `Application`.
pub trait Initializer<Application>: Sized {
    /// What `application` wants of the device.
    spec fn profile_of(application: Application) -> ProfileView;

    /// Begins to bring the device up for `application`: the initialization,
    /// and what to do first.
    fn init<E>(&mut self, application: Application) -> (r: (Initialization, Action<E>))
        ensures
            r.0@.profile == Self::profile_of(application),
            (r.0@.state, r.1@) == begin_spec::<E>(Self::profile_of(application)),
            *final(self) == *old(self),
    ;
}

impl ProfileView {
    /// Whether the list of writes is one that a program can hold.
    pub open spec fn valid(self) -> bool {
        self.writes.len() <= usize::MAX
    }
}

/// What is handed out, and where the initialization stands afterwards, when
/// from `state` on the transactions end as `outcomes` tell, one after the
/// other. Outcomes that come after the end are not looked at.
pub open spec fn run<E>(
    profile: ProfileView,
    state: InitState,
    outcomes: Seq<Result<Seq<u8>, E>>,
) -> (InitState, Seq<ActionView<E>>)
    decreases outcomes.len(),
{
    if outcomes.len() == 0 {
        (state, Seq::empty())
    } else {
        match step_spec(profile, state, outcomes[0]) {
            None => (state, Seq::empty()),
            Some((next, action)) => {
                let rest = run(profile, next, outcomes.drop_first());
                (rest.0, seq![action] + rest.1)
            },
        }
    }
}

/// Whether `action` asks for the ID register.
pub open spec fn is_id_read<E>(action: ActionView<E>) -> bool {
    action == ActionView::<E>::Transact(read_plan(Register::ID.address()))
}

/// How many of `actions` ask for the ID register.
pub open spec fn id_reads<E>(actions: Seq<ActionView<E>>) -> nat
    decreases actions.len(),
{
    if actions.len() == 0 {
        0
    } else {
        (if is_id_read(actions[0]) {
            1nat
        } else {
            0nat
        }) + id_reads(actions.drop_first())
    }
}

/// How often the ID register can still be asked from `state` on.
pub open spec fn id_reads_ahead(profile: ProfileView, state: InitState) -> nat {
    if profile.verify_id is None {
        0
    } else {
        match state {
            InitState::Reset { attempts_left } => attempts_left as nat,
            InitState::StopContinuous { attempts_left } => attempts_left as nat,
            InitState::VerifyId { attempts_left } => (attempts_left - 1) as nat,
            _ => 0,
        }
    }
}

/// Every state that a step leads to fits the profile.
pub proof fn lemma_step_keeps_fit<E>(
    profile: ProfileView,
    state: InitState,
    outcome: Result<Seq<u8>, E>,
)
    requires
        profile.valid(),
        state.fits(profile),
    ensures
        step_spec(profile, state, outcome) matches Some((next, _)) ==> next.fits(profile),
        begin_spec::<E>(profile).0.fits(profile),
{
}

/// Once the initialization has ended, nothing more is handed out, whatever
/// is reported.
pub proof fn lemma_nothing_after_the_end<E>(
    profile: ProfileView,
    state: InitState,
    outcomes: Seq<Result<Seq<u8>, E>>,
)
    requires
        state.is_terminal(),
    ensures
        run(profile, state, outcomes) == (state, Seq::<ActionView<E>>::empty()),
{
}

/// A failure of the bus ends the initialization at once, whatever step it
/// hits: the error is handed out, nothing after it, and the initialization
/// stands at `Failed`.
pub proof fn lemma_failure_ends_run<E>(
    profile: ProfileView,
    state: InitState,
    error: E,
    later: Seq<Result<Seq<u8>, E>>,
)
    requires
        !state.is_terminal(),
    ensures
        step_spec(profile, state, Err::<Seq<u8>, E>(error)) matches Some((next, action)) && {
            &&& next is Failed
            &&& action is Finished
            &&& action->Finished_0 is Err
            &&& run(profile, state, seq![Err::<Seq<u8>, E>(error)] + later) == (next, seq![action])
        },
{
    let outcomes = seq![Err::<Seq<u8>, E>(error)] + later;
    let (next, action) = step_spec(profile, state, Err::<Seq<u8>, E>(error)).unwrap();
    assert(outcomes[0] == Err::<Seq<u8>, E>(error));
    lemma_nothing_after_the_end(profile, next, outcomes.drop_first());
    assert(seq![action] + Seq::<ActionView<E>>::empty() =~= seq![action]);
}

/// A register that does not take its byte ends the initialization: the
/// error names the register's address and the byte, and no later register of
/// the list is written.
pub proof fn lemma_write_failure_names_the_write<E>(
    profile: ProfileView,
    index: usize,
    error: E,
    later: Seq<Result<Seq<u8>, E>>,
)
    requires
        index < profile.writes.len(),
    ensures
        run(
            profile,
            InitState::ConfigureRegisters { index },
            seq![Err::<Seq<u8>, E>(error)] + later,
        ) == (
            InitState::Failed(
                Failure::Write {
                    address: profile.writes[index as int].register.address(),
                    data: profile.writes[index as int].value,
                },
            ),
            seq![
                ActionView::Finished(
                    Err(
                        InitializeErrorView::WriteError {
                            source: WriteError::SpiTransferError(error),
                            address: profile.writes[index as int].register.address(),
                            data: profile.writes[index as int].value,
                        },
                    ),
                ),
            ],
        ),
{
    lemma_failure_ends_run(profile, InitState::ConfigureRegisters { index }, error, later);
}

/// While the registers take their bytes, they are written in the order of
/// the list: after the write at `index` comes the write at `index + 1`.
pub proof fn lemma_writes_go_in_order<E>(profile: ProfileView, index: usize, reply: Seq<u8>)
    requires
        profile.valid(),
        index + 1 < profile.writes.len(),
    ensures
        step_spec(profile, InitState::ConfigureRegisters { index }, Ok::<Seq<u8>, E>(reply))
            == Some(
            (
                InitState::ConfigureRegisters { index: (index + 1) as usize },
                ActionView::<E>::Transact(
                    write_plan(
                        profile.writes[index + 1].register.address(),
                        profile.writes[index + 1].value,
                    ),
                ),
            ),
        ),
{
}

proof fn lemma_id_reads_push_front<E>(action: ActionView<E>, rest: Seq<ActionView<E>>)
    ensures
        id_reads(seq![action] + rest) == (if is_id_read(action) {
            1nat
        } else {
            0nat
        }) + id_reads(rest),
{
    let all = seq![action] + rest;
    assert(all[0] == action);
    assert(all.drop_first() =~= rest);
}

proof fn lemma_configuring_reads_no_id<E>(profile: ProfileView, index: int)
    ensures
        !is_id_read(configure_from::<E>(profile, index).1),
        id_reads_ahead(profile, configure_from::<E>(profile, index).0) == 0,
{
    let action = configure_from::<E>(profile, index).1;
    let id_read = read_plan(Register::ID.address());
    assert(id_read[0] is Transfer);
    if action is Transact {
        let plan = action->Transact_0;
        assert(plan[0] is Write);
    }
}

proof fn lemma_id_reads_of_run<E>(
    profile: ProfileView,
    state: InitState,
    outcomes: Seq<Result<Seq<u8>, E>>,
)
    requires
        profile.valid(),
        state.fits(profile),
    ensures
        id_reads(run(profile, state, outcomes).1) <= id_reads_ahead(profile, state),
    decreases outcomes.len(),
{
    if outcomes.len() == 0 {
    } else {
        match step_spec(profile, state, outcomes[0]) {
            None => {},
            Some((next, action)) => {
                lemma_step_keeps_fit(profile, state, outcomes[0]);
                lemma_id_reads_of_run(profile, next, outcomes.drop_first());
                lemma_id_reads_push_front(action, run(profile, next, outcomes.drop_first()).1);
                lemma_configuring_reads_no_id::<E>(profile, 0);
                if let InitState::ConfigureRegisters { index } = state {
                    lemma_configuring_reads_no_id::<E>(profile, index + 1);
                }
                let id_read = read_plan(Register::ID.address());
                assert(id_read[0] is Transfer);
                assert(settled_command(OpCode::Reset, 18)[0] is Write);
                assert(settled_command(OpCode::SDataC, 4)[0] is Write);
            },
        }
    }
}

/// However the transactions end, the ID register is asked no more often
/// than the profile allows; where the profile does not ask for it, never.
pub proof fn lemma_id_reads_bounded<E>(profile: ProfileView, outcomes: Seq<Result<Seq<u8>, E>>)
    requires
        profile.valid(),
    ensures
        ({
            let first = begin_spec::<E>(profile);
            id_reads(seq![first.1] + run(profile, first.0, outcomes).1)
                <= profile.id_reads_allowed()
        }),
{
    let first = begin_spec::<E>(profile);
    lemma_step_keeps_fit::<E>(profile, first.0, Ok(Seq::empty()));
    lemma_id_reads_of_run(profile, first.0, outcomes);
    lemma_id_reads_push_front(first.1, run(profile, first.0, outcomes).1);
    assert(settled_command(OpCode::Reset, 18)[0] is Write);
    assert(read_plan(Register::ID.address())[0] is Transfer);
}

/// `count` transactions that went well and brought nothing back.
pub open spec fn all_well<E>(count: nat) -> Seq<Result<Seq<u8>, E>> {
    Seq::new(count, |i: int| Ok::<Seq<u8>, E>(Seq::empty()))
}

/// The writes of the profile from the one at `index` on, in the order of the
/// list.
pub open spec fn writes_from<E>(profile: ProfileView, index: int) -> Seq<ActionView<E>> {
    Seq::new(
        (profile.writes.len() - index) as nat,
        |k: int|
            ActionView::Transact(
                write_plan(
                    profile.writes[index + k].register.address(),
                    profile.writes[index + k].value,
                ),
            ),
    )
}

/// What follows the last write: the start command where the profile asks for
/// it, and the good end.
pub open spec fn ending<E>(profile: ProfileView) -> Seq<ActionView<E>> {
    if profile.start {
        seq![
            ActionView::Transact(settled_command(OpCode::Start, 4)),
            ActionView::Finished(Ok(())),
        ]
    } else {
        seq![ActionView::Finished(Ok(()))]
    }
}

/// How many transactions follow the write at `index`.
pub open spec fn left_after(profile: ProfileView, index: int) -> nat {
    (profile.writes.len() - index - 1 + if profile.start {
        1int
    } else {
        0int
    }) as nat
}

/// While everything goes well, the registers are written in the order of the
/// list, each once, then conversions are started where the profile asks for
/// it, and the device is set up.
pub proof fn lemma_writes_then_start<E>(profile: ProfileView, index: usize)
    requires
        profile.valid(),
        index < profile.writes.len(),
    ensures
        run(
            profile,
            InitState::ConfigureRegisters { index },
            all_well::<E>(left_after(profile, index as int) + 1),
        ) == (InitState::Ready, writes_from::<E>(profile, index + 1) + ending::<E>(profile)),
    decreases profile.writes.len() - index,
{
    let outcomes = all_well::<E>(left_after(profile, index as int) + 1);
    let expected = writes_from::<E>(profile, index + 1) + ending::<E>(profile);
    let (next, action) = configure_from::<E>(profile, index + 1);
    assert(outcomes[0] == Ok::<Seq<u8>, E>(Seq::empty()));
    assert(step_spec(profile, InitState::ConfigureRegisters { index }, outcomes[0]) == Some(
        (next, action),
    ));
    let rest = run(profile, next, outcomes.drop_first());
    if index + 1 < profile.writes.len() {
        assert(outcomes.drop_first() =~= all_well::<E>(left_after(profile, index + 1) + 1));
        lemma_writes_then_start::<E>(profile, (index + 1) as usize);
        assert(seq![action] + rest.1 =~= expected);
    } else if profile.start {
        let last = outcomes.drop_first();
        assert(last.len() == 1);
        assert(last[0] == Ok::<Seq<u8>, E>(Seq::empty()));
        assert(last.drop_first().len() == 0);
        assert(run(profile, InitState::Ready, last.drop_first()).1 =~= Seq::<
            ActionView<E>,
        >::empty());
        assert(rest.0 == InitState::Ready);
        assert(rest.1 =~= seq![ActionView::<E>::Finished(Ok(()))]);
        assert(seq![action] + rest.1 =~= expected);
    } else {
        assert(outcomes.drop_first().len() == 0);
        assert(seq![action] + rest.1 =~= expected);
    }
}

/// A device that answers to its ID at once is set up by reset, the stop of
/// continuous reading, the read of the ID, the writes in the order of the
/// list and the start command where the profile asks for it: nothing else
/// goes over the bus.
pub proof fn lemma_all_goes_well<E>(profile: ProfileView, id: Seq<u8>)
    requires
        profile.valid(),
        profile.verify_id matches Some(n) ==> n >= 1,
        id_confirmed(id),
    ensures
        ({
            let first = begin_spec::<E>(profile);
            let asked: Seq<Result<Seq<u8>, E>> = if profile.verify_id is Some {
                seq![Ok(Seq::empty()), Ok(Seq::empty()), Ok(id)]
            } else {
                seq![Ok(Seq::empty()), Ok(Seq::empty())]
            };
            let outcomes = asked + all_well::<E>(left_after(profile, -1));
            let told: Seq<ActionView<E>> = if profile.verify_id is Some {
                seq![
                    ActionView::Transact(settled_command(OpCode::SDataC, 4)),
                    ActionView::Transact(read_plan(Register::ID.address())),
                ]
            } else {
                seq![ActionView::Transact(settled_command(OpCode::SDataC, 4))]
            };
            &&& first.1 == ActionView::<E>::Transact(settled_command(OpCode::Reset, 18))
            &&& run(profile, first.0, outcomes) == (
                InitState::Ready,
                told + writes_from::<E>(profile, 0) + ending::<E>(profile),
            )
        }),
{
    let first = begin_spec::<E>(profile);
    let well = all_well::<E>(left_after(profile, -1));
    let attempts: u8 = match profile.verify_id {
        Some(n) => n,
        None => 0,
    };
    let stop = ActionView::<E>::Transact(settled_command(OpCode::SDataC, 4));
    let read = ActionView::<E>::Transact(read_plan(Register::ID.address()));
    let expected = writes_from::<E>(profile, 0) + ending::<E>(profile);
    // From the first write on.
    let (next, action) = configure_from::<E>(profile, 0);
    let tail = run(profile, next, well);
    assert(tail.0 == InitState::Ready && seq![action] + tail.1 =~= expected) by {
        if 0 < profile.writes.len() {
            assert(well =~= all_well::<E>(left_after(profile, 0) + 1));
            lemma_writes_then_start::<E>(profile, 0);
        } else if profile.start {
            assert(well.len() == 1);
            assert(well[0] == Ok::<Seq<u8>, E>(Seq::empty()));
            assert(well.drop_first().len() == 0);
            assert(run(profile, InitState::Ready, well.drop_first()).1 =~= Seq::<
                ActionView<E>,
            >::empty());
            assert(tail.1 =~= seq![ActionView::<E>::Finished(Ok(()))]);
        } else {
            assert(well.len() == 0);
        }
    }
    if profile.verify_id is Some {
        let outcomes = seq![Ok::<Seq<u8>, E>(Seq::empty()), Ok(Seq::empty()), Ok(id)] + well;
        let after_reset = outcomes.drop_first();
        let after_stop = after_reset.drop_first();
        assert(outcomes[0] == Ok::<Seq<u8>, E>(Seq::empty()));
        assert(after_reset[0] == Ok::<Seq<u8>, E>(Seq::empty()));
        assert(after_stop[0] == Ok::<Seq<u8>, E>(id));
        assert(after_stop.drop_first() =~= well);
        let verified = run(profile, InitState::VerifyId { attempts_left: attempts }, after_stop);
        assert(verified.1 =~= seq![action] + tail.1);
        let stopped = run(
            profile,
            InitState::StopContinuous { attempts_left: attempts },
            after_reset,
        );
        assert(stopped.1 =~= seq![read] + verified.1);
        assert(run(profile, first.0, outcomes).1 =~= seq![stop] + stopped.1);
        assert(seq![stop] + (seq![read] + (seq![action] + tail.1)) =~= seq![stop, read]
            + writes_from::<E>(profile, 0) + ending::<E>(profile));
    } else {
        let outcomes = seq![Ok::<Seq<u8>, E>(Seq::empty()), Ok(Seq::empty())] + well;
        let after_reset = outcomes.drop_first();
        assert(outcomes[0] == Ok::<Seq<u8>, E>(Seq::empty()));
        assert(after_reset[0] == Ok::<Seq<u8>, E>(Seq::empty()));
        assert(after_reset.drop_first() =~= well);
        let stopped = run(
            profile,
            InitState::StopContinuous { attempts_left: attempts },
            after_reset,
        );
        assert(stopped.1 =~= seq![action] + tail.1);
        assert(run(profile, first.0, outcomes).1 =~= seq![stop] + stopped.1);
        assert(seq![stop] + (seq![action] + tail.1) =~= seq![stop] + writes_from::<E>(profile, 0)
            + ending::<E>(profile));
    }
}

} // verus!
