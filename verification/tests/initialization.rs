use ads1298::driver::initialization::Action;
use ads1298::driver::initialization::Default8Lead1x500;
use ads1298::driver::initialization::Failure;
use ads1298::driver::initialization::InitState;
use ads1298::driver::initialization::InitializeError;
use ads1298::driver::initialization::Initialization;
use ads1298::driver::initialization::Initializer;
use ads1298::driver::initialization::Profile;
use ads1298::driver::initialization::RegisterWrite;
use ads1298::driver::operator::Operation;
use ads1298::driver::operator::Transaction;
use ads1298::driver::registers::access::ReadError;
use ads1298::driver::registers::access::WriteError;
use ads1298::driver::registers::Register;
use ads1298::driver::ADS1298;

/// A bus that is not there: it keeps what it is asked to do, answers reads of
/// the ID register from a list, and fails at the transaction it is told to.
struct Bus {
    seen: Vec<Transaction>,
    id_answers: Vec<u8>,
    id_reads: usize,
    fail_at: Option<usize>,
}

impl Bus {
    fn new(id_answers: Vec<u8>, fail_at: Option<usize>) -> Bus {
        Bus { seen: Vec::new(), id_answers, id_reads: 0, fail_at }
    }

    fn run(&mut self, transaction: Transaction) -> Result<Vec<u8>, usize> {
        let at = self.seen.len();
        self.seen.push(transaction.clone());
        if self.fail_at == Some(at) {
            return Err(at);
        }
        match &transaction.operations[0] {
            Operation::Transfer { read, .. } => {
                let answer = self.id_answers[self.id_reads];
                self.id_reads += 1;
                Ok(vec![answer; *read])
            }
            _ => Ok(Vec::new()),
        }
    }

    fn written_addresses(&self) -> Vec<u8> {
        let mut addresses = Vec::new();
        for transaction in &self.seen {
            if let Operation::Write(bytes) = &transaction.operations[0] {
                if bytes.len() == 3 {
                    addresses.push(bytes[0] & 0x1f);
                }
            }
        }
        addresses
    }
}

fn bring_up(profile: Profile, bus: &mut Bus) -> (Initialization, Result<(), InitializeError<usize>>) {
    let (mut initializer, mut action) = Initialization::begin(profile);
    loop {
        match action {
            Action::Transact(transaction) => {
                let outcome = bus.run(transaction);
                action = initializer.step(outcome).unwrap();
            }
            Action::Finished(result) => return (initializer, result),
        }
    }
}

fn after(initializer: &mut Initialization, reply: Vec<u8>) -> Option<Action<()>> {
    initializer.step(Ok(reply))
}

fn reset() -> Transaction {
    Transaction { operations: vec![Operation::Write(vec![0x06]), Operation::DelayNs(9000)] }
}

fn stop_stream() -> Transaction {
    Transaction { operations: vec![Operation::Write(vec![0x11]), Operation::DelayNs(2000)] }
}

fn read_id() -> Transaction {
    Transaction { operations: vec![Operation::Transfer { read: 1, write: vec![0x20, 0x00] }] }
}

fn start() -> Transaction {
    Transaction { operations: vec![Operation::Write(vec![0x08]), Operation::DelayNs(2000)] }
}

fn write(address: u8, data: u8) -> Transaction {
    Transaction { operations: vec![Operation::Write(vec![0x40 | address, 0x00, data])] }
}

fn reference_writes() -> Vec<(u8, u8)> {
    vec![
        (0x01, 0x86),
        (0x02, 0x00),
        (0x03, 0xdc),
        (0x17, 0x06),
        (0x05, 0x20),
        (0x08, 0x20),
        (0x09, 0x20),
        (0x0a, 0x20),
        (0x0b, 0x20),
        (0x0c, 0x20),
        (0x06, 0x20),
        (0x07, 0x20),
        (0x04, 0x13),
        (0x0f, 0xff),
        (0x10, 0xff),
        (0x0d, 0x06),
        (0x0e, 0x06),
        (0x18, 0x00),
        (0x19, 0x00),
    ]
}

const GOOD_ID: u8 = 0x92;
const BAD_ID: u8 = 0x82;

#[test]
fn the_reference_profile_has_its_table() {
    let profile = Default8Lead1x500.profile();
    assert_eq!(profile.verify_id, Some(10));
    assert!(profile.start);
    assert_eq!(profile.writes.len(), 19);
    assert_eq!(profile.writes[0], RegisterWrite { register: Register::CONFIG1, value: 0x86 });
    assert_eq!(profile.writes[2], RegisterWrite { register: Register::CONFIG3, value: 0xdc });
    assert_eq!(profile.writes[3], RegisterWrite { register: Register::CONFIG4, value: 0x06 });
    assert_eq!(profile.writes[12], RegisterWrite { register: Register::LOFF, value: 0x13 });
    assert_eq!(profile.writes[18], RegisterWrite { register: Register::WCT2, value: 0x00 });
    let order: Vec<Register> = profile.writes.iter().map(|w| w.register).collect();
    assert_eq!(
        order,
        vec![
            Register::CONFIG1,
            Register::CONFIG2,
            Register::CONFIG3,
            Register::CONFIG4,
            Register::CH1SET,
            Register::CH4SET,
            Register::CH5SET,
            Register::CH6SET,
            Register::CH7SET,
            Register::CH8SET,
            Register::CH2SET,
            Register::CH3SET,
            Register::LOFF,
            Register::LOFF_SENSP,
            Register::LOFF_SENSN,
            Register::RLD_SENSP,
            Register::RLD_SENSN,
            Register::WCT1,
            Register::WCT2,
        ]
    );
}

#[test]
fn a_device_that_answers_at_once_is_set_up() {
    let mut bus = Bus::new(vec![GOOD_ID], None);
    let (initializer, result) = bring_up(Default8Lead1x500.profile(), &mut bus);
    assert_eq!(result, Ok(()));
    assert_eq!(initializer.state(), InitState::Ready);
    let mut expected = vec![reset(), stop_stream(), read_id()];
    for (address, data) in reference_writes() {
        expected.push(write(address, data));
    }
    expected.push(start());
    assert_eq!(bus.seen, expected);
}

#[test]
fn the_tenth_read_of_the_id_still_counts() {
    let mut answers = vec![BAD_ID; 9];
    answers.push(GOOD_ID);
    let mut bus = Bus::new(answers, None);
    let (initializer, result) = bring_up(Default8Lead1x500.profile(), &mut bus);
    assert_eq!(result, Ok(()));
    assert_eq!(initializer.state(), InitState::Ready);
    assert_eq!(bus.id_reads, 10);
    assert_eq!(bus.seen.iter().filter(|t| **t == reset()).count(), 10);
    assert_eq!(bus.seen.iter().filter(|t| **t == stop_stream()).count(), 10);
    assert_eq!(bus.seen.len(), 30 + 19 + 1);
    assert_eq!(bus.seen[27..30], [reset(), stop_stream(), read_id()]);
    assert_eq!(bus.seen[30], write(0x01, 0x86));
}

#[test]
fn after_ten_wrong_ids_nothing_more_is_tried() {
    let mut bus = Bus::new(vec![BAD_ID; 11], None);
    let (mut initializer, result) = bring_up(Default8Lead1x500.profile(), &mut bus);
    assert_eq!(
        result,
        Err(InitializeError::InitError(Some(
            "Incorrect ID register, check your SPI config and connection".to_string()
        )))
    );
    assert_eq!(initializer.state(), InitState::Failed(Failure::IncorrectId));
    assert_eq!(bus.id_reads, 10);
    assert_eq!(bus.seen.len(), 30);
    assert_eq!(bus.seen[29], read_id());
    assert!(bus.written_addresses().is_empty());
    let more: Option<Action<usize>> = initializer.step(Ok(vec![GOOD_ID]));
    assert_eq!(more, None);
    assert_eq!(initializer.state(), InitState::Failed(Failure::IncorrectId));
}

#[test]
fn an_empty_answer_is_a_wrong_id() {
    let profile = Profile { verify_id: Some(1), writes: vec![], start: false };
    let (mut initializer, first) = Initialization::begin::<()>(profile);
    assert_eq!(first, Action::Transact(reset()));
    assert_eq!(after(&mut initializer, vec![]), Some(Action::Transact(stop_stream())));
    assert_eq!(after(&mut initializer, vec![]), Some(Action::Transact(read_id())));
    assert_eq!(initializer.state(), InitState::VerifyId { attempts_left: 1 });
    assert_eq!(
        after(&mut initializer, vec![]),
        Some(Action::Finished(Err(InitializeError::InitError(Some(
            "Incorrect ID register, check your SPI config and connection".to_string()
        )))))
    );
}

#[test]
fn no_tries_means_no_transaction() {
    let profile = Profile { verify_id: Some(0), writes: vec![], start: true };
    let (initializer, first) = Initialization::begin::<()>(profile);
    assert_eq!(
        first,
        Action::Finished(Err(InitializeError::InitError(Some(
            "Incorrect ID register, check your SPI config and connection".to_string()
        ))))
    );
    assert_eq!(initializer.state(), InitState::Failed(Failure::IncorrectId));
}

#[test]
fn a_profile_without_id_check_never_reads_the_id() {
    let profile = Profile {
        verify_id: None,
        writes: vec![
            RegisterWrite { register: Register::CONFIG1, value: 0x82 },
            RegisterWrite { register: Register::GPIO, value: 0x0f },
        ],
        start: false,
    };
    let mut bus = Bus::new(vec![], None);
    let (initializer, result) = bring_up(profile, &mut bus);
    assert_eq!(result, Ok(()));
    assert_eq!(initializer.state(), InitState::Ready);
    assert_eq!(bus.seen, vec![reset(), stop_stream(), write(0x01, 0x82), write(0x14, 0x0f)]);
    assert_eq!(bus.id_reads, 0);
}

#[test]
fn a_failing_write_ends_the_sequence_and_is_named() {
    let writes = reference_writes();
    for (step, (address, data)) in writes.iter().enumerate() {
        let mut bus = Bus::new(vec![GOOD_ID], Some(3 + step));
        let (mut initializer, result) = bring_up(Default8Lead1x500.profile(), &mut bus);
        assert_eq!(
            result,
            Err(InitializeError::WriteError {
                source: WriteError::SpiTransferError(3 + step),
                address: *address,
                data: *data,
            })
        );
        assert_eq!(
            initializer.state(),
            InitState::Failed(Failure::Write { address: *address, data: *data })
        );
        let expected: Vec<u8> = writes[..=step].iter().map(|w| w.0).collect();
        assert_eq!(bus.written_addresses(), expected);
        assert_eq!(bus.seen.len(), 3 + step + 1);
        assert_eq!(initializer.step::<usize>(Ok(vec![])), None);
        assert_eq!(bus.seen.iter().filter(|t| **t == start()).count(), 0);
    }
}

#[test]
fn a_failing_reset_is_a_reset_error() {
    let mut bus = Bus::new(vec![GOOD_ID], Some(0));
    let (initializer, result) = bring_up(Default8Lead1x500.profile(), &mut bus);
    assert_eq!(
        result,
        Err(InitializeError::ResetError(
            WriteError::SpiTransferError(0),
            Some("Failed to reset chip".to_string())
        ))
    );
    assert_eq!(initializer.state(), InitState::Failed(Failure::Reset));
    assert_eq!(bus.seen, vec![reset()]);
}

#[test]
fn a_failing_stop_of_continuous_reading_is_a_reset_error() {
    let mut bus = Bus::new(vec![GOOD_ID], Some(1));
    let (initializer, result) = bring_up(Default8Lead1x500.profile(), &mut bus);
    assert_eq!(
        result,
        Err(InitializeError::ResetError(
            WriteError::SpiTransferError(1),
            Some("Failed to disable converting mode".to_string())
        ))
    );
    assert_eq!(initializer.state(), InitState::Failed(Failure::StopContinuous));
    assert_eq!(bus.seen, vec![reset(), stop_stream()]);
}

#[test]
fn a_failing_read_of_the_id_is_a_read_error() {
    let mut bus = Bus::new(vec![GOOD_ID], Some(2));
    let (initializer, result) = bring_up(Default8Lead1x500.profile(), &mut bus);
    assert_eq!(
        result,
        Err(InitializeError::ReadError(
            ReadError::SpiTransferError(2),
            Some("Failed to read ID register".to_string())
        ))
    );
    assert_eq!(initializer.state(), InitState::Failed(Failure::ReadId));
    assert_eq!(bus.seen, vec![reset(), stop_stream(), read_id()]);
}

#[test]
fn a_failing_start_is_a_reset_error() {
    let mut bus = Bus::new(vec![GOOD_ID], Some(3 + 19));
    let (initializer, result) = bring_up(Default8Lead1x500.profile(), &mut bus);
    assert_eq!(
        result,
        Err(InitializeError::ResetError(
            WriteError::SpiTransferError(22),
            Some("Failed to enable converting mode".to_string())
        ))
    );
    assert_eq!(initializer.state(), InitState::Failed(Failure::Start));
    assert_eq!(bus.seen.len(), 23);
}

#[test]
fn the_states_follow_one_another() {
    let profile = Profile {
        verify_id: Some(2),
        writes: vec![RegisterWrite { register: Register::LOFF, value: 0x13 }],
        start: true,
    };
    let mut device = ADS1298::new();
    let (mut initializer, first): (Initialization, Action<()>) = device.init(profile.clone());
    assert_eq!(initializer.profile(), &profile);
    assert_eq!(first, Action::Transact(reset()));
    assert_eq!(initializer.state(), InitState::Reset { attempts_left: 2 });
    assert_eq!(after(&mut initializer, vec![]), Some(Action::Transact(stop_stream())));
    assert_eq!(initializer.state(), InitState::StopContinuous { attempts_left: 2 });
    assert_eq!(after(&mut initializer, vec![]), Some(Action::Transact(read_id())));
    assert_eq!(initializer.state(), InitState::VerifyId { attempts_left: 2 });
    assert_eq!(after(&mut initializer, vec![BAD_ID]), Some(Action::Transact(reset())));
    assert_eq!(initializer.state(), InitState::Reset { attempts_left: 1 });
    assert_eq!(after(&mut initializer, vec![]), Some(Action::Transact(stop_stream())));
    assert_eq!(after(&mut initializer, vec![]), Some(Action::Transact(read_id())));
    assert_eq!(initializer.state(), InitState::VerifyId { attempts_left: 1 });
    assert_eq!(after(&mut initializer, vec![GOOD_ID]), Some(Action::Transact(write(0x04, 0x13))));
    assert_eq!(initializer.state(), InitState::ConfigureRegisters { index: 0 });
    assert_eq!(after(&mut initializer, vec![]), Some(Action::Transact(start())));
    assert_eq!(initializer.state(), InitState::Start);
    assert_eq!(after(&mut initializer, vec![]), Some(Action::Finished(Ok(()))));
    assert_eq!(initializer.state(), InitState::Ready);
    assert_eq!(after(&mut initializer, vec![]), None);
    assert_eq!(initializer.state(), InitState::Ready);
}

#[test]
fn the_device_begins_the_reference_application() {
    let mut device = ADS1298::new();
    let (initializer, first): (Initialization, Action<()>) = device.init(Default8Lead1x500);
    assert_eq!(first, Action::Transact(reset()));
    assert_eq!(initializer.state(), InitState::Reset { attempts_left: 10 });
    assert_eq!(initializer.profile(), &Default8Lead1x500.profile());
}
