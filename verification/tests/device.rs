use std::collections::VecDeque;

use scpi::error::{Error, ErrorCode, ErrorQueue};
use scpi::ieee488::commands::{
    ClsCommand, EseCommand, EsrCommand, IdnCommand, OpcCommand, SreCommand, StbCommand,
};
use scpi::ieee488::IEEE488Device;
use scpi::parser::parameters::Parameters;
use scpi::parser::response::Formatter;
use scpi::parser::tokenizer::Tokenizer;
use scpi::scpi1999::register::{EventRegister, GetEventRegister};
use scpi::scpi1999::status::{
    CondCommand, EnabCommand, EventCommand, NtrCommand, Operation, PtrCommand, Questionable,
    StatPresCommand,
};
use scpi::scpi1999::system::{SystErrAllCommand, SystErrCounCommand, SystErrNextCommand};
use scpi::scpi1999::trigger::{Abort, AbortCommand};
use scpi::scpi1999::ScpiDevice;
use scpi::tree::command::{Command, CommandTypeMeta};
use scpi::Context;

struct Instrument {
    sre: u8,
    esr: u8,
    ese: u8,
    errors: VecDeque<Error>,
    operation: EventRegister,
    questionable: EventRegister,
    aborted: bool,
}

impl Instrument {
    fn new() -> Self {
        Instrument {
            sre: 0,
            esr: 0,
            ese: 0,
            errors: VecDeque::new(),
            operation: EventRegister::new(),
            questionable: EventRegister::new(),
            aborted: false,
        }
    }
}

impl ErrorQueue for Instrument {
    fn push_back_error(&mut self, err: Error) {
        self.errors.push_back_error(err)
    }

    fn pop_front_error(&mut self) -> Error {
        self.errors.pop_front_error()
    }

    fn len(&self) -> usize {
        self.errors.len()
    }

    fn clear(&mut self) {
        self.errors.clear()
    }
}

impl GetEventRegister<Operation> for Instrument {
    fn register(&self) -> &EventRegister {
        &self.operation
    }

    fn register_mut(&mut self) -> &mut EventRegister {
        &mut self.operation
    }
}

impl GetEventRegister<Questionable> for Instrument {
    fn register(&self) -> &EventRegister {
        &self.questionable
    }

    fn register_mut(&mut self) -> &mut EventRegister {
        &mut self.questionable
    }
}

impl ScpiDevice for Instrument {
    fn sre(&self) -> u8 {
        self.sre
    }

    fn set_sre(&mut self, value: u8) {
        self.sre = value
    }

    fn esr(&self) -> u8 {
        self.esr
    }

    fn set_esr(&mut self, value: u8) {
        self.esr = value
    }

    fn ese(&self) -> u8 {
        self.ese
    }

    fn set_ese(&mut self, value: u8) {
        self.ese = value
    }
}

impl Abort for Instrument {
    fn abort(&mut self) {
        self.aborted = true;
    }
}

fn event<C: Command<Instrument>>(cmd: &C, dev: &mut Instrument, args: &[u8]) -> Result<(), Error> {
    let mut context = Context::new();
    let mut tok = Tokenizer::new_params(args);
    cmd.event(dev, &mut context, Parameters::with(&mut tok))
}

fn query<C: Command<Instrument>>(cmd: &C, dev: &mut Instrument) -> (Result<(), Error>, Vec<u8>) {
    let mut context = Context::new();
    let mut tok = Tokenizer::new_params(b"");
    let mut buf: Vec<u8> = Vec::new();
    let r = {
        let mut unit = buf.response_unit().unwrap();
        cmd.query(dev, &mut context, Parameters::with(&mut tok), &mut unit)
    };
    (r, buf)
}

#[test]
fn ese_and_sre_set_and_query() {
    let mut dev = Instrument::new();
    assert_eq!(event(&EseCommand, &mut dev, b"32"), Ok(()));
    assert_eq!(dev.ese, 32);
    assert_eq!(query(&EseCommand, &mut dev), (Ok(()), b"32".to_vec()));
    assert_eq!(event(&SreCommand, &mut dev, b"255"), Ok(()));
    assert_eq!(query(&SreCommand, &mut dev), (Ok(()), b"255".to_vec()));
    // Out of range and missing values are refused, leaving the register.
    assert_eq!(
        event(&EseCommand, &mut dev, b"256"),
        Err(Error::new(ErrorCode::DataOutOfRange))
    );
    assert_eq!(
        event(&EseCommand, &mut dev, b""),
        Err(Error::new(ErrorCode::MissingParameter))
    );
    assert_eq!(dev.ese, 32);
}

#[test]
fn esr_query_clears_register() {
    let mut dev = Instrument::new();
    dev.esr = 0x24;
    assert_eq!(query(&EsrCommand, &mut dev), (Ok(()), b"36".to_vec()));
    assert_eq!(dev.esr, 0);
}

#[test]
fn opc_sets_operation_complete() {
    let mut dev = Instrument::new();
    assert_eq!(event(&OpcCommand, &mut dev, b""), Ok(()));
    assert_eq!(dev.esr & 0x01, 0x01);
    assert_eq!(query(&OpcCommand, &mut dev), (Ok(()), b"1".to_vec()));
}

#[test]
fn cls_clears_status() {
    let mut dev = Instrument::new();
    dev.esr = 0xff;
    dev.operation.event = 0x10;
    assert_eq!(event(&ClsCommand, &mut dev, b""), Ok(()));
    assert_eq!(dev.esr, 0);
    assert_eq!(dev.operation.event, 0);
    assert_eq!(<ClsCommand as Command<Instrument>>::meta(&ClsCommand), CommandTypeMeta::NoQuery);
}

#[test]
fn idn_reports_identity() {
    let mut dev = Instrument::new();
    let idn = IdnCommand {
        manufacturer: b"GPA-Robotics",
        model: b"T800-101",
        serial: b"0",
        firmware: b"0",
    };
    assert_eq!(
        query(&idn, &mut dev),
        (Ok(()), b"GPA-Robotics,T800-101,0,0".to_vec())
    );
}

#[test]
fn status_byte_reports_summaries() {
    let mut dev = Instrument::new();
    assert_eq!(dev.read_stb(), 0);
    // An error in the queue sets bit 2.
    dev.push_back_error(Error::new(ErrorCode::SyntaxError));
    assert_eq!(dev.read_stb(), 0x04);
    // An enabled standard event sets bit 5, and with it enabled for
    // service request, bit 6.
    dev.esr = 0x20;
    dev.ese = 0x20;
    assert_eq!(dev.read_stb(), 0x24);
    dev.sre = 0x20;
    assert_eq!(dev.read_stb(), 0x64);
    assert_eq!(query(&StbCommand, &mut dev), (Ok(()), b"100".to_vec()));
    // An enabled OPERation condition sets bit 7.
    dev.operation.enable = 0x01;
    dev.operation.set_condition_bits(0x01);
    assert_eq!(dev.read_stb() & 0x80, 0x80);
}

#[test]
fn handled_error_is_queued_with_its_bit() {
    let mut dev = Instrument::new();
    IEEE488Device::_handle_error(&mut dev, Error::new(ErrorCode::SyntaxError));
    // Command errors set bit 5 of the event status register.
    assert_eq!(dev.esr, 0x20);
    assert_eq!(dev.errors.len(), 1);
}

#[test]
fn system_error_queries() {
    let mut dev = Instrument::new();
    assert_eq!(
        query(&SystErrNextCommand, &mut dev),
        (Ok(()), b"0,\"No error\"".to_vec())
    );
    dev.push_back_error(Error::new(ErrorCode::SyntaxError));
    dev.push_back_error(Error::extended(ErrorCode::DataOutOfRange, b"Too big"));
    assert_eq!(query(&SystErrCounCommand, &mut dev), (Ok(()), b"2".to_vec()));
    assert_eq!(
        query(&SystErrNextCommand, &mut dev),
        (Ok(()), b"-102,\"Syntax error\"".to_vec())
    );
    dev.push_back_error(Error::new(ErrorCode::QueueOverflow));
    assert_eq!(
        query(&SystErrAllCommand, &mut dev),
        (Ok(()), b"-222,-350".to_vec())
    );
    assert_eq!(dev.errors.len(), 0);
    assert_eq!(query(&SystErrAllCommand, &mut dev), (Ok(()), b"0".to_vec()));
}

#[test]
fn system_error_all_lists_every_code() {
    let mut dev = Instrument::new();
    dev.push_back_error(Error::new(ErrorCode::SyntaxError));
    dev.push_back_error(Error::new(ErrorCode::NoError));
    dev.push_back_error(Error::new(ErrorCode::QueueOverflow));
    assert_eq!(query(&SystErrAllCommand, &mut dev), (Ok(()), b"-102,0,-350".to_vec()));
    assert_eq!(dev.errors.len(), 0);
}

#[test]
fn abort_runs_the_device_abort() {
    let mut dev = Instrument::new();
    assert_eq!(event(&AbortCommand, &mut dev, b""), Ok(()));
    assert!(dev.aborted);
    assert_eq!(
        <AbortCommand as Command<Instrument>>::meta(&AbortCommand),
        CommandTypeMeta::NoQuery
    );
}

#[test]
fn status_register_commands() {
    let mut dev = Instrument::new();
    // Enable, then read back.
    assert_eq!(event(&EnabCommand::<Operation>::new(), &mut dev, b"5"), Ok(()));
    assert_eq!(dev.operation.enable, 5);
    assert_eq!(
        query(&EnabCommand::<Operation>::new(), &mut dev),
        (Ok(()), b"5".to_vec())
    );
    // A rising condition is recorded as an event (positive filter on).
    dev.operation.set_condition(0x0001);
    assert_eq!(
        query(&CondCommand::<Operation>::new(), &mut dev),
        (Ok(()), b"1".to_vec())
    );
    assert_eq!(
        query(&EventCommand::<Operation>::new(), &mut dev),
        (Ok(()), b"1".to_vec())
    );
    // Reading the event register clears it.
    assert_eq!(dev.operation.event, 0);
    // Filters.
    assert_eq!(event(&NtrCommand::<Questionable>::new(), &mut dev, b"2"), Ok(()));
    assert_eq!(event(&PtrCommand::<Questionable>::new(), &mut dev, b"0"), Ok(()));
    assert_eq!(dev.questionable.ntr_filter, 2);
    assert_eq!(dev.questionable.ptr_filter, 0);
    dev.questionable.set_condition(0x0002);
    assert_eq!(dev.questionable.event, 0);
    dev.questionable.set_condition(0x0000);
    assert_eq!(dev.questionable.event, 2);
    // Out of range values are refused.
    assert_eq!(
        event(&EnabCommand::<Operation>::new(), &mut dev, b"65536"),
        Err(Error::new(ErrorCode::DataOutOfRange))
    );
    // Preset restores the filters and enables.
    assert_eq!(event(&StatPresCommand, &mut dev, b""), Ok(()));
    assert_eq!(dev.operation.enable, 0);
    assert_eq!(dev.questionable.ptr_filter, 0xffff);
    assert_eq!(dev.questionable.ntr_filter, 0);
}

#[test]
fn event_register_laws_on_values() {
    let mut reg = EventRegister::new();
    assert_eq!(reg.ptr_filter, 0xffff);
    // Setting the same condition again records nothing new.
    reg.set_condition(0x0003);
    assert_eq!(reg.event, 0x0003);
    reg.clear_event();
    reg.set_condition(0x0003);
    assert_eq!(reg.event, 0);
    // Falling edges are not recorded without a negative filter.
    reg.clear_condition_bits(0x0001);
    assert_eq!(reg.condition, 0x0002);
    assert_eq!(reg.event, 0);
    assert!(reg.get_condition_bit(0x0002));
    assert!(!reg.get_condition_bit(0x0001));
    // The summary covers enabled bits below bit 15 only.
    reg.enable = 0x8000;
    reg.set_condition_bits(0x8000);
    assert!(!reg.get_summary());
    reg.enable = 0x0002;
    assert!(reg.get_summary());
    reg.preset();
    assert_eq!(reg.condition, 0);
    assert_eq!(reg.enable, 0);
}
