use std::collections::VecDeque;

use scpi::error::{Error, ErrorCode, ErrorQueue, Result};
use scpi::ieee488::commands::{ClsCommand, EseCommand, IdnCommand};
use scpi::parser::parameters::Parameters;
use scpi::parser::response::{Formatter, ResponseUnit};
use scpi::scpi1999::register::{EventRegister, GetEventRegister};
use scpi::scpi1999::status::{Operation, Questionable};
use scpi::scpi1999::system::{SystErrCounCommand, SystErrNextCommand};
use scpi::scpi1999::ScpiDevice;
use scpi::tree::command::Command;
use scpi::tree::Node;
use scpi::Context;

struct Meter {
    sre: u8,
    esr: u8,
    ese: u8,
    errors: VecDeque<Error>,
    operation: EventRegister,
    questionable: EventRegister,
}

impl Meter {
    fn new() -> Self {
        Meter {
            sre: 0,
            esr: 0,
            ese: 0,
            errors: VecDeque::new(),
            operation: EventRegister::new(),
            questionable: EventRegister::new(),
        }
    }
}

impl ErrorQueue for Meter {
    fn push_back_error(&mut self, err: Error) {
        self.errors.push_back_error(err)
    }

    fn pop_front_error(&mut self) -> Error {
        self.errors.pop_front_error()
    }

    fn len(&self) -> usize {
        self.errors.len()
    }

    fn clear(&mut self) {
        self.errors.clear()
    }
}

impl GetEventRegister<Operation> for Meter {
    fn register(&self) -> &EventRegister {
        &self.operation
    }

    fn register_mut(&mut self) -> &mut EventRegister {
        &mut self.operation
    }
}

impl GetEventRegister<Questionable> for Meter {
    fn register(&self) -> &EventRegister {
        &self.questionable
    }

    fn register_mut(&mut self) -> &mut EventRegister {
        &mut self.questionable
    }
}

impl ScpiDevice for Meter {
    fn sre(&self) -> u8 {
        self.sre
    }

    fn set_sre(&mut self, value: u8) {
        self.sre = value
    }

    fn esr(&self) -> u8 {
        self.esr
    }

    fn set_esr(&mut self, value: u8) {
        self.esr = value
    }

    fn ese(&self) -> u8 {
        self.ese
    }

    fn set_ese(&mut self, value: u8) {
        self.ese = value
    }
}

/// The commands of the test tree.
enum Cmd {
    Cls(ClsCommand),
    Ese(EseCommand),
    Idn(IdnCommand<'static>),
    Next(SystErrNextCommand),
    Count(SystErrCounCommand),
}

impl Command<Meter> for Cmd {
    fn event(&self, device: &mut Meter, context: &mut Context, params: Parameters<'_, '_>) -> Result<()> {
        match self {
            Cmd::Cls(c) => c.event(device, context, params),
            Cmd::Ese(c) => c.event(device, context, params),
            Cmd::Idn(c) => c.event(device, context, params),
            Cmd::Next(c) => c.event(device, context, params),
            Cmd::Count(c) => c.event(device, context, params),
        }
    }

    fn query<F: Formatter>(
        &self,
        device: &mut Meter,
        context: &mut Context,
        params: Parameters<'_, '_>,
        response: &mut ResponseUnit<'_, F>,
    ) -> Result<()> {
        match self {
            Cmd::Cls(c) => c.query(device, context, params, response),
            Cmd::Ese(c) => c.query(device, context, params, response),
            Cmd::Idn(c) => c.query(device, context, params, response),
            Cmd::Next(c) => c.query(device, context, params, response),
            Cmd::Count(c) => c.query(device, context, params, response),
        }
    }
}

fn run(command: &[u8], dev: &mut Meter) -> (Result<()>, Vec<u8>) {
    let cls = Cmd::Cls(ClsCommand);
    let ese = Cmd::Ese(EseCommand);
    let idn = Cmd::Idn(IdnCommand {
        manufacturer: b"GPA-Robotics",
        model: b"T800-101",
        serial: b"0",
        firmware: b"0",
    });
    let next = Cmd::Next(SystErrNextCommand);
    let count = Cmd::Count(SystErrCounCommand);
    let error_nodes = [Node::default_leaf(b"NEXT", &next), Node::leaf(b"COUNt", &count)];
    let system_nodes = [Node::branch(b"ERRor", &error_nodes)];
    let root_nodes = [
        Node::leaf(b"*CLS", &cls),
        Node::leaf(b"*ESE", &ese),
        Node::leaf(b"*IDN", &idn),
        Node::branch(b"SYSTem", &system_nodes),
    ];
    let root = Node::root(&root_nodes);
    let mut context = Context::new();
    let mut buf: Vec<u8> = Vec::new();
    let r = root.run(command, dev, &mut context, &mut buf);
    (r, buf)
}

#[test]
fn tree_runs_common_commands() {
    let mut dev = Meter::new();
    assert_eq!(run(b"*ESE 32;*ESE?", &mut dev), (Ok(()), b"32\n".to_vec()));
    assert_eq!(
        run(b"*IDN?\n", &mut dev),
        (Ok(()), b"GPA-Robotics,T800-101,0,0\n".to_vec())
    );
    assert_eq!(run(b"*cls", &mut dev), (Ok(()), b"".to_vec()));
}

#[test]
fn tree_routes_long_short_and_default_headers() {
    let mut dev = Meter::new();
    assert_eq!(
        run(b"SYSTem:ERRor:NEXT?", &mut dev),
        (Ok(()), b"0,\"No error\"\n".to_vec())
    );
    // The default leaf may be left out, and short forms match.
    assert_eq!(
        run(b"syst:err?", &mut dev),
        (Ok(()), b"0,\"No error\"\n".to_vec())
    );
    // Later headers are relative to the branch of the one before.
    assert_eq!(
        run(b"SYST:ERR:NEXT?;COUN?", &mut dev),
        (Ok(()), b"0,\"No error\";0\n".to_vec())
    );
    // A leading colon starts again at the root.
    assert_eq!(
        run(b"SYST:ERR:COUN?;:SYST:ERR:COUN?", &mut dev),
        (Ok(()), b"0;0\n".to_vec())
    );
}

#[test]
fn tree_reports_errors_to_the_device() {
    let mut dev = Meter::new();
    let (r, _) = run(b"SYST:POTato?", &mut dev);
    assert_eq!(r, Err(Error::new(ErrorCode::UndefinedHeader)));
    // The error is queued and its event status bit is set.
    assert_eq!(dev.errors.len(), 1);
    assert_eq!(dev.esr & 0x20, 0x20);
    let (r, _) = run(b"*ESE 1,2", &mut dev);
    assert_eq!(r, Err(Error::new(ErrorCode::ParameterNotAllowed)));
    assert_eq!(dev.ese, 1);
    let (r, _) = run(b"*IDN?:FOO", &mut dev);
    assert!(r.is_err());
    let (r, _) = run(b"*ESE", &mut dev);
    assert_eq!(r, Err(Error::new(ErrorCode::MissingParameter)));
}

#[test]
fn tree_empty_message() {
    let mut dev = Meter::new();
    assert_eq!(run(b"", &mut dev), (Ok(()), b"".to_vec()));
}
