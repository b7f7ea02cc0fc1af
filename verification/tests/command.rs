use scpi::error::{Error, Result};
use scpi::parser::parameters::Parameters;
use scpi::parser::response::{Formatter, ResponseUnit};
use scpi::tree::command::{Command, CommandTypeMeta};
use scpi::{Context, Device};

struct TestCommandDevice;

impl Device for TestCommandDevice {
    fn handle_error(&mut self, _err: Error) {}
}

struct Query;

impl Command<TestCommandDevice> for Query {
    fn meta(&self) -> CommandTypeMeta {
        CommandTypeMeta::QueryOnly
    }

    fn query<F: Formatter>(
        &self,
        _device: &mut TestCommandDevice,
        _context: &mut Context,
        _params: Parameters<'_, '_>,
        _response: &mut ResponseUnit<'_, F>,
    ) -> Result<()> {
        Ok(())
    }
}

struct Event;

impl Command<TestCommandDevice> for Event {
    fn meta(&self) -> CommandTypeMeta {
        CommandTypeMeta::NoQuery
    }

    fn event(
        &self,
        _device: &mut TestCommandDevice,
        _context: &mut Context,
        _params: Parameters<'_, '_>,
    ) -> Result<()> {
        Ok(())
    }
}

struct Default;

impl Command<TestCommandDevice> for Default {
    fn event(
        &self,
        _device: &mut TestCommandDevice,
        _context: &mut Context,
        _params: Parameters<'_, '_>,
    ) -> Result<()> {
        Ok(())
    }

    fn query<F: Formatter>(
        &self,
        _device: &mut TestCommandDevice,
        _context: &mut Context,
        _params: Parameters<'_, '_>,
        _response: &mut ResponseUnit<'_, F>,
    ) -> Result<()> {
        Ok(())
    }
}

#[test]
fn command_test_query() {
    assert_eq!(Query {}.meta(), CommandTypeMeta::QueryOnly);
}

#[test]
fn command_test_event() {
    assert_eq!(Event {}.meta(), CommandTypeMeta::NoQuery);
}

#[test]
fn command_test_default() {
    assert_eq!(Default {}.meta(), CommandTypeMeta::Unknown);
}
