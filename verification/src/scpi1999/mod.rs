//! SCPI-99 mandatory registers and commands.

pub mod register;

pub use register::{BitFlags, EventRegister, EventRegisterName, GetEventRegister};
pub mod sense;
pub mod status;
pub mod system;
pub mod trigger;
pub mod unit;
pub mod util;

pub use status::{Operation, Questionable};
pub mod device;

pub use device::ScpiDevice;
pub mod numeric;

pub use numeric::{NumericBuilder, NumericValue};
