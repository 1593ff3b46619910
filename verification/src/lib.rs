mod config;
mod constants;
mod error;

pub mod command;
pub mod frame;

pub use command::{OperationalState, Reading, Request, Response};
pub use config::{Config, DeviceID, DeviceMode};
pub use constants::{COMMAND_ID, DATA_REPORT_ID, HEAD, REPLY_ID, TAIL};
pub use error::Error;
pub use frame::{FrameReader, ReadStep};
pub mod sensor;
pub use sensor::Sds011;
pub mod procedure;
pub use procedure::{Action, Procedure, Routine};
pub mod laws;
