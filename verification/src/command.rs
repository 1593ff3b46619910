use vstd::prelude::*;

use crate::config::{Config, DeviceID, DeviceMode};
use crate::constants::{COMMAND_ID, DATA_REPORT_ID, HEAD, REPLY_ID, TAIL};
use crate::error::Error;
use crate::frame::checksum_of;

verus! {

/// Whether the sensor is measuring or resting.
#[derive(Debug, Clone, Copy, PartialEq, Eq, Structural)]
pub enum OperationalState {
    /// Sensor is in low-power sleep mode.
    Sleeping,
    /// Sensor is actively taking measurements.
    Working,
}

/// One particulate matter measurement, in tenths of µg/m³ as the sensor sends it.
#[derive(Debug, Clone, Copy, PartialEq, Eq, Structural)]
pub struct Reading {
    /// PM2.5 concentration, in tenths of µg/m³.
    pub pm2_5: u16,
    /// PM10 concentration, in tenths of µg/m³.
    pub pm10: u16,
}

/// A command the driver can send to the sensor.
#[derive(Debug, Clone, Copy, PartialEq, Eq, Structural)]
pub enum Request {
    /// Ask for a measurement (command `0x04`).
    QueryData,
    /// Switch to active or passive reporting (command `0x02`, set).
    SetReportingMode(DeviceMode),
    /// Ask for the reporting mode (command `0x02`, query).
    GetReportingMode,
    /// Put the sensor to sleep or wake it up (command `0x06`, set).
    SetOperationalState(OperationalState),
    /// Ask whether the sensor sleeps or works (command `0x06`, query).
    GetOperationalState,
    /// Set the working period in minutes, `0` to `30` (command `0x08`, set).
    SetWorkingPeriod(u8),
    /// Ask for the working period (command `0x08`, query).
    GetWorkingPeriod,
    /// Give the sensor a new device ID, low byte first (command `0x05`).
    SetDeviceId(u8, u8),
    /// Ask for the firmware version (command `0x07`).
    GetFirmware,
}

/// What the sensor's reply to a request means.
#[derive(Debug, Clone, Copy, PartialEq, Eq, Structural)]
pub enum Response {
    /// The sensor carried out a setting.
    Acknowledged,
    /// The sensor's reporting mode.
    ReportingMode(DeviceMode),
    /// The sensor's operational state.
    OperationalState(OperationalState),
    /// The sensor's working period in minutes, `0` (continuous) to `30`.
    WorkingPeriod(u8),
    /// The firmware version as year, month and day.
    Firmware(u8, u8, u8),
    /// A measurement.
    Sample(Reading),
}

/// The byte that selects a reporting mode: `0` for active, `1` for passive.
pub open spec fn mode_code(m: DeviceMode) -> u8 {
    match m {
        DeviceMode::Active => 0,
        DeviceMode::Passive => 1,
    }
}

/// The byte that selects an operational state: `1` to work, `0` to sleep.
pub open spec fn state_code(s: OperationalState) -> u8 {
    match s {
        OperationalState::Working => 1,
        OperationalState::Sleeping => 0,
    }
}

/// The reporting mode that a reply byte names: `0` is active, anything else passive.
pub open spec fn mode_of_code(b: u8) -> DeviceMode {
    if b == 0 {
        DeviceMode::Active
    } else {
        DeviceMode::Passive
    }
}

/// The operational state that a reply byte names: `1` is working, anything else sleeping.
pub open spec fn state_of_code(b: u8) -> OperationalState {
    if b == 1 {
        OperationalState::Working
    } else {
        OperationalState::Sleeping
    }
}

/// The command byte (frame byte 2) of a request.
pub open spec fn request_code(req: Request) -> u8 {
    match req {
        Request::QueryData => 0x04,
        Request::SetReportingMode(_) => 0x02,
        Request::GetReportingMode => 0x02,
        Request::SetOperationalState(_) => 0x06,
        Request::GetOperationalState => 0x06,
        Request::SetWorkingPeriod(_) => 0x08,
        Request::GetWorkingPeriod => 0x08,
        Request::SetDeviceId(_, _) => 0x05,
        Request::GetFirmware => 0x07,
    }
}

/// Frame byte 3: `1` where a request sets a mode, state or period, else `0`.
pub open spec fn request_action(req: Request) -> u8 {
    match req {
        Request::SetReportingMode(_) => 0x01,
        Request::SetOperationalState(_) => 0x01,
        Request::SetWorkingPeriod(_) => 0x01,
        _ => 0x00,
    }
}

/// Frame byte 4: the value that a setting request carries, else `0`.
pub open spec fn request_value(req: Request) -> u8 {
    match req {
        Request::SetReportingMode(m) => mode_code(m),
        Request::SetOperationalState(s) => state_code(s),
        Request::SetWorkingPeriod(p) => p,
        _ => 0x00,
    }
}

/// Frame bytes 13 and 14: the new device ID of a `SetDeviceId`, else zeros.
pub open spec fn request_new_id(req: Request) -> (u8, u8) {
    match req {
        Request::SetDeviceId(a, b) => (a, b),
        _ => (0x00, 0x00),
    }
}

/// Whether the driver sends the request at all: a working period above 30 minutes is refused.
pub open spec fn request_valid(req: Request) -> bool {
    match req {
        Request::SetWorkingPeriod(p) => p <= 30,
        _ => true,
    }
}

/// The fifteen bytes `2..=16` of a command frame: the command, its data, and
/// the ID of the sensor it is addressed to.
pub open spec fn command_body(id: DeviceID, req: Request) -> Seq<u8> {
    seq![
        request_code(req),
        request_action(req),
        request_value(req),
        0u8,
        0u8,
        0u8,
        0u8,
        0u8,
        0u8,
        0u8,
        0u8,
        request_new_id(req).0,
        request_new_id(req).1,
        id.id1,
        id.id2,
    ]
}

/// A command frame around fifteen body bytes and a checksum byte.
pub open spec fn command_layout(body: Seq<u8>, check: u8) -> Seq<u8> {
    seq![HEAD, COMMAND_ID] + body + seq![check, TAIL]
}

/// The frame that carries `req` to the sensor with ID `id`.
pub open spec fn command_frame(id: DeviceID, req: Request) -> Seq<u8> {
    command_layout(command_body(id, req), checksum_of(command_body(id, req)))
}

/// The little-endian value of two bytes.
pub open spec fn le_u16(lo: u8, hi: u8) -> u16 {
    (lo as int + 256 * (hi as int)) as u16
}

/// The measurement that a reply frame carries: a data report
/// (`AA C0 PM25_L PM25_H PM10_L PM10_H ID ID CS AB`) or a reply to a data
/// query (`AA C5 04 PM25_L PM25_H PM10_L PM10_H ..`).
pub open spec fn spec_sample(r: Seq<u8>) -> Option<Reading> {
    if r[1] == DATA_REPORT_ID {
        Some(Reading { pm2_5: le_u16(r[2], r[3]), pm10: le_u16(r[4], r[5]) })
    } else if r[1] == REPLY_ID && r[2] == 0x04 {
        Some(Reading { pm2_5: le_u16(r[3], r[4]), pm10: le_u16(r[5], r[6]) })
    } else {
        None
    }
}

/// Whether a reply confirms a setting: it echoes command `code`, the set
/// action and `value`, or it is a data report.
pub open spec fn setting_confirmed(r: Seq<u8>, code: u8, value: u8) -> bool {
    (r[1] == REPLY_ID && r[2] == code && r[3] == 0x01 && r[4] == value) || r[1] == DATA_REPORT_ID
}

/// Whether a reply answers a query for command `code`.
pub open spec fn query_answered(r: Seq<u8>, code: u8) -> bool {
    r[1] == REPLY_ID && r[2] == code && r[3] == 0x00
}

/// What the reply frame `r` to `req` means.
pub open spec fn reply_result(req: Request, r: Seq<u8>) -> Result<Response, Error> {
    match req {
        Request::QueryData => match spec_sample(r) {
            Some(x) => Ok(Response::Sample(x)),
            None => Err(Error::InvalidFrame),
        },
        Request::SetReportingMode(m) => if setting_confirmed(r, 0x02, mode_code(m)) {
            Ok(Response::Acknowledged)
        } else {
            Err(Error::CommandFailed)
        },
        Request::GetReportingMode => if query_answered(r, 0x02) {
            Ok(Response::ReportingMode(mode_of_code(r[4])))
        } else {
            Err(Error::UnexpectedReply)
        },
        Request::SetOperationalState(s) => if setting_confirmed(r, 0x06, state_code(s)) {
            Ok(Response::Acknowledged)
        } else {
            Err(Error::CommandFailed)
        },
        Request::GetOperationalState => if query_answered(r, 0x06) {
            Ok(Response::OperationalState(state_of_code(r[4])))
        } else {
            Err(Error::UnexpectedReply)
        },
        Request::SetWorkingPeriod(p) => if setting_confirmed(r, 0x08, p) {
            Ok(Response::Acknowledged)
        } else {
            Err(Error::CommandFailed)
        },
        Request::GetWorkingPeriod => if query_answered(r, 0x08) && r[4] <= 30 {
            Ok(Response::WorkingPeriod(r[4]))
        } else {
            Err(Error::UnexpectedReply)
        },
        Request::SetDeviceId(a, b) => if r[1] == REPLY_ID && r[2] == 0x05 && r[6] == a && r[7]
            == b {
            Ok(Response::Acknowledged)
        } else {
            Err(Error::CommandFailed)
        },
        Request::GetFirmware => if r[1] == REPLY_ID && r[2] == 0x07 {
            Ok(Response::Firmware(r[3], r[4], r[5]))
        } else {
            Err(Error::UnexpectedReply)
        },
    }
}

/// The configuration after the sensor answered `req` with `result`: a
/// confirmed reporting mode or device ID is recorded, nothing else changes.
pub open spec fn config_after(c: Config, req: Request, result: Result<Response, Error>) -> Config {
    match result {
        Ok(_) => match req {
            Request::SetReportingMode(m) => Config { id: c.id, mode: m },
            Request::SetDeviceId(a, b) => Config { id: DeviceID { id1: a, id2: b }, mode: c.mode },
            _ => c,
        },
        Err(_) => c,
    }
}

/// The byte that selects reporting mode `m`.
pub fn mode_byte(m: DeviceMode) -> (r: u8)
    ensures
        r == mode_code(m),
{
    match m {
        DeviceMode::Active => 0x00,
        DeviceMode::Passive => 0x01,
    }
}

/// The byte that selects operational state `s`.
pub fn state_byte(s: OperationalState) -> (r: u8)
    ensures
        r == state_code(s),
{
    match s {
        OperationalState::Working => 0x01,
        OperationalState::Sleeping => 0x00,
    }
}

} // verus!
