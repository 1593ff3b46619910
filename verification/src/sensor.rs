use vstd::prelude::*;

use crate::command::{
    command_body, command_frame, command_layout, config_after, le_u16, mode_byte, reply_result,
    request_valid, spec_sample, state_byte, Reading, Request, Response,
};
use crate::config::{Config, DeviceID, DeviceMode};
use crate::constants::{COMMAND_ID, DATA_REPORT_ID, HEAD, REPLY_ID, TAIL};
use crate::error::Error;
use crate::frame::{checksum, checksum_of};
use crate::procedure::{initial_state, Procedure, Routine};

verus! {

/// The frame that `Sds011::base_command` starts every command from: no
/// command, no data, addressed to `id`, no checksum yet.
pub open spec fn base_frame(id: DeviceID) -> Seq<u8> {
    command_layout(
        seq![0u8, 0u8, 0u8, 0u8, 0u8, 0u8, 0u8, 0u8, 0u8, 0u8, 0u8, 0u8, 0u8, id.id1, id.id2],
        0u8,
    )
}

/// An SDS011 air quality sensor behind the serial interface `Serial`.
///
/// The driver keeps the sensor's configuration: the device ID that commands
/// are addressed to, and the reporting mode it was set to.
pub struct Sds011<Serial> {
    serial: Serial,
    config: Config,
}

impl<S> View for Sds011<S> {
    type V = Config;

    /// The configuration that the driver holds.
    closed spec fn view(&self) -> Config {
        self.config
    }
}

impl<S> Sds011<S> {
    /// The serial interface of the driver.
    pub closed spec fn port(&self) -> S {
        self.serial
    }

    /// Creates a driver for the sensor on `serial` with the given configuration.
    pub fn new(serial: S, config: Config) -> (r: Self)
        ensures
            r@ == config,
            r.port() == serial,
    {
        Sds011 { serial, config }
    }

    /// The configuration that the driver holds.
    pub fn config(&self) -> (r: Config)
        ensures
            r == self@,
    {
        self.config
    }

    /// The serial interface, for the code that does the reading and writing.
    pub fn serial_mut(&mut self) -> (r: &mut S)
        ensures
            *r == old(self).port(),
            final(self).port() == *final(r),
            final(self)@ == old(self)@,
    {
        &mut self.serial
    }

    /// The 19-byte frame that every command starts from, addressed to the
    /// configured device ID.
    pub fn base_command(&self) -> (r: [u8; 19])
        ensures
            r@ == base_frame(self@.id),
    {
        let r = [
            HEAD,
            COMMAND_ID,
            0x00,
            0x00,
            0x00,
            0x00,
            0x00,
            0x00,
            0x00,
            0x00,
            0x00,
            0x00,
            0x00,
            0x00,
            0x00,
            self.config.id.id1,
            self.config.id.id2,
            0x00,
            TAIL,
        ];
        assert(r@ =~= base_frame(self@.id));
        r
    }

    /// Writes into byte 17 of a command frame the checksum of its bytes `2..=16`.
    pub fn seal_command(command: &mut [u8; 19])
        ensures
            final(command)@ == old(command)@.update(
                17,
                checksum_of(old(command)@.subrange(2, 17)),
            ),
    {
        let sum = checksum(command, 2, 17);
        command[17] = sum;
    }

    /// The frame that carries `req` to the sensor, checksum included; a
    /// working period above 30 minutes is refused.
    pub fn command(&self, req: Request) -> (r: Result<[u8; 19], Error>)
        ensures
            match r {
                Ok(f) => request_valid(req) && f@ == command_frame(self@.id, req),
                Err(e) => !request_valid(req) && e == Error::InvalidArg,
            },
    {
        if let Request::SetWorkingPeriod(p) = req {
            if p > 30 {
                return Err(Error::InvalidArg);
            }
        }
        let mut c = self.base_command();
        match req {
            Request::QueryData => {
                c[2] = 0x04;
            },
            Request::SetReportingMode(m) => {
                c[2] = 0x02;
                c[3] = 0x01;
                c[4] = mode_byte(m);
            },
            Request::GetReportingMode => {
                c[2] = 0x02;
                c[3] = 0x00;
            },
            Request::SetOperationalState(s) => {
                c[2] = 0x06;
                c[3] = 0x01;
                c[4] = state_byte(s);
            },
            Request::GetOperationalState => {
                c[2] = 0x06;
                c[3] = 0x00;
            },
            Request::SetWorkingPeriod(p) => {
                c[2] = 0x08;
                c[3] = 0x01;
                c[4] = p;
            },
            Request::GetWorkingPeriod => {
                c[2] = 0x08;
                c[3] = 0x00;
            },
            Request::SetDeviceId(a, b) => {
                c[2] = 0x05;
                c[13] = a;
                c[14] = b;
            },
            Request::GetFirmware => {
                c[2] = 0x07;
            },
        }
        assert(c@.subrange(2, 17) =~= command_body(self@.id, req));
        Self::seal_command(&mut c);
        assert(c@ =~= command_frame(self@.id, req));
        Ok(c)
    }

    /// Starts the initialisation procedure for the configured reporting mode.
    pub fn init_procedure(&self) -> (r: Procedure)
        ensures
            r@ == initial_state(Routine::Init, self@.mode),
    {
        Procedure::new(Routine::Init, self.config.mode)
    }

    /// Starts the procedure that takes one measurement in the configured reporting mode.
    pub fn read_sample_procedure(&self) -> (r: Procedure)
        ensures
            r@ == initial_state(Routine::ReadSample, self@.mode),
    {
        Procedure::new(Routine::ReadSample, self.config.mode)
    }

    /// Extracts the measurement from a reply frame, if it carries one.
    pub fn process_frame(&self, data: &[u8; 10]) -> (r: Option<Reading>)
        ensures
            r == spec_sample(data@),
    {
        if data[1] == DATA_REPORT_ID {
            Some(Reading { pm2_5: le_bytes(data[2], data[3]), pm10: le_bytes(data[4], data[5]) })
        } else if data[1] == REPLY_ID && data[2] == 0x04 {
            Some(Reading { pm2_5: le_bytes(data[3], data[4]), pm10: le_bytes(data[5], data[6]) })
        } else {
            None
        }
    }

    /// Interprets the sensor's reply to `req`, and records in the
    /// configuration a reporting mode or device ID that the sensor confirmed.
    pub fn accept_reply(&mut self, req: Request, reply: &[u8; 10]) -> (r: Result<Response, Error>)
        ensures
            r == reply_result(req, reply@),
            final(self)@ == config_after(old(self)@, req, r),
            final(self).port() == old(self).port(),
    {
        match req {
            Request::QueryData => match self.process_frame(reply) {
                Some(x) => Ok(Response::Sample(x)),
                None => Err(Error::InvalidFrame),
            },
            Request::SetReportingMode(m) => {
                let code = mode_byte(m);
                if confirms_setting(reply, 0x02, code) {
                    self.config.mode = m;
                    Ok(Response::Acknowledged)
                } else {
                    Err(Error::CommandFailed)
                }
            },
            Request::GetReportingMode => {
                if answers_query(reply, 0x02) {
                    let mode = if reply[4] == 0x00 {
                        DeviceMode::Active
                    } else {
                        DeviceMode::Passive
                    };
                    Ok(Response::ReportingMode(mode))
                } else {
                    Err(Error::UnexpectedReply)
                }
            },
            Request::SetOperationalState(s) => {
                let code = state_byte(s);
                if confirms_setting(reply, 0x06, code) {
                    Ok(Response::Acknowledged)
                } else {
                    Err(Error::CommandFailed)
                }
            },
            Request::GetOperationalState => {
                if answers_query(reply, 0x06) {
                    let state = if reply[4] == 0x01 {
                        crate::command::OperationalState::Working
                    } else {
                        crate::command::OperationalState::Sleeping
                    };
                    Ok(Response::OperationalState(state))
                } else {
                    Err(Error::UnexpectedReply)
                }
            },
            Request::SetWorkingPeriod(p) => {
                if confirms_setting(reply, 0x08, p) {
                    Ok(Response::Acknowledged)
                } else {
                    Err(Error::CommandFailed)
                }
            },
            Request::GetWorkingPeriod => {
                if answers_query(reply, 0x08) && reply[4] <= 30 {
                    Ok(Response::WorkingPeriod(reply[4]))
                } else {
                    Err(Error::UnexpectedReply)
                }
            },
            Request::SetDeviceId(a, b) => {
                if reply[1] == REPLY_ID && reply[2] == 0x05 && reply[6] == a && reply[7] == b {
                    self.config.id.id1 = a;
                    self.config.id.id2 = b;
                    Ok(Response::Acknowledged)
                } else {
                    Err(Error::CommandFailed)
                }
            },
            Request::GetFirmware => {
                if reply[1] == REPLY_ID && reply[2] == 0x07 {
                    Ok(Response::Firmware(reply[3], reply[4], reply[5]))
                } else {
                    Err(Error::UnexpectedReply)
                }
            },
        }
    }
}

/// The little-endian value of two bytes.
fn le_bytes(lo: u8, hi: u8) -> (r: u16)
    ensures
        r == le_u16(lo, hi),
{
    (hi as u16) * 256 + (lo as u16)
}

/// Whether `reply` confirms a setting of command `code` to `value`.
fn confirms_setting(reply: &[u8; 10], code: u8, value: u8) -> (r: bool)
    ensures
        r == crate::command::setting_confirmed(reply@, code, value),
{
    (reply[1] == REPLY_ID && reply[2] == code && reply[3] == 0x01 && reply[4] == value)
        || reply[1] == DATA_REPORT_ID
}

/// Whether `reply` answers a query for command `code`.
fn answers_query(reply: &[u8; 10], code: u8) -> (r: bool)
    ensures
        r == crate::command::query_answered(reply@, code),
{
    reply[1] == REPLY_ID && reply[2] == code && reply[3] == 0x00
}

} // verus!
