use vstd::prelude::*;

use crate::command::{
    command_frame, config_after, mode_code, request_action, request_code, request_new_id,
    request_value, mode_of_code, reply_result, state_code, state_of_code,
    OperationalState, Reading, Request, Response,
};
use crate::config::{Config, DeviceID, DeviceMode};
use crate::constants::{COMMAND_ID, HEAD, REPLY_ID, TAIL};
use crate::error::Error;
use crate::frame::{
    checksum_ok, checksum_of, first_window_from, next_attempts, spec_scan, window_at,
    MAX_READ_ATTEMPTS, REPLY_LEN,
};
use crate::procedure::{
    action_of, after_flush, after_response, initial_state, plan, state_wf, Action, Phase,
    ProcedureState, Routine,
};

verus! {

/// Every command frame is 19 bytes long, starts with `HEAD` and
/// `COMMAND_ID`, ends with `TAIL`, is addressed to the given sensor (bytes 15
/// and 16), and carries in byte 17 the checksum of its bytes `2..=16`.
pub proof fn lemma_command_frame_shape(id: DeviceID, req: Request)
    ensures
        command_frame(id, req).len() == 19,
        command_frame(id, req)[0] == HEAD,
        command_frame(id, req)[1] == COMMAND_ID,
        command_frame(id, req)[15] == id.id1,
        command_frame(id, req)[16] == id.id2,
        command_frame(id, req)[17] == checksum_of(command_frame(id, req).subrange(2, 17)),
        command_frame(id, req)[18] == TAIL,
{
    let f = command_frame(id, req);
    assert(f.subrange(2, 17) =~= crate::command::command_body(id, req));
}

/// Once the sensor confirmed a new device ID, every later command is
/// addressed to that ID.
pub proof fn lemma_new_id_addresses_later_commands(
    c: Config,
    a: u8,
    b: u8,
    reply: Seq<u8>,
    later: Request,
)
    requires
        reply_result(Request::SetDeviceId(a, b), reply) is Ok,
    ensures
        ({
            let c2 = config_after(
                c,
                Request::SetDeviceId(a, b),
                reply_result(Request::SetDeviceId(a, b), reply),
            );
            &&& command_frame(c2.id, later)[15] == a
            &&& command_frame(c2.id, later)[16] == b
            &&& c2.mode == c.mode
        }),
{
}

/// Once the sensor confirmed a reporting mode, the driver's configuration
/// holds that mode; a refused setting leaves the configuration as it was.
pub proof fn lemma_confirmed_mode_is_recorded(c: Config, m: DeviceMode, reply: Seq<u8>)
    ensures
        reply_result(Request::SetReportingMode(m), reply) is Ok ==> config_after(
            c,
            Request::SetReportingMode(m),
            reply_result(Request::SetReportingMode(m), reply),
        ) == (Config { id: c.id, mode: m }),
        reply_result(Request::SetReportingMode(m), reply) is Err ==> config_after(
            c,
            Request::SetReportingMode(m),
            reply_result(Request::SetReportingMode(m), reply),
        ) == c,
{
}

/// A sensor that carries out a setting and echoes the command, its set
/// action and its value in a reply frame gets that reply accepted; so does
/// one that echoes a new device ID in bytes 6 and 7.
pub proof fn lemma_echo_confirms_setting(req: Request, r: Seq<u8>)
    requires
        r.len() == REPLY_LEN,
        r[1] == REPLY_ID,
        r[2] == request_code(req),
        req is SetReportingMode || req is SetOperationalState || req is SetWorkingPeriod
            ==> r[3] == request_action(req) && r[4] == request_value(req),
        req is SetDeviceId ==> r[6] == request_new_id(req).0 && r[7] == request_new_id(req).1,
    ensures
        req is SetReportingMode || req is SetOperationalState || req is SetWorkingPeriod
            || req is SetDeviceId ==> reply_result(req, r) == Ok::<Response, Error>(
            Response::Acknowledged,
        ),
{
}

/// Every working period from `0` (continuous working) to `30` minutes is
/// sent: the request is valid and its frame carries the set action `0x01` in
/// byte 3 and the period in byte 4; only a period above 30 is refused.
pub proof fn lemma_every_supported_period_is_sent(id: DeviceID, p: u8)
    ensures
        crate::command::request_valid(Request::SetWorkingPeriod(p)) <==> p <= 30,
        command_frame(id, Request::SetWorkingPeriod(p))[2] == 0x08,
        command_frame(id, Request::SetWorkingPeriod(p))[3] == 0x01,
        command_frame(id, Request::SetWorkingPeriod(p))[4] == p,
{
}

/// Every working period from `0` (continuous) to `30` that the sensor reports
/// in a reply to the period query (`C5 08 00 p`) is read back as it is.
pub proof fn lemma_every_supported_period_is_read_back(r: Seq<u8>)
    requires
        r.len() == REPLY_LEN,
        r[1] == 0xC5,
        r[2] == 0x08,
        r[3] == 0x00,
        r[4] <= 30,
    ensures
        reply_result(Request::GetWorkingPeriod, r) == Ok::<Response, Error>(
            Response::WorkingPeriod(r[4]),
        ),
{
}

/// A data report (byte 1 is `0xC0`) that arrives in answer to a setting of
/// the reporting mode, the operational state or the working period counts as
/// the sensor's acknowledgment, whatever its other bytes.
pub proof fn lemma_data_report_acknowledges_settings(
    r: Seq<u8>,
    m: DeviceMode,
    s: OperationalState,
    p: u8,
)
    requires
        r.len() == REPLY_LEN,
        r[1] == 0xC0,
    ensures
        reply_result(Request::SetReportingMode(m), r) == Ok::<Response, Error>(
            Response::Acknowledged,
        ),
        reply_result(Request::SetOperationalState(s), r) == Ok::<Response, Error>(
            Response::Acknowledged,
        ),
        reply_result(Request::SetWorkingPeriod(p), r) == Ok::<Response, Error>(
            Response::Acknowledged,
        ),
{
}

/// A data query is answered with a measurement by a data report
/// (`C0 PM25_L PM25_H PM10_L PM10_H`) and by a query reply
/// (`C5 04 PM25_L PM25_H PM10_L PM10_H`); each value is the low byte plus 256
/// times the high byte, in tenths of µg/m³.
pub proof fn lemma_data_query_decodes_measurement(r: Seq<u8>)
    requires
        r.len() == REPLY_LEN,
    ensures
        r[1] == 0xC0 ==> reply_result(Request::QueryData, r) == Ok::<Response, Error>(
            Response::Sample(
                Reading {
                    pm2_5: (r[2] as int + 256 * (r[3] as int)) as u16,
                    pm10: (r[4] as int + 256 * (r[5] as int)) as u16,
                },
            ),
        ),
        r[1] == 0xC5 && r[2] == 0x04 ==> reply_result(Request::QueryData, r) == Ok::<
            Response,
            Error,
        >(
            Response::Sample(
                Reading {
                    pm2_5: (r[3] as int + 256 * (r[4] as int)) as u16,
                    pm10: (r[5] as int + 256 * (r[6] as int)) as u16,
                },
            ),
        ),
        r[1] == 0xC0 ==> (r[2] as int + 256 * (r[3] as int)) <= 0xFFFF,
{
}

/// The command bytes of every request: byte 2 names the command, byte 3 is
/// `1` to set and `0` to query, byte 4 carries the value to set, bytes 13
/// and 14 carry a new device ID, and bytes 5 to 12 are zero.
pub proof fn lemma_request_bytes(id: DeviceID, p: u8, a: u8, b: u8)
    ensures
        ({
            let q = command_frame(id, Request::QueryData);
            q[2] == 0x04 && q[3] == 0 && q[4] == 0
        }),
        ({
            let f = command_frame(id, Request::SetReportingMode(DeviceMode::Active));
            f[2] == 0x02 && f[3] == 0x01 && f[4] == 0x00
        }),
        ({
            let f = command_frame(id, Request::SetReportingMode(DeviceMode::Passive));
            f[2] == 0x02 && f[3] == 0x01 && f[4] == 0x01
        }),
        ({
            let f = command_frame(id, Request::GetReportingMode);
            f[2] == 0x02 && f[3] == 0x00 && f[4] == 0x00
        }),
        ({
            let f = command_frame(id, Request::SetOperationalState(OperationalState::Working));
            f[2] == 0x06 && f[3] == 0x01 && f[4] == 0x01
        }),
        ({
            let f = command_frame(id, Request::SetOperationalState(OperationalState::Sleeping));
            f[2] == 0x06 && f[3] == 0x01 && f[4] == 0x00
        }),
        ({
            let f = command_frame(id, Request::GetOperationalState);
            f[2] == 0x06 && f[3] == 0x00 && f[4] == 0x00
        }),
        ({
            let f = command_frame(id, Request::GetWorkingPeriod);
            f[2] == 0x08 && f[3] == 0x00 && f[4] == 0x00
        }),
        ({
            let f = command_frame(id, Request::SetDeviceId(a, b));
            f[2] == 0x05 && f[3] == 0x00 && f[4] == 0x00 && f[13] == a && f[14] == b
        }),
        ({
            let f = command_frame(id, Request::GetFirmware);
            f[2] == 0x07 && f[3] == 0x00 && f[4] == 0x00
        }),
        forall|req: Request, i: int|
            5 <= i <= 12 ==> #[trigger] command_frame(id, req)[i] == 0,
        forall|req: Request|
            !(req is SetDeviceId) ==> #[trigger] command_frame(id, req)[13] == 0
                && command_frame(id, req)[14] == 0,
        forall|req: Request|
            #[trigger] crate::command::request_valid(req) <==> !(req matches Request::SetWorkingPeriod(
                q,
            ) && q > 30),
{
    assert forall|req: Request, i: int| 5 <= i <= 12 implies #[trigger] command_frame(id, req)[i]
        == 0 by {
        assert(command_frame(id, req)[i] == crate::command::command_body(id, req)[i - 2]);
    }
}

/// What the sensor's replies to the setting requests mean, byte by byte: a
/// setting succeeds exactly when the reply is a data report (`C0`) or a
/// command reply (`C5`) that echoes the command, the set action `01` and the
/// value sent; a new device ID succeeds exactly when a `C5 05` reply echoes
/// it in bytes 6 and 7; anything else is `CommandFailed`.
pub proof fn lemma_setting_replies(r: Seq<u8>, m: DeviceMode, s: OperationalState, p: u8, a: u8, b: u8)
    requires
        r.len() == REPLY_LEN,
    ensures
        reply_result(Request::SetReportingMode(m), r) == if r[1] == 0xC0 || (r[1] == 0xC5 && r[2]
            == 0x02 && r[3] == 0x01 && r[4] == (if m == DeviceMode::Active {
            0u8
        } else {
            1u8
        })) {
            Ok::<Response, Error>(Response::Acknowledged)
        } else {
            Err(Error::CommandFailed)
        },
        reply_result(Request::SetOperationalState(s), r) == if r[1] == 0xC0 || (r[1] == 0xC5
            && r[2] == 0x06 && r[3] == 0x01 && r[4] == (if s == OperationalState::Working {
            1u8
        } else {
            0u8
        })) {
            Ok::<Response, Error>(Response::Acknowledged)
        } else {
            Err(Error::CommandFailed)
        },
        reply_result(Request::SetWorkingPeriod(p), r) == if r[1] == 0xC0 || (r[1] == 0xC5 && r[2]
            == 0x08 && r[3] == 0x01 && r[4] == p) {
            Ok::<Response, Error>(Response::Acknowledged)
        } else {
            Err(Error::CommandFailed)
        },
        reply_result(Request::SetDeviceId(a, b), r) == if r[1] == 0xC5 && r[2] == 0x05 && r[6]
            == a && r[7] == b {
            Ok::<Response, Error>(Response::Acknowledged)
        } else {
            Err(Error::CommandFailed)
        },
{
}

/// What the sensor's replies to the queries mean, byte by byte: a `C5`
/// reply that names the queried command with the query action `00` carries
/// the answer in byte 4 (reporting mode `00` is active and anything else
/// passive; state `01` is working and anything else sleeping; a period is
/// taken up to 30); the firmware date is in bytes 3 to 5 of a `C5 07` reply;
/// anything else is `UnexpectedReply`.
pub proof fn lemma_query_replies(r: Seq<u8>)
    requires
        r.len() == REPLY_LEN,
    ensures
        reply_result(Request::GetReportingMode, r) == if r[1] == 0xC5 && r[2] == 0x02 && r[3]
            == 0x00 {
            Ok::<Response, Error>(
                Response::ReportingMode(
                    if r[4] == 0 {
                        DeviceMode::Active
                    } else {
                        DeviceMode::Passive
                    },
                ),
            )
        } else {
            Err(Error::UnexpectedReply)
        },
        reply_result(Request::GetOperationalState, r) == if r[1] == 0xC5 && r[2] == 0x06 && r[3]
            == 0x00 {
            Ok::<Response, Error>(
                Response::OperationalState(
                    if r[4] == 1 {
                        OperationalState::Working
                    } else {
                        OperationalState::Sleeping
                    },
                ),
            )
        } else {
            Err(Error::UnexpectedReply)
        },
        reply_result(Request::GetWorkingPeriod, r) == if r[1] == 0xC5 && r[2] == 0x08 && r[3]
            == 0x00 && r[4] <= 30 {
            Ok::<Response, Error>(Response::WorkingPeriod(r[4]))
        } else {
            Err(Error::UnexpectedReply)
        },
        reply_result(Request::GetFirmware, r) == if r[1] == 0xC5 && r[2] == 0x07 {
            Ok::<Response, Error>(Response::Firmware(r[3], r[4], r[5]))
        } else {
            Err(Error::UnexpectedReply)
        },
        !(r[1] == 0xC0 || (r[1] == 0xC5 && r[2] == 0x04)) ==> reply_result(Request::QueryData, r)
            == Err::<Response, Error>(Error::InvalidFrame),
{
}

/// A working period read back from the sensor always lies in the range the
/// sensor supports: `0` (continuous) to `30` minutes.
pub proof fn lemma_working_period_in_range(r: Seq<u8>)
    requires
        r.len() == REPLY_LEN,
    ensures
        reply_result(Request::GetWorkingPeriod, r) matches Ok(resp) ==> resp matches Response::WorkingPeriod(p) && p <= 30,
{
}

/// Only a confirmed reporting mode or device ID changes the driver's
/// configuration: a failed exchange, and every other request, leave it as it was.
pub proof fn lemma_only_confirmed_settings_change_config(
    c: Config,
    req: Request,
    res: Result<Response, Error>,
)
    ensures
        res is Err ==> config_after(c, req, res) == c,
        !(req is SetReportingMode) && !(req is SetDeviceId) ==> config_after(c, req, res) == c,
        res is Ok ==> (req matches Request::SetDeviceId(a, b) ==> config_after(c, req, res) == (
        Config { id: DeviceID { id1: a, id2: b }, mode: c.mode })),
{
}

/// The byte that sets a reporting mode names that same mode when the sensor
/// reports it back, and likewise for the operational state.
pub proof fn lemma_codes_round_trip(m: DeviceMode, s: OperationalState)
    ensures
        mode_of_code(mode_code(m)) == m,
        state_of_code(state_code(s)) == s,
{
}

/// A reply to a reporting-mode query that carries the code of `m` reads as `m`;
/// one to a state query that carries the code of `s` reads as `s`.
pub proof fn lemma_query_reads_back_setting(
    r: Seq<u8>,
    m: DeviceMode,
    s: OperationalState,
)
    requires
        r.len() == REPLY_LEN,
        r[1] == REPLY_ID,
        r[3] == 0,
    ensures
        r[2] == 0x02 && r[4] == mode_code(m) ==> reply_result(Request::GetReportingMode, r) == Ok::<
            Response,
            Error,
        >(Response::ReportingMode(m)),
        r[2] == 0x06 && r[4] == state_code(s) ==> reply_result(Request::GetOperationalState, r)
            == Ok::<Response, Error>(Response::OperationalState(s)),
{
}

proof fn lemma_no_window_before(s: Seq<u8>, from: int, at: int)
    requires
        0 <= from <= at,
        window_at(s, at),
        forall|i: int| from <= i < at ==> !window_at(s, i),
    ensures
        first_window_from(s, from) == Some(at),
    decreases at - from,
{
    if from < at {
        lemma_no_window_before(s, from + 1, at);
    }
}

/// A sound reply frame that arrives in one read is received, whatever
/// follows it and whatever precedes it, as long as no `HEAD`..`TAIL` window
/// starts before it.
pub proof fn lemma_sound_frame_is_received(prefix: Seq<u8>, frame: Seq<u8>, rest: Seq<u8>)
    requires
        frame.len() == REPLY_LEN,
        frame[0] == HEAD,
        frame[9] == TAIL,
        checksum_ok(frame),
        forall|i: int| 0 <= i < prefix.len() ==> !window_at(prefix + frame + rest, i),
    ensures
        spec_scan(prefix + frame + rest) == Some(frame),
{
    let s = prefix + frame + rest;
    let at = prefix.len() as int;
    assert(s[at] == frame[0]);
    assert(s[at + 9] == frame[9]);
    lemma_no_window_before(s, 0, at);
    assert(s.subrange(at, at + REPLY_LEN) =~= frame);
}

/// The attempts a reader has counted after `n` reads.
pub open spec fn attempts_after(n: nat) -> nat
    decreases n,
{
    if n == 0 {
        0
    } else {
        next_attempts(attempts_after((n - 1) as nat))
    }
}

/// A reader counts every read up to `MAX_READ_ATTEMPTS`, so it asks for
/// another read (which needs a count below the maximum) at most
/// `MAX_READ_ATTEMPTS - 1` times: no exchange spends more than
/// `MAX_READ_ATTEMPTS` reads.
pub proof fn lemma_read_budget(n: nat)
    ensures
        attempts_after(n) == if n <= MAX_READ_ATTEMPTS {
            n
        } else {
            MAX_READ_ATTEMPTS as nat
        },
        attempts_after(n) < MAX_READ_ATTEMPTS <==> n < MAX_READ_ATTEMPTS,
    decreases n,
{
    if n > 0 {
        lemma_read_budget((n - 1) as nat);
    }
}

/// Every transition keeps a procedure inside its plan.
pub proof fn lemma_transitions_keep_wf(s: ProcedureState, ok: bool, r: Result<Response, Error>)
    requires
        state_wf(s),
    ensures
        state_wf(after_flush(s, ok)),
        state_wf(after_response(s, r)),
{
}

/// A procedure succeeds only when the last request of its plan was answered,
/// and it fails only with the error of the exchange that failed (or, for a
/// data query answered without a measurement, `InvalidFrame`).
pub proof fn lemma_outcome_of_an_exchange(s: ProcedureState, r: Result<Response, Error>)
    requires
        state_wf(s),
        s.phase is Exchanging,
    ensures
        after_response(s, r).phase matches Phase::Finished(Ok(_)) ==> r is Ok && s.phase
            == Phase::Exchanging((plan(s.routine, s.mode).len() - 1) as usize),
        r matches Err(e) ==> after_response(s, r).phase == Phase::Finished(Err(e)),
        after_response(s, r).phase matches Phase::Finished(Err(e)) ==> (r == Err::<Response, Error>(
            e,
        ) || (e == Error::InvalidFrame && action_of(s) == Action::Send(Request::QueryData))),
{
}

/// Initialisation, when every step succeeds: flush, set the reporting
/// mode, then put a passive sensor to sleep or set an active one to
/// continuous working, and succeed.
pub proof fn lemma_init_run(mode: DeviceMode)
    ensures
        ({
            let s0 = initial_state(Routine::Init, mode);
            let s1 = after_flush(s0, true);
            let s2 = after_response(s1, Ok(Response::Acknowledged));
            let s3 = after_response(s2, Ok(Response::Acknowledged));
            &&& action_of(s0) == Action::Flush
            &&& action_of(s1) == Action::Send(Request::SetReportingMode(mode))
            &&& action_of(s2) == Action::Send(
                if mode == DeviceMode::Passive {
                    Request::SetOperationalState(OperationalState::Sleeping)
                } else {
                    Request::SetWorkingPeriod(0)
                },
            )
            &&& action_of(s3) == Action::Done(Ok(None))
        }),
{
}

/// Taking a measurement from a passive sensor, when every step succeeds:
/// wake it up, query the data, put it back to sleep, and return the
/// measurement that the query brought.
pub proof fn lemma_passive_read_sample_run(x: Reading)
    ensures
        ({
            let s0 = initial_state(Routine::ReadSample, DeviceMode::Passive);
            let s1 = after_response(s0, Ok(Response::Acknowledged));
            let s2 = after_response(s1, Ok(Response::Sample(x)));
            let s3 = after_response(s2, Ok(Response::Acknowledged));
            &&& action_of(s0) == Action::Send(Request::SetOperationalState(OperationalState::Working))
            &&& action_of(s1) == Action::Send(Request::QueryData)
            &&& action_of(s2) == Action::Send(
                Request::SetOperationalState(OperationalState::Sleeping),
            )
            &&& action_of(s3) == Action::Done(Ok(Some(x)))
        }),
{
    let s0 = initial_state(Routine::ReadSample, DeviceMode::Passive);
    let s1 = after_response(s0, Ok(Response::Acknowledged));
    let s2 = after_response(s1, Ok(Response::Sample(x)));
    assert(s2.sample == Some(x));
}

/// Taking a measurement from an active sensor: query the data and return
/// the measurement, without waking or sleeping.
pub proof fn lemma_active_read_sample_run(x: Reading)
    ensures
        ({
            let s0 = initial_state(Routine::ReadSample, DeviceMode::Active);
            let s1 = after_response(s0, Ok(Response::Sample(x)));
            &&& action_of(s0) == Action::Send(Request::QueryData)
            &&& action_of(s1) == Action::Done(Ok(Some(x)))
        }),
{
}

/// In passive mode a measurement is returned only after the sensor was put
/// back to sleep: the exchange that completes the procedure is the
/// `Sleeping` request.
pub proof fn lemma_passive_sample_ends_asleep(s: ProcedureState, r: Result<Response, Error>)
    requires
        state_wf(s),
        s.routine == Routine::ReadSample,
        s.mode == DeviceMode::Passive,
        s.phase is Exchanging,
        after_response(s, r).phase matches Phase::Finished(Ok(_)),
    ensures
        action_of(s) == Action::Send(Request::SetOperationalState(OperationalState::Sleeping)),
{
}

} // verus!
