use sds011_nostd_rs::frame::{checksum, scan_frame, MAX_READ_ATTEMPTS};
use sds011_nostd_rs::{
    Config, DeviceID, DeviceMode, Error, FrameReader, OperationalState, ReadStep, Reading,
    Request, Response, Sds011,
};

fn sensor(mode: DeviceMode) -> Sds011<()> {
    Sds011::new((), Config::new(DeviceID { id1: 0xff, id2: 0xff }, mode))
}

#[test]
fn default_config_is_passive_and_broadcast() {
    let c = Config::default();
    assert_eq!(c.id, DeviceID { id1: 0xff, id2: 0xff });
    assert_eq!(c.mode, DeviceMode::Passive);
    assert_eq!(DeviceID::default(), DeviceID { id1: 0xff, id2: 0xff });
}

#[test]
fn config_builders_replace_one_field() {
    let c = Config::new(DeviceID { id1: 1, id2: 2 }, DeviceMode::Active);
    assert_eq!(c.id, DeviceID { id1: 1, id2: 2 });
    assert_eq!(c.mode, DeviceMode::Active);
    let c2 = c.id(DeviceID { id1: 3, id2: 4 });
    assert_eq!(c2, Config::new(DeviceID { id1: 3, id2: 4 }, DeviceMode::Active));
    let c3 = c2.mode(DeviceMode::Passive);
    assert_eq!(c3, Config::new(DeviceID { id1: 3, id2: 4 }, DeviceMode::Passive));
}

#[test]
fn new_driver_holds_its_config() {
    let c = Config::new(DeviceID { id1: 0x12, id2: 0x34 }, DeviceMode::Active);
    let d = Sds011::new(7u8, c);
    assert_eq!(d.config(), c);
}

#[test]
fn serial_mut_reaches_the_interface() {
    let mut d = Sds011::new(7u8, Config::default());
    *d.serial_mut() = 9;
    assert_eq!(*d.serial_mut(), 9);
    assert_eq!(d.config(), Config::default());
}

#[test]
fn base_command_is_addressed_to_the_sensor() {
    let d = Sds011::new((), Config::new(DeviceID { id1: 0xa1, id2: 0x60 }, DeviceMode::Passive));
    assert_eq!(
        d.base_command(),
        [0xAA, 0xB4, 0, 0, 0, 0, 0, 0, 0, 0, 0, 0, 0, 0, 0, 0xa1, 0x60, 0, 0xAB]
    );
}

#[test]
fn checksum_is_low_byte_of_sum() {
    assert_eq!(checksum(&[0xff, 0xff, 0x04], 0, 3), 0x02);
    assert_eq!(checksum(&[1, 2, 3, 4], 1, 3), 5);
    assert_eq!(checksum(&[9, 9], 1, 1), 0);
}

#[test]
fn seal_command_writes_checksum() {
    let mut c = [0xAA, 0xB4, 0x04, 0, 0, 0, 0, 0, 0, 0, 0, 0, 0, 0, 0, 0xff, 0xff, 0, 0xAB];
    Sds011::<()>::seal_command(&mut c);
    assert_eq!(c[17], 0x02);
}

#[test]
fn query_data_command_bytes() {
    let d = sensor(DeviceMode::Passive);
    assert_eq!(
        d.command(Request::QueryData).unwrap(),
        [0xAA, 0xB4, 0x04, 0, 0, 0, 0, 0, 0, 0, 0, 0, 0, 0, 0, 0xff, 0xff, 0x02, 0xAB]
    );
}

#[test]
fn reporting_mode_command_bytes() {
    let d = sensor(DeviceMode::Passive);
    assert_eq!(
        d.command(Request::SetReportingMode(DeviceMode::Passive)).unwrap(),
        [0xAA, 0xB4, 0x02, 0x01, 0x01, 0, 0, 0, 0, 0, 0, 0, 0, 0, 0, 0xff, 0xff, 0x02, 0xAB]
    );
    assert_eq!(
        d.command(Request::SetReportingMode(DeviceMode::Active)).unwrap(),
        [0xAA, 0xB4, 0x02, 0x01, 0x00, 0, 0, 0, 0, 0, 0, 0, 0, 0, 0, 0xff, 0xff, 0x01, 0xAB]
    );
    assert_eq!(
        d.command(Request::GetReportingMode).unwrap(),
        [0xAA, 0xB4, 0x02, 0x00, 0x00, 0, 0, 0, 0, 0, 0, 0, 0, 0, 0, 0xff, 0xff, 0x00, 0xAB]
    );
}

#[test]
fn operational_state_command_bytes() {
    let d = sensor(DeviceMode::Passive);
    assert_eq!(
        d.command(Request::SetOperationalState(OperationalState::Sleeping)).unwrap(),
        [0xAA, 0xB4, 0x06, 0x01, 0x00, 0, 0, 0, 0, 0, 0, 0, 0, 0, 0, 0xff, 0xff, 0x05, 0xAB]
    );
    assert_eq!(
        d.command(Request::SetOperationalState(OperationalState::Working)).unwrap(),
        [0xAA, 0xB4, 0x06, 0x01, 0x01, 0, 0, 0, 0, 0, 0, 0, 0, 0, 0, 0xff, 0xff, 0x06, 0xAB]
    );
    assert_eq!(
        d.command(Request::GetOperationalState).unwrap(),
        [0xAA, 0xB4, 0x06, 0x00, 0x00, 0, 0, 0, 0, 0, 0, 0, 0, 0, 0, 0xff, 0xff, 0x04, 0xAB]
    );
}

#[test]
fn working_period_command_bytes() {
    let d = sensor(DeviceMode::Active);
    assert_eq!(
        d.command(Request::SetWorkingPeriod(1)).unwrap(),
        [0xAA, 0xB4, 0x08, 0x01, 0x01, 0, 0, 0, 0, 0, 0, 0, 0, 0, 0, 0xff, 0xff, 0x08, 0xAB]
    );
    assert_eq!(
        d.command(Request::SetWorkingPeriod(30)).unwrap()[4],
        30
    );
    assert_eq!(
        d.command(Request::GetWorkingPeriod).unwrap(),
        [0xAA, 0xB4, 0x08, 0x00, 0x00, 0, 0, 0, 0, 0, 0, 0, 0, 0, 0, 0xff, 0xff, 0x06, 0xAB]
    );
}

#[test]
fn working_period_above_thirty_is_refused() {
    let d = sensor(DeviceMode::Active);
    assert_eq!(d.command(Request::SetWorkingPeriod(31)), Err(Error::InvalidArg));
    assert_eq!(d.command(Request::SetWorkingPeriod(255)), Err(Error::InvalidArg));
}

#[test]
fn device_id_command_bytes() {
    let d = Sds011::new((), Config::new(DeviceID { id1: 0xa1, id2: 0x60 }, DeviceMode::Passive));
    assert_eq!(
        d.command(Request::SetDeviceId(0xa0, 0x01)).unwrap(),
        [0xAA, 0xB4, 0x05, 0, 0, 0, 0, 0, 0, 0, 0, 0, 0, 0xa0, 0x01, 0xa1, 0x60, 0xa7, 0xAB]
    );
}

#[test]
fn firmware_command_bytes() {
    let d = sensor(DeviceMode::Passive);
    assert_eq!(
        d.command(Request::GetFirmware).unwrap(),
        [0xAA, 0xB4, 0x07, 0, 0, 0, 0, 0, 0, 0, 0, 0, 0, 0, 0, 0xff, 0xff, 0x05, 0xAB]
    );
}

#[test]
fn data_report_is_processed() {
    let d = sensor(DeviceMode::Active);
    let report = [0xAA, 0xC0, 0xD4, 0x04, 0x3A, 0x0A, 0xA1, 0x60, 0x1D, 0xAB];
    assert_eq!(d.process_frame(&report), Some(Reading { pm2_5: 1236, pm10: 2618 }));
}

#[test]
fn query_reply_is_processed() {
    let d = sensor(DeviceMode::Passive);
    let reply = [0xAA, 0xC5, 0x04, 0x10, 0x00, 0x20, 0x01, 0xff, 0xff, 0xAB];
    assert_eq!(d.process_frame(&reply), Some(Reading { pm2_5: 16, pm10: 288 }));
}

#[test]
fn other_frames_carry_no_sample() {
    let d = sensor(DeviceMode::Passive);
    let reply = [0xAA, 0xC5, 0x06, 0x01, 0x00, 0x00, 0xff, 0xff, 0x05, 0xAB];
    assert_eq!(d.process_frame(&reply), None);
    let odd = [0xAA, 0xB4, 0x04, 0x01, 0x00, 0x00, 0xff, 0xff, 0x05, 0xAB];
    assert_eq!(d.process_frame(&odd), None);
}

#[test]
fn query_data_without_sample_is_invalid_frame() {
    let mut d = sensor(DeviceMode::Passive);
    let reply = [0xAA, 0xC5, 0x07, 0x0f, 0x07, 0x0a, 0xff, 0xff, 0x24, 0xAB];
    assert_eq!(d.accept_reply(Request::QueryData, &reply), Err(Error::InvalidFrame));
}

#[test]
fn set_reporting_mode_confirmed_updates_config() {
    let mut d = sensor(DeviceMode::Passive);
    let reply = [0xAA, 0xC5, 0x02, 0x01, 0x00, 0x00, 0xff, 0xff, 0x02, 0xAB];
    assert_eq!(
        d.accept_reply(Request::SetReportingMode(DeviceMode::Active), &reply),
        Ok(Response::Acknowledged)
    );
    assert_eq!(d.config().mode, DeviceMode::Active);
}

#[test]
fn set_reporting_mode_accepts_data_report() {
    let mut d = sensor(DeviceMode::Passive);
    let report = [0xAA, 0xC0, 0xD4, 0x04, 0x3A, 0x0A, 0xA1, 0x60, 0x1D, 0xAB];
    assert_eq!(
        d.accept_reply(Request::SetReportingMode(DeviceMode::Active), &report),
        Ok(Response::Acknowledged)
    );
    assert_eq!(d.config().mode, DeviceMode::Active);
}

#[test]
fn set_reporting_mode_wrong_echo_fails() {
    let mut d = sensor(DeviceMode::Passive);
    let reply = [0xAA, 0xC5, 0x02, 0x01, 0x01, 0x00, 0xff, 0xff, 0x03, 0xAB];
    assert_eq!(
        d.accept_reply(Request::SetReportingMode(DeviceMode::Active), &reply),
        Err(Error::CommandFailed)
    );
    assert_eq!(d.config().mode, DeviceMode::Passive);
}

#[test]
fn get_reporting_mode_reads_back() {
    let mut d = sensor(DeviceMode::Passive);
    let active = [0xAA, 0xC5, 0x02, 0x00, 0x00, 0x00, 0xff, 0xff, 0x00, 0xAB];
    let passive = [0xAA, 0xC5, 0x02, 0x00, 0x01, 0x00, 0xff, 0xff, 0x01, 0xAB];
    assert_eq!(
        d.accept_reply(Request::GetReportingMode, &active),
        Ok(Response::ReportingMode(DeviceMode::Active))
    );
    assert_eq!(
        d.accept_reply(Request::GetReportingMode, &passive),
        Ok(Response::ReportingMode(DeviceMode::Passive))
    );
    assert_eq!(d.config().mode, DeviceMode::Passive);
    let wrong = [0xAA, 0xC5, 0x02, 0x01, 0x01, 0x00, 0xff, 0xff, 0x01, 0xAB];
    assert_eq!(d.accept_reply(Request::GetReportingMode, &wrong), Err(Error::UnexpectedReply));
}

#[test]
fn operational_state_set_and_get() {
    let mut d = sensor(DeviceMode::Passive);
    let slept = [0xAA, 0xC5, 0x06, 0x01, 0x00, 0x00, 0xff, 0xff, 0x05, 0xAB];
    assert_eq!(
        d.accept_reply(Request::SetOperationalState(OperationalState::Sleeping), &slept),
        Ok(Response::Acknowledged)
    );
    assert_eq!(
        d.accept_reply(Request::SetOperationalState(OperationalState::Working), &slept),
        Err(Error::CommandFailed)
    );
    let working = [0xAA, 0xC5, 0x06, 0x00, 0x01, 0x00, 0xff, 0xff, 0x06, 0xAB];
    assert_eq!(
        d.accept_reply(Request::GetOperationalState, &working),
        Ok(Response::OperationalState(OperationalState::Working))
    );
    let sleeping = [0xAA, 0xC5, 0x06, 0x00, 0x00, 0x00, 0xff, 0xff, 0x05, 0xAB];
    assert_eq!(
        d.accept_reply(Request::GetOperationalState, &sleeping),
        Ok(Response::OperationalState(OperationalState::Sleeping))
    );
    assert_eq!(d.accept_reply(Request::GetOperationalState, &slept), Err(Error::UnexpectedReply));
}

#[test]
fn working_period_set_and_get() {
    let mut d = sensor(DeviceMode::Active);
    let set = [0xAA, 0xC5, 0x08, 0x01, 0x03, 0x00, 0xff, 0xff, 0x0b, 0xAB];
    assert_eq!(d.accept_reply(Request::SetWorkingPeriod(3), &set), Ok(Response::Acknowledged));
    assert_eq!(d.accept_reply(Request::SetWorkingPeriod(4), &set), Err(Error::CommandFailed));
    let get = [0xAA, 0xC5, 0x08, 0x00, 0x03, 0x00, 0xff, 0xff, 0x0a, 0xAB];
    assert_eq!(d.accept_reply(Request::GetWorkingPeriod, &get), Ok(Response::WorkingPeriod(3)));
    assert_eq!(d.accept_reply(Request::GetWorkingPeriod, &set), Err(Error::UnexpectedReply));
}

#[test]
fn working_period_reply_above_thirty_is_unexpected() {
    let mut d = sensor(DeviceMode::Active);
    let thirty = [0xAA, 0xC5, 0x08, 0x00, 0x1E, 0x00, 0x12, 0x34, 0x6C, 0xAB];
    assert_eq!(d.accept_reply(Request::GetWorkingPeriod, &thirty), Ok(Response::WorkingPeriod(30)));
    let above = [0xAA, 0xC5, 0x08, 0x00, 0x1F, 0x00, 0x12, 0x34, 0x6D, 0xAB];
    assert_eq!(d.accept_reply(Request::GetWorkingPeriod, &above), Err(Error::UnexpectedReply));
}

#[test]
fn set_device_id_readdresses_later_commands() {
    let mut d = Sds011::new((), Config::new(DeviceID { id1: 0xa1, id2: 0x60 }, DeviceMode::Passive));
    let reply = [0xAA, 0xC5, 0x05, 0x00, 0x00, 0x00, 0xa0, 0x01, 0xa6, 0xAB];
    assert_eq!(d.accept_reply(Request::SetDeviceId(0xa0, 0x01), &reply), Ok(Response::Acknowledged));
    assert_eq!(d.config().id, DeviceID { id1: 0xa0, id2: 0x01 });
    assert_eq!(d.config().mode, DeviceMode::Passive);
    let next = d.command(Request::QueryData).unwrap();
    assert_eq!((next[15], next[16]), (0xa0, 0x01));
}

#[test]
fn set_device_id_mismatch_fails_and_keeps_id() {
    let mut d = Sds011::new((), Config::new(DeviceID { id1: 0xa1, id2: 0x60 }, DeviceMode::Passive));
    let reply = [0xAA, 0xC5, 0x05, 0x00, 0x00, 0x00, 0xa0, 0x02, 0xa7, 0xAB];
    assert_eq!(d.accept_reply(Request::SetDeviceId(0xa0, 0x01), &reply), Err(Error::CommandFailed));
    assert_eq!(d.config().id, DeviceID { id1: 0xa1, id2: 0x60 });
}

#[test]
fn firmware_reply_reads_date() {
    let mut d = sensor(DeviceMode::Passive);
    let reply = [0xAA, 0xC5, 0x07, 0x0f, 0x07, 0x0a, 0xff, 0xff, 0x24, 0xAB];
    assert_eq!(d.accept_reply(Request::GetFirmware, &reply), Ok(Response::Firmware(15, 7, 10)));
    let other = [0xAA, 0xC0, 0x07, 0x0f, 0x07, 0x0a, 0xff, 0xff, 0x24, 0xAB];
    assert_eq!(d.accept_reply(Request::GetFirmware, &other), Err(Error::UnexpectedReply));
}

#[test]
fn scan_finds_frame_after_noise() {
    let bytes = [0x01, 0x02, 0xAA, 0xC0, 0xD4, 0x04, 0x3A, 0x0A, 0xA1, 0x60, 0x1D, 0xAB, 0x55];
    assert_eq!(
        scan_frame(&bytes),
        Some([0xAA, 0xC0, 0xD4, 0x04, 0x3A, 0x0A, 0xA1, 0x60, 0x1D, 0xAB])
    );
}

#[test]
fn scan_rejects_short_and_missing_and_corrupt() {
    assert_eq!(scan_frame(&[0xAA, 0xC0, 0, 0, 0, 0, 0, 0, 0xAB]), None);
    assert_eq!(scan_frame(&[0u8; 20]), None);
    let corrupt = [0xAA, 0xC0, 0xD4, 0x04, 0x3A, 0x0A, 0xA1, 0x60, 0x1E, 0xAB];
    assert_eq!(scan_frame(&corrupt), None);
}

#[test]
fn scan_does_not_search_past_first_window() {
    // The first HEAD..TAIL window has a bad checksum; a sound frame follows.
    let mut bytes = [0u8; 20];
    bytes[..10].copy_from_slice(&[0xAA, 0xC0, 0, 0, 0, 0, 0, 0, 0x05, 0xAB]);
    bytes[10..].copy_from_slice(&[0xAA, 0xC0, 0xD4, 0x04, 0x3A, 0x0A, 0xA1, 0x60, 0x1D, 0xAB]);
    assert_eq!(scan_frame(&bytes), None);
}

#[test]
fn reader_returns_frame() {
    let mut r = FrameReader::new();
    let bytes = [0xAA, 0xC0, 0xD4, 0x04, 0x3A, 0x0A, 0xA1, 0x60, 0x1D, 0xAB];
    assert_eq!(r.on_bytes(&bytes), ReadStep::Frame(bytes));
}

#[test]
fn reader_gives_up_after_max_attempts() {
    let mut r = FrameReader::new();
    for _ in 0..MAX_READ_ATTEMPTS - 1 {
        assert_eq!(r.on_bytes(&[0x01, 0x02]), ReadStep::Retry);
    }
    assert_eq!(r.on_bytes(&[0x01, 0x02]), ReadStep::Failed(Error::ReadFailure));
    assert_eq!(MAX_READ_ATTEMPTS, 5);
}

#[test]
fn reader_fails_at_once_on_read_error() {
    let mut r = FrameReader::new();
    assert_eq!(r.on_read_error(), ReadStep::Failed(Error::ReadFailure));
}
