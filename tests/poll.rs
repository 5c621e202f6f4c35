use headset_battery::{
    battery_request, get_i3_status, one_shot, parse_battery_response, AcquisitionError,
    BatteryInfo, PollState, ProfileAction, QueryFailure, QueryField, RawReading,
};

fn battery(percentage: u32, charging: bool) -> Result<Option<BatteryInfo>, AcquisitionError> {
    Ok(Some(BatteryInfo { charging, percentage, voltage: 3900000 }))
}

#[test]
fn profile_changes_on_edges_only() {
    let mut state = PollState::new();
    let script = [true, true, false, false, true];
    let mut actions = Vec::new();
    for connected in script {
        let cycle = state.poll_cycle(Ok(connected), battery(50, false), true);
        actions.push(cycle.action);
    }
    assert_eq!(
        actions,
        vec![
            ProfileAction::Keep,
            ProfileAction::Keep,
            ProfileAction::Deactivate,
            ProfileAction::Keep,
            ProfileAction::Activate,
        ]
    );
    let fired = actions.iter().filter(|a| **a != ProfileAction::Keep).count();
    assert_eq!(fired, 2);
}

#[test]
fn no_change_at_start_when_connected() {
    let mut state = PollState::new();
    assert!(state.last_connected);
    let cycle = state.poll_cycle(Ok(true), battery(80, true), true);
    assert_eq!(cycle.action, ProfileAction::Keep);
}

#[test]
fn profile_left_alone_when_disabled() {
    let mut state = PollState::new();
    let cycle = state.poll_cycle(Ok(false), battery(80, true), false);
    assert_eq!(cycle.action, ProfileAction::Keep);
    assert!(state.last_connected);
}

#[test]
fn missing_device_keeps_state() {
    let mut state = PollState { last_connected: false };
    let cycle = state.poll_cycle(Err(AcquisitionError::DeviceNotFound), Ok(None), true);
    assert_eq!(cycle.line, "{\"text\":\"\"}");
    assert_eq!(cycle.action, ProfileAction::Keep);
    assert!(!state.last_connected);
}

#[test]
fn cycle_lines() {
    let mut state = PollState::new();
    let cycle = state.poll_cycle(Ok(true), battery(10, false), false);
    assert_eq!(cycle.line, "{\"state\":\"Warning\",\"text\":\"10%\",\"icon\":\"headset\"}");
    let cycle = state.poll_cycle(Ok(false), battery(10, true), false);
    assert_eq!(
        cycle.line,
        "{\"state\":\"Idle\",\"text\":\"Disconnected\",\"icon\":\"headset\"}"
    );
    let cycle = state.poll_cycle(Ok(true), Ok(None), false);
    assert_eq!(cycle.line, "{\"text\":\"\"}");
    let cycle = state.poll_cycle(Ok(true), Err(AcquisitionError::IoFailure), false);
    assert_eq!(cycle.line, "{\"text\":\"\"}");
}

#[test]
fn one_shot_without_device_fails() {
    let r = one_shot(Err(AcquisitionError::DeviceNotFound), battery(50, false), QueryField::Voltage);
    assert_eq!(r, Err(QueryFailure::Device(AcquisitionError::DeviceNotFound)));
    let failure = r.unwrap_err();
    assert_eq!(failure.exit_code(), 1);
    assert_eq!(failure.message(), "usb device not found");
}

#[test]
fn one_shot_failures() {
    let r = one_shot(Ok(true), Ok(None), QueryField::Percentage);
    assert_eq!(r, Err(QueryFailure::BatteryUnavailable));
    assert_eq!(QueryFailure::BatteryUnavailable.message(), "battery not found");
    let r = one_shot(Ok(false), battery(50, false), QueryField::Percentage);
    assert_eq!(r, Err(QueryFailure::Disconnected));
    assert_eq!(QueryFailure::Disconnected.exit_code(), 1);
    let r = one_shot(Ok(true), Err(AcquisitionError::UnexpectedFieldValue), QueryField::Voltage);
    assert_eq!(r, Err(QueryFailure::Device(AcquisitionError::UnexpectedFieldValue)));
}

#[test]
fn one_shot_fields() {
    assert_eq!(
        one_shot(Ok(true), battery(64, true), QueryField::Voltage),
        Ok(String::from("3900000\nCharging: 1\n"))
    );
    assert_eq!(
        one_shot(Ok(true), battery(64, false), QueryField::Percentage),
        Ok(String::from("64\nCharging: 0\n"))
    );
}

#[test]
fn request_report() {
    let r = battery_request();
    assert_eq!(r.len(), 20);
    assert_eq!(&r[..4], &[0x11, 0xff, 0x08, 0x0a]);
    assert!(r[4..].iter().all(|b| *b == 0));
}

#[test]
fn response_parsing() {
    assert_eq!(parse_battery_response(&[]), Err(AcquisitionError::ReadTimeout));
    assert_eq!(parse_battery_response(&[0x11, 0xff, 0x08]), Err(AcquisitionError::IoFailure));
    assert_eq!(
        parse_battery_response(&[0x11, 0xff, 0x08, 0x0a, 0x0e, 0x10, 0x01, 0, 0]),
        Ok(RawReading { charging: false, voltage: 3600 })
    );
}

#[test]
fn charging_response_to_record() {
    let reading = parse_battery_response(&[0x11, 0xff, 0x08, 0x0a, 0x0f, 0xbf, 0x03]).unwrap();
    assert_eq!(reading, RawReading { charging: true, voltage: 4031 });
    assert_eq!(
        get_i3_status(true, 100, reading.charging),
        "{\"state\":\"Good\",\"text\":\"100%\",\"icon\":\"headset_charging\"}"
    );
}
