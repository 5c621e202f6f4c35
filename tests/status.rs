use headset_battery::{classify, empty_status, get_i3_status, Severity};

#[test]
fn disconnected_is_idle_whatever_the_battery() {
    for percentage in [0u32, 5, 50, 99, 100, 4000] {
        for charging in [false, true] {
            let r = classify(false, charging, percentage);
            assert_eq!(r.severity, Severity::Idle);
            assert_eq!(r.text, "Disconnected");
            assert_eq!(r.icon, "headset");
        }
    }
}

#[test]
fn charging_thresholds() {
    assert_eq!(classify(true, true, 99).severity, Severity::Good);
    assert_eq!(classify(true, true, 100).severity, Severity::Good);
    assert_eq!(classify(true, true, 98).severity, Severity::Info);
    assert_eq!(classify(true, true, 0).severity, Severity::Info);
}

#[test]
fn discharging_thresholds() {
    assert_eq!(classify(true, false, 0).severity, Severity::Critical);
    assert_eq!(classify(true, false, 5).severity, Severity::Critical);
    assert_eq!(classify(true, false, 6).severity, Severity::Warning);
    assert_eq!(classify(true, false, 15).severity, Severity::Warning);
    assert_eq!(classify(true, false, 16).severity, Severity::Info);
    assert_eq!(classify(true, false, 100).severity, Severity::Info);
}

#[test]
fn text_and_icon() {
    let r = classify(true, true, 42);
    assert_eq!(r.text, "42%");
    assert_eq!(r.icon, "headset_charging");
    let r = classify(true, false, 7);
    assert_eq!(r.text, "7%");
    assert_eq!(r.icon, "headset");
    assert_eq!(classify(true, false, 0).text, "0%");
}

#[test]
fn full_charging_record() {
    assert_eq!(
        get_i3_status(true, 100, true),
        "{\"state\":\"Good\",\"text\":\"100%\",\"icon\":\"headset_charging\"}"
    );
}

#[test]
fn info_record_is_capitalised() {
    assert_eq!(
        get_i3_status(true, 50, true),
        "{\"state\":\"Info\",\"text\":\"50%\",\"icon\":\"headset_charging\"}"
    );
}

#[test]
fn disconnected_record() {
    assert_eq!(
        get_i3_status(false, 80, true),
        "{\"state\":\"Idle\",\"text\":\"Disconnected\",\"icon\":\"headset\"}"
    );
}

#[test]
fn empty_record() {
    assert_eq!(empty_status(), "{\"text\":\"\"}");
}

#[test]
fn record_to_json() {
    assert_eq!(
        classify(true, false, 3).to_json(),
        "{\"state\":\"Critical\",\"text\":\"3%\",\"icon\":\"headset\"}"
    );
    assert_eq!(Severity::Warning.name(), "Warning");
}
