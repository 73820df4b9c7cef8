use ferris::wpa_events::event::{EventError, WpaEvent, WpaState};

fn args(words: &[&str]) -> Vec<String> {
    words.iter().map(|w| w.to_string()).collect()
}

#[test]
fn parses_a_station_notification() {
    let event =
        WpaEvent::from_args(args(&["autoap", "wlan0", "AP-STA-CONNECTED", "aa:bb:cc:dd:ee:ff"]))
            .unwrap();
    assert_eq!(event.interface, "wlan0");
    assert_eq!(event.state, WpaState::ApStaConnected);
    assert_eq!(event.mac_address, Some("aa:bb:cc:dd:ee:ff".to_string()));
}

#[test]
fn parses_a_notification_without_address() {
    let event = WpaEvent::from_args(args(&["autoap", "wlan0", "AP-ENABLED"])).unwrap();
    assert_eq!(event, WpaEvent::new("wlan0".to_string(), WpaState::ApEnabled, None));
}

#[test]
fn ignores_what_follows_the_address() {
    let event = WpaEvent::from_args(args(&["x", "wlan1", "CONNECTED", "m", "extra"])).unwrap();
    assert_eq!(event.mac_address, Some("m".to_string()));
    assert_eq!(event.interface, "wlan1");
}

#[test]
fn rejects_an_unknown_state() {
    let r = WpaEvent::from_args(args(&["autoap", "wlan0", "ap-enabled"]));
    assert_eq!(r, Err(EventError::UnrecognizedState("ap-enabled".to_string())));
}

#[test]
fn rejects_a_state_with_a_trailing_blank() {
    let r = WpaEvent::from_args(args(&["autoap", "wlan0", "CONNECTED "]));
    assert_eq!(r, Err(EventError::UnrecognizedState("CONNECTED ".to_string())));
}

#[test]
fn rejects_too_few_arguments() {
    assert_eq!(WpaEvent::from_args(args(&[])), Err(EventError::InsufficientArguments));
    assert_eq!(WpaEvent::from_args(args(&["autoap"])), Err(EventError::InsufficientArguments));
    assert_eq!(
        WpaEvent::from_args(args(&["autoap", "wlan0"])),
        Err(EventError::InsufficientArguments)
    );
}

#[test]
fn reads_each_of_the_six_tokens() {
    let table = [
        ("AP-ENABLED", WpaState::ApEnabled),
        ("AP-DISABLED", WpaState::ApDisabled),
        ("CONNECTED", WpaState::Connected),
        ("AP-STA-CONNECTED", WpaState::ApStaConnected),
        ("AP-STA-DISCONNECTED", WpaState::ApStaDisconnected),
        ("DISCONNECTED", WpaState::Disconnected),
    ];
    for (token, state) in table {
        assert_eq!(WpaState::from_str(token), Ok(state));
        assert_eq!(state.to_string(), token);
        assert_eq!(state.as_str(), token);
    }
}

#[test]
fn a_state_is_read_back_from_what_it_writes() {
    for state in [
        WpaState::ApEnabled,
        WpaState::ApDisabled,
        WpaState::Connected,
        WpaState::ApStaConnected,
        WpaState::ApStaDisconnected,
        WpaState::Disconnected,
    ] {
        assert_eq!(WpaState::from_str(&state.to_string()), Ok(state));
    }
}

#[test]
fn writes_a_notification_as_a_line() {
    let with = WpaEvent::new(
        "wlan0".to_string(),
        WpaState::ApStaDisconnected,
        Some("aa:bb:cc:dd:ee:ff".to_string()),
    );
    assert_eq!(with.to_string(), "wlan0 AP-STA-DISCONNECTED aa:bb:cc:dd:ee:ff");
    let without = WpaEvent::new("wlan0".to_string(), WpaState::Disconnected, None);
    assert_eq!(without.to_string(), "wlan0 DISCONNECTED");
}

#[test]
fn writes_the_errors_of_an_invocation() {
    assert_eq!(
        EventError::UnrecognizedState("BOGUS".to_string()).to_string(),
        "Unrecognized WiFi state: BOGUS"
    );
    assert_eq!(
        EventError::InsufficientArguments.to_string(),
        "Insufficient arguments. Expected: <interface> <state> [mac_address]"
    );
}
