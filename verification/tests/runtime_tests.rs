use ferris::system::{Failure, Outcome, Probe, Reply, Request, Sentinel, WaitEnd};
use ferris::wifi_handshake::config::AutoApConfig;
use ferris::wifi_handshake::runtime::{AutoAp, Phase, RunError, Task};
use ferris::wpa_events::event::EventError;

/// A device that exists only in the test: four files, a clock, and what the
/// commands answer.
struct Device {
    active: bool,
    backup: bool,
    locked: bool,
    unlock: bool,
    socket_after: u64,
    clock: u64,
    stop_at: Option<u64>,
    service_active: bool,
    status: String,
    addresses: String,
    stations: String,
    failing: Vec<Request>,
    log: Vec<Request>,
}

impl Device {
    fn client() -> Device {
        Device {
            active: true,
            backup: false,
            locked: false,
            unlock: false,
            socket_after: 0,
            clock: 0,
            stop_at: None,
            service_active: true,
            status: "ssid=home\nwpa_state=COMPLETED\n".to_string(),
            addresses: "    inet 192.168.1.40/24 scope global wlan0\n".to_string(),
            stations: String::new(),
            failing: Vec::new(),
            log: Vec::new(),
        }
    }

    fn access_point() -> Device {
        Device { active: false, backup: true, ..Device::client() }
    }

    fn exit(ok: bool, text: &str) -> Reply {
        Reply::Exit { success: ok, stdout: text.to_string() }
    }

    fn answer(&mut self, request: Request) -> Reply {
        self.log.push(request);
        if self.failing.contains(&request) {
            return Reply::Failed;
        }
        match request {
            Request::Exists(Probe::ActiveDescriptor) => Reply::Exists(self.active),
            Request::Exists(Probe::BackupDescriptor) => Reply::Exists(self.backup),
            Request::Exists(Probe::Sentinel(Sentinel::Locked)) => Reply::Exists(self.locked),
            Request::Exists(Probe::Sentinel(Sentinel::Unlock)) => Reply::Exists(self.unlock),
            Request::Exists(Probe::ControlSocket) => Reply::Exists(self.clock >= self.socket_after),
            Request::MoveToBackup => {
                if !self.active {
                    return Reply::Failed;
                }
                self.active = false;
                self.backup = true;
                Reply::Done
            }
            Request::MoveToActive => {
                if !self.backup {
                    return Reply::Failed;
                }
                self.backup = false;
                self.active = true;
                Reply::Done
            }
            Request::Create(Sentinel::Locked) => {
                self.locked = true;
                Reply::Done
            }
            Request::Create(Sentinel::Unlock) => {
                self.unlock = true;
                Reply::Done
            }
            Request::Remove(Sentinel::Locked) => {
                let was = self.locked;
                self.locked = false;
                if was { Reply::Done } else { Reply::Failed }
            }
            Request::Remove(Sentinel::Unlock) => {
                let was = self.unlock;
                self.unlock = false;
                if was { Reply::Done } else { Reply::Failed }
            }
            Request::ServiceState => {
                Device::exit(self.service_active, if self.service_active { "active\n" } else { "inactive\n" })
            }
            Request::ServiceStart => {
                self.service_active = true;
                Device::exit(true, "")
            }
            Request::ServiceRestart => Device::exit(true, ""),
            Request::Status => Device::exit(true, &self.status.clone()),
            Request::Addresses => Device::exit(true, &self.addresses.clone()),
            Request::Stations => Device::exit(true, &self.stations.clone()),
            Request::Reconfigure => Device::exit(true, "OK\n"),
            Request::Pause(millis) => {
                let before = self.clock;
                self.clock += millis;
                if let Some(at) = self.stop_at {
                    if before < at && at <= self.clock {
                        self.unlock = true;
                    }
                }
                Reply::Done
            }
            Request::LaunchConfigServer => Reply::Done,
            Request::Monitor => Device::exit(true, ""),
            Request::Finish(_) => Reply::Done,
        }
    }

    fn count(&self, request: Request) -> usize {
        self.log.iter().filter(|r| **r == request).count()
    }

    fn quiescent(&self) -> bool {
        self.active != self.backup
    }
}

fn drive(task: &mut Task, device: &mut Device) -> Outcome {
    for _ in 0..100_000 {
        match task.request() {
            Request::Finish(outcome) => {
                assert_eq!(task.outcome(), Some(outcome));
                return outcome;
            }
            request => {
                assert_eq!(task.outcome(), None);
                let reply = device.answer(request);
                task.resume(&reply);
            }
        }
    }
    panic!("the task does not end");
}

fn args(words: &[&str]) -> Vec<String> {
    words.iter().map(|w| w.to_string()).collect()
}

fn daemon(enable_wait: u64, disconnect_wait: u64) -> AutoAp {
    AutoAp { config: AutoApConfig { enable_wait, disconnect_wait, debug: false } }
}

fn notify(daemon: &AutoAp, device: &mut Device, words: &[&str]) -> Outcome {
    let mut task = daemon.run(args(words)).unwrap();
    drive(&mut task, device)
}

#[test]
fn access_point_enabled_switches_and_waits() {
    let mut device = Device::client();
    let outcome = notify(&daemon(3, 20), &mut device, &["autoap", "wlan0", "AP-ENABLED"]);
    assert_eq!(outcome, Outcome::Waited(WaitEnd::Expired { reconfigured: true }));
    assert!(!device.active && device.backup);
    assert!(!device.locked && !device.unlock);
    assert_eq!(device.clock, 3000);
    assert_eq!(
        device.log[..5],
        [
            Request::Exists(Probe::ActiveDescriptor),
            Request::MoveToBackup,
            Request::ServiceState,
            Request::ServiceRestart,
            Request::Reconfigure,
        ]
    );
    assert_eq!(device.log[5], Request::LaunchConfigServer);
    assert_eq!(device.count(Request::Pause(1000)), 3);
}

#[test]
fn station_connecting_within_the_window_cancels_the_reconfigure() {
    let mut device = Device::access_point();
    device.stop_at = Some(1500);
    let auto = daemon(300, 20);
    let outcome = notify(&auto, &mut device, &["autoap", "wlan0", "AP-ENABLED"]);
    assert_eq!(outcome, Outcome::Waited(WaitEnd::Cancelled));
    assert_eq!(device.count(Request::Reconfigure), 0);
    assert_eq!(device.clock, 2000);
    assert!(!device.locked && !device.unlock);
    assert!(device.quiescent());
}

#[test]
fn station_notification_touches_unlock_while_a_wait_is_locked() {
    let auto = daemon(300, 20);
    let mut device = Device::access_point();
    let mut waiting = auto.run(args(&["autoap", "wlan0", "AP-ENABLED"])).unwrap();
    for _ in 0..12 {
        let request = waiting.request();
        let reply = device.answer(request);
        waiting.resume(&reply);
    }
    assert!(device.locked);
    assert!(matches!(waiting.phase, Phase::Waiting(_)));
    let outcome = notify(
        &auto,
        &mut device,
        &["autoap", "wlan0", "AP-STA-CONNECTED", "aa:bb:cc:dd:ee:ff"],
    );
    assert_eq!(outcome, Outcome::Unlocked);
    assert!(device.unlock);
    let before = device.clock;
    let end = drive(&mut waiting, &mut device);
    assert_eq!(end, Outcome::Waited(WaitEnd::Cancelled));
    assert!(device.clock <= before + 1000);
    assert_eq!(device.count(Request::Reconfigure), 0);
    assert!(!device.locked && !device.unlock);
}

#[test]
fn no_station_ever_connecting_reconfigures_exactly_once() {
    let mut device = Device::access_point();
    let outcome = notify(&daemon(2, 20), &mut device, &["autoap", "wlan0", "AP-ENABLED"]);
    assert_eq!(outcome, Outcome::Waited(WaitEnd::Expired { reconfigured: true }));
    assert_eq!(device.clock, 2000);
    assert_eq!(device.count(Request::Stations), 1);
    assert_eq!(device.count(Request::Reconfigure), 1);
    assert_eq!(device.log.last(), Some(&Request::Reconfigure));
    assert!(!device.locked && !device.unlock);
}

#[test]
fn an_attached_station_keeps_the_access_point() {
    let mut device = Device::access_point();
    device.stations = "aa:bb:cc:dd:ee:ff\nflags=[AUTH][ASSOC][AUTHORIZED]\n".to_string();
    let outcome = notify(&daemon(2, 1), &mut device, &["autoap", "wlan0", "AP-STA-DISCONNECTED", "m"]);
    assert_eq!(outcome, Outcome::Waited(WaitEnd::Expired { reconfigured: false }));
    assert_eq!(device.clock, 1000);
    assert_eq!(device.count(Request::Reconfigure), 0);
}

#[test]
fn a_failing_station_query_counts_as_no_station() {
    let mut device = Device::access_point();
    device.failing.push(Request::Stations);
    let outcome = notify(&daemon(2, 1), &mut device, &["autoap", "wlan0", "AP-STA-DISCONNECTED"]);
    assert_eq!(outcome, Outcome::Waited(WaitEnd::Expired { reconfigured: true }));
    assert_eq!(device.count(Request::Reconfigure), 1);
}

#[test]
fn a_wait_of_no_seconds_expires_at_once() {
    let mut device = Device::access_point();
    let outcome = notify(&daemon(0, 0), &mut device, &["autoap", "wlan0", "AP-STA-DISCONNECTED"]);
    assert_eq!(outcome, Outcome::Waited(WaitEnd::Expired { reconfigured: true }));
    assert_eq!(device.clock, 0);
    assert_eq!(device.count(Request::Pause(1000)), 0);
    assert!(!device.locked && !device.unlock);
}

#[test]
fn a_stale_unlock_is_cleared_before_the_wait() {
    let mut device = Device::access_point();
    device.unlock = true;
    let outcome = notify(&daemon(2, 2), &mut device, &["autoap", "wlan0", "AP-STA-DISCONNECTED"]);
    assert_eq!(outcome, Outcome::Waited(WaitEnd::Expired { reconfigured: true }));
    assert_eq!(device.clock, 2000);
}

#[test]
fn a_second_wait_supersedes_and_does_not_block() {
    let mut device = Device::access_point();
    device.locked = true;
    let outcome = notify(&daemon(300, 300), &mut device, &["autoap", "wlan0", "AP-STA-DISCONNECTED"]);
    assert_eq!(outcome, Outcome::Waited(WaitEnd::Superseded));
    assert_eq!(device.clock, 0);
    assert!(device.unlock && device.locked);
    assert_eq!(
        device.log,
        vec![Request::Exists(Probe::Sentinel(Sentinel::Locked)), Request::Create(Sentinel::Unlock)]
    );
}

#[test]
fn a_wait_that_cannot_set_its_mark_fails() {
    let mut device = Device::access_point();
    device.failing.push(Request::Create(Sentinel::Locked));
    let outcome = notify(&daemon(1, 1), &mut device, &["autoap", "wlan0", "AP-STA-DISCONNECTED"]);
    assert_eq!(outcome, Outcome::Failed(Failure::LockFailed));
    let mut device = Device::access_point();
    device.locked = true;
    device.failing.push(Request::Create(Sentinel::Unlock));
    let outcome = notify(&daemon(1, 1), &mut device, &["autoap", "wlan0", "AP-STA-DISCONNECTED"]);
    assert_eq!(outcome, Outcome::Failed(Failure::UnlockFailed));
    let mut device = Device::access_point();
    device.unlock = true;
    device.failing.push(Request::Remove(Sentinel::Unlock));
    let outcome = notify(&daemon(1, 1), &mut device, &["autoap", "wlan0", "AP-STA-DISCONNECTED"]);
    assert_eq!(outcome, Outcome::Failed(Failure::RemoveFailed(Sentinel::Unlock)));
}

#[test]
fn connected_with_a_routable_address_switches_to_client() {
    let mut device = Device::access_point();
    let outcome = notify(&daemon(1, 1), &mut device, &["autoap", "wlan0", "CONNECTED"]);
    assert_eq!(outcome, Outcome::Client);
    assert!(device.active && !device.backup);
    assert_eq!(
        device.log,
        vec![
            Request::Status,
            Request::Addresses,
            Request::Exists(Probe::BackupDescriptor),
            Request::MoveToActive,
            Request::ServiceState,
            Request::ServiceRestart,
        ]
    );
}

#[test]
fn connected_with_a_link_local_address_never_switches() {
    let mut device = Device::access_point();
    device.addresses = "    inet 169.254.7.7/16 brd 169.254.255.255 scope link wlan0\n".to_string();
    let outcome = notify(&daemon(1, 1), &mut device, &["autoap", "wlan0", "CONNECTED"]);
    assert_eq!(outcome, Outcome::NotJoined);
    assert!(!device.active && device.backup);
    assert_eq!(device.log, vec![Request::Status, Request::Addresses]);
}

#[test]
fn connected_while_an_access_point_never_switches() {
    let mut device = Device::access_point();
    device.status = "ssid=box\nmode=AP\nwpa_state=COMPLETED\n".to_string();
    let outcome = notify(&daemon(1, 1), &mut device, &["autoap", "wlan0", "CONNECTED"]);
    assert_eq!(outcome, Outcome::NotJoined);
    assert!(device.backup);
    assert_eq!(device.count(Request::MoveToActive), 0);
}

#[test]
fn connected_without_a_status_gives_up() {
    let mut device = Device::access_point();
    device.failing.push(Request::Status);
    let outcome = notify(&daemon(1, 1), &mut device, &["autoap", "wlan0", "CONNECTED"]);
    assert_eq!(outcome, Outcome::Failed(Failure::StatusFailed));
    assert_eq!(device.log, vec![Request::Status]);
}

#[test]
fn disconnected_switches_a_client_to_access_point() {
    let mut device = Device::client();
    let outcome = notify(&daemon(1, 1), &mut device, &["autoap", "wlan0", "DISCONNECTED"]);
    assert_eq!(outcome, Outcome::AccessPoint);
    assert!(!device.active && device.backup);
    assert_eq!(device.count(Request::Reconfigure), 1);
}

#[test]
fn disconnected_leaves_an_access_point_alone() {
    let mut device = Device::access_point();
    let outcome = notify(&daemon(1, 1), &mut device, &["autoap", "wlan0", "DISCONNECTED"]);
    assert_eq!(outcome, Outcome::Idle);
    assert_eq!(device.log, vec![Request::Exists(Probe::ActiveDescriptor)]);
}

#[test]
fn access_point_disabled_does_nothing() {
    let mut device = Device::access_point();
    let outcome = notify(&daemon(1, 1), &mut device, &["autoap", "wlan0", "AP-DISABLED"]);
    assert_eq!(outcome, Outcome::Idle);
    assert!(device.log.is_empty());
}

#[test]
fn switching_to_access_point_twice_changes_nothing_the_second_time() {
    let auto = daemon(1, 1);
    let mut device = Device::client();
    let mut first = Task { phase: Phase::ToAp(ferris::wifi_handshake::switcher::ApSwitch::Probe), ..auto.reset() };
    assert_eq!(drive(&mut first, &mut device), Outcome::AccessPoint);
    let files = (device.active, device.backup, device.locked, device.unlock);
    assert_eq!(files, (false, true, false, false));
    let seen = device.log.len();
    let mut second = Task { phase: Phase::ToAp(ferris::wifi_handshake::switcher::ApSwitch::Probe), ..auto.reset() };
    assert_eq!(drive(&mut second, &mut device), Outcome::AccessPoint);
    assert_eq!((device.active, device.backup, device.locked, device.unlock), files);
    assert_eq!(
        device.log[seen..],
        [Request::Exists(Probe::ActiveDescriptor), Request::ServiceState, Request::ServiceRestart]
    );
}

#[test]
fn a_switch_starts_a_service_that_is_not_active() {
    let mut device = Device::client();
    device.service_active = false;
    let outcome = notify(&daemon(1, 1), &mut device, &["autoap", "wlan0", "DISCONNECTED"]);
    assert_eq!(outcome, Outcome::AccessPoint);
    assert_eq!(
        device.log[2..],
        [
            Request::MoveToBackup,
            Request::ServiceState,
            Request::ServiceStart,
            Request::Pause(500),
            Request::ServiceRestart,
            Request::Reconfigure,
        ]
    );
}

#[test]
fn a_failed_rename_leaves_the_mode_as_it_was() {
    let mut device = Device::client();
    device.failing.push(Request::MoveToBackup);
    let outcome = notify(&daemon(1, 1), &mut device, &["autoap", "wlan0", "DISCONNECTED"]);
    assert_eq!(outcome, Outcome::Failed(Failure::BackupFailed));
    assert!(device.active && !device.backup);
    assert_eq!(device.count(Request::ServiceRestart), 0);
}

#[test]
fn a_failed_restart_is_fatal_but_a_failed_reconfigure_is_not() {
    let mut device = Device::client();
    device.failing.push(Request::ServiceRestart);
    let outcome = notify(&daemon(1, 1), &mut device, &["autoap", "wlan0", "DISCONNECTED"]);
    assert_eq!(outcome, Outcome::Failed(Failure::ServiceRestartFailed));
    assert!(device.quiescent());
    let mut device = Device::client();
    device.failing.push(Request::Reconfigure);
    let outcome = notify(&daemon(1, 1), &mut device, &["autoap", "wlan0", "DISCONNECTED"]);
    assert_eq!(outcome, Outcome::AccessPoint);
    let mut device = Device::client();
    device.failing.push(Request::ServiceState);
    let outcome = notify(&daemon(1, 1), &mut device, &["autoap", "wlan0", "DISCONNECTED"]);
    assert_eq!(outcome, Outcome::Failed(Failure::ServiceQueryFailed));
}

#[test]
fn reset_removes_both_sentinels_and_restores_client_mode() {
    for locked in [false, true] {
        for unlock in [false, true] {
            for (active, backup) in [(true, false), (false, true), (true, true), (false, false)] {
                let mut device = Device { locked, unlock, active, backup, ..Device::client() };
                let outcome = notify(&daemon(1, 1), &mut device, &["autoap", "reset"]);
                assert_eq!(outcome, Outcome::Reset);
                assert!(!device.locked && !device.unlock);
                assert!(!device.backup);
                assert_eq!(device.active, active || backup);
                assert_eq!(device.clock, 0);
            }
        }
    }
}

#[test]
fn reset_gives_up_on_a_sentinel_it_cannot_remove() {
    let mut device = Device { locked: true, ..Device::access_point() };
    device.failing.push(Request::Remove(Sentinel::Locked));
    let outcome = notify(&daemon(1, 1), &mut device, &["autoap", "reset"]);
    assert_eq!(outcome, Outcome::Failed(Failure::RemoveFailed(Sentinel::Locked)));
    assert!(device.backup);
}

#[test]
fn start_resets_then_waits_for_the_supplicant_then_monitors() {
    let mut device = Device { locked: true, socket_after: 1200, ..Device::access_point() };
    let auto = daemon(1, 1);
    let mut task = auto.run(args(&["autoap", "start", "wlan1"])).unwrap();
    assert_eq!(task.interface(), "wlan1");
    let outcome = drive(&mut task, &mut device);
    assert_eq!(outcome, Outcome::MonitorStopped);
    assert!(device.active && !device.locked);
    assert_eq!(device.clock, 1500);
    assert_eq!(device.count(Request::Pause(500)), 3);
    assert_eq!(device.log.last(), Some(&Request::Monitor));
}

#[test]
fn start_reports_a_control_client_that_fails() {
    let mut device = Device::client();
    device.failing.push(Request::Monitor);
    let outcome = notify(&daemon(1, 1), &mut device, &["autoap", "start", "wlan0"]);
    assert_eq!(outcome, Outcome::Failed(Failure::MonitorFailed));
}

#[test]
fn run_rejects_what_is_no_invocation() {
    let auto = daemon(1, 1);
    assert!(matches!(auto.run(args(&[])), Err(RunError::InsufficientArguments)));
    assert!(matches!(auto.run(args(&["autoap"])), Err(RunError::InsufficientArguments)));
    assert!(matches!(auto.run(args(&["autoap", "start"])), Err(RunError::MissingDevice)));
    assert!(matches!(
        auto.run(args(&["autoap", "wlan0"])),
        Err(RunError::Event(EventError::InsufficientArguments))
    ));
    match auto.run(args(&["autoap", "wlan0", "UP"])) {
        Err(RunError::Event(EventError::UnrecognizedState(given))) => assert_eq!(given, "UP"),
        _ => panic!("an unknown state was accepted"),
    }
}

#[test]
fn run_begins_each_notification_at_its_phase() {
    let auto = daemon(7, 9);
    let task = auto.run(args(&["autoap", "wlan0", "AP-STA-DISCONNECTED"])).unwrap();
    assert_eq!(task.interface(), "wlan0");
    assert_eq!(task.monitor.handler.config, auto.config);
    match task.phase {
        Phase::Waiting(wait) => assert_eq!(wait.seconds, 9),
        _ => panic!("no wait"),
    }
    let task = auto.run(args(&["autoap", "wlan0", "AP-ENABLED"])).unwrap();
    assert!(matches!(task.phase, Phase::Enabling { wait: 7, .. }));
    let task = auto.run(args(&["autoap", "reset"])).unwrap();
    assert_eq!(task.interface(), "wlan0");
    assert!(matches!(task.phase, Phase::Resetting(_)));
}

#[test]
fn the_mode_flag_holds_after_every_notification() {
    let auto = daemon(1, 1);
    let events = [
        "AP-ENABLED", "AP-STA-CONNECTED", "AP-STA-DISCONNECTED", "CONNECTED", "DISCONNECTED",
        "AP-DISABLED", "CONNECTED", "AP-ENABLED", "DISCONNECTED", "DISCONNECTED", "CONNECTED",
    ];
    for fail in [None, Some(Request::MoveToBackup), Some(Request::MoveToActive), Some(Request::ServiceRestart)] {
        let mut device = Device::client();
        if let Some(request) = fail {
            device.failing.push(request);
        }
        for event in events {
            notify(&auto, &mut device, &["autoap", "wlan0", event]);
            assert!(device.quiescent(), "after {}", event);
        }
    }
}

#[test]
fn the_daemon_reads_its_settings() {
    assert_eq!(AutoAp::new(None).unwrap().config, AutoApConfig::default());
    assert_eq!(AutoAp::new(Some("enablewait=2\n")).unwrap().config.enable_wait, 2);
    assert!(AutoAp::new(Some("enablewait=x\n")).is_err());
}

#[test]
fn tells_calls_by_the_control_client_from_others() {
    assert!(AutoAp::called_by_wpa_cli(&args(&["autoap", "reset"])));
    assert!(AutoAp::called_by_wpa_cli(&args(&["autoap", "start"])));
    assert!(AutoAp::called_by_wpa_cli(&args(&["autoap", "wlan0", "CONNECTED"])));
    assert!(!AutoAp::called_by_wpa_cli(&args(&["autoap", "wlan0"])));
    assert!(!AutoAp::called_by_wpa_cli(&args(&["autoap", "status"])));
    assert!(!AutoAp::called_by_wpa_cli(&args(&["autoap"])));
}
