use ferris::system::{Failure, Flow, Probe, Reply, Request, Sentinel};
use ferris::wpa_events::event::{EventError, WpaEvent, WpaState};
use ferris::wpa_events::handler::WpaEventHandler;
use ferris::wpa_events::monitor::{Dispatch, Reset, SocketWait, Watch, WpaEventMonitor};

struct Echo;

impl WpaEventHandler for Echo {
    type Reaction = String;

    fn handle_event(&self, event: WpaEvent) -> String {
        event.to_string()
    }
}

fn args(words: &[&str]) -> Vec<String> {
    words.iter().map(|w| w.to_string()).collect()
}

#[test]
fn the_monitor_hands_a_notification_to_its_handler() {
    let monitor = WpaEventMonitor::new("wlan0", Echo).unwrap();
    assert_eq!(
        monitor.process_event(args(&["autoap", "wlan0", "AP-STA-CONNECTED", "aa:bb"])),
        Ok(Dispatch::Handled("wlan0 AP-STA-CONNECTED aa:bb".to_string()))
    );
}

#[test]
fn the_monitor_ignores_another_interface() {
    let monitor = WpaEventMonitor::new("wlan0", Echo).unwrap();
    assert_eq!(
        monitor.process_event(args(&["autoap", "wlan1", "CONNECTED"])),
        Ok(Dispatch::Ignored)
    );
}

#[test]
fn the_monitor_recognises_the_commands_first() {
    let monitor = WpaEventMonitor::new("wlan0", Echo).unwrap();
    assert_eq!(
        monitor.process_event(args(&["autoap", "reset"])),
        Ok(Dispatch::Reset(Reset::ProbeLocked))
    );
    assert_eq!(
        monitor.process_event(args(&["autoap", "reset", "CONNECTED"])),
        Ok(Dispatch::Reset(Reset::ProbeLocked))
    );
    assert_eq!(
        monitor.process_event(args(&["autoap", "start", "wlan0"])),
        Ok(Dispatch::Start(Watch::Socket(SocketWait::Probe)))
    );
    assert_eq!(
        monitor.process_event(args(&["autoap", "start"])),
        Err(EventError::InsufficientArguments)
    );
}

#[test]
fn the_monitor_rejects_what_it_cannot_read() {
    let monitor = WpaEventMonitor::new("wlan0", Echo).unwrap();
    assert_eq!(
        monitor.process_event(args(&["autoap", "wlan0", "connected"])),
        Err(EventError::UnrecognizedState("connected".to_string()))
    );
    assert_eq!(monitor.process_event(args(&["autoap"])), Err(EventError::InsufficientArguments));
}

#[test]
fn the_monitor_keeps_its_interface() {
    let monitor = WpaEventMonitor::new("wlan7", Echo).unwrap();
    assert_eq!(monitor.interface, "wlan7");
}

#[test]
fn reset_steps_through_the_three_files() {
    let monitor = WpaEventMonitor::new("wlan0", Echo).unwrap();
    assert_eq!(Reset::ProbeLocked.request(), Request::Exists(Probe::Sentinel(Sentinel::Locked)));
    assert!(matches!(
        monitor.reset(Reset::ProbeLocked, &Reply::Exists(true)),
        Flow::Next(Reset::RemoveLocked)
    ));
    assert!(matches!(
        monitor.reset(Reset::ProbeLocked, &Reply::Exists(false)),
        Flow::Next(Reset::ProbeUnlock)
    ));
    assert!(matches!(
        monitor.reset(Reset::RemoveLocked, &Reply::Failed),
        Flow::Failed(Failure::RemoveFailed(Sentinel::Locked))
    ));
    assert!(matches!(
        monitor.reset(Reset::ProbeBackup, &Reply::Exists(false)),
        Flow::Done(())
    ));
    assert!(matches!(monitor.reset(Reset::Restore, &Reply::Done), Flow::Done(())));
    assert!(matches!(
        monitor.reset(Reset::Restore, &Reply::Failed),
        Flow::Failed(Failure::RestoreFailed)
    ));
    assert_eq!(Reset::Restore.request(), Request::MoveToActive);
}

#[test]
fn the_socket_is_looked_for_every_half_second() {
    let monitor = WpaEventMonitor::new("wlan0", Echo).unwrap();
    assert_eq!(SocketWait::Probe.request(), Request::Exists(Probe::ControlSocket));
    assert_eq!(SocketWait::Pause.request(), Request::Pause(500));
    assert!(matches!(
        monitor.wait_for_wpa_supplicant(SocketWait::Probe, &Reply::Exists(false)),
        Flow::Next(SocketWait::Pause)
    ));
    assert!(matches!(
        monitor.wait_for_wpa_supplicant(SocketWait::Pause, &Reply::Done),
        Flow::Next(SocketWait::Probe)
    ));
    assert!(matches!(
        monitor.start(Watch::Socket(SocketWait::Probe), &Reply::Exists(true)),
        Flow::Next(Watch::Monitor)
    ));
    assert_eq!(Watch::Monitor.request(), Request::Monitor);
    assert!(matches!(
        monitor.start(Watch::Monitor, &Reply::Exit { success: false, stdout: String::new() }),
        Flow::Failed(Failure::MonitorExited)
    ));
    assert!(matches!(
        monitor.start(Watch::Monitor, &Reply::Exit { success: true, stdout: String::new() }),
        Flow::Done(())
    ));
}

#[test]
fn a_state_is_carried_through_the_handler() {
    let monitor = WpaEventMonitor::new("wlan0", Echo).unwrap();
    let r = monitor.process_event(args(&["autoap", "wlan0", "DISCONNECTED"]));
    assert_eq!(r, Ok(Dispatch::Handled(format!("wlan0 {}", WpaState::Disconnected.as_str()))));
}
