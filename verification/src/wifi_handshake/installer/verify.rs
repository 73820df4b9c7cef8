//! Looking over the installation.

use crate::wifi_handshake::installer::{plan, run, Action, ActionView, InstallerStep};
use vstd::prelude::*;

verus! {

/// Checks that the services run and that the daemon can be started.
#[derive(Debug, Clone, Copy, PartialEq, Eq)]
pub struct VerificationStep;

impl VerificationStep {
    /// The two services that must be active, each with what is said when it
    /// is not.
    pub open spec fn service_checks() -> Seq<ActionView> {
        seq![
            ActionView::RequireActive {
                service: "systemd-networkd"@,
                message: "systemd-networkd is not active after installation"@,
            },
            ActionView::RequireActive {
                service: "systemd-resolved"@,
                message: "systemd-resolved is not active after installation"@,
            },
        ]
    }

    /// The services of which it is reported whether they are enabled.
    pub open spec fn enablement_checks() -> Seq<ActionView> {
        seq![
            ActionView::ReportEnabled("wpa_supplicant@wlan0"@),
            ActionView::ReportEnabled("wpa-autoap@wlan0"@),
            ActionView::ReportEnabled("wpa-autoap-restore"@),
            ActionView::ReportEnabled("systemd-networkd"@),
            ActionView::ReportEnabled("systemd-resolved"@),
        ]
    }

    /// The trial run of the daemon.
    pub open spec fn binary_check() -> ActionView {
        ActionView::Run { program: "/usr/local/bin/autoap"@, args: seq!["--help"@], required: true }
    }

    pub fn new() -> (r: Self) {
        Self
    }

    /// The checks that the two services are active.
    pub fn check_systemd_services(&self) -> (r: Vec<Action>)
        ensures
            plan(r@) == VerificationStep::service_checks(),
    {
        let mut out: Vec<Action> = Vec::new();
        out.push(
            Action::RequireActive {
                service: "systemd-networkd".to_owned(),
                message: "systemd-networkd is not active after installation".to_owned(),
            },
        );
        out.push(
            Action::RequireActive {
                service: "systemd-resolved".to_owned(),
                message: "systemd-resolved is not active after installation".to_owned(),
            },
        );
        assert(plan(out@) =~= VerificationStep::service_checks());
        out
    }

    /// The reports on which services are enabled.
    pub fn check_service_enablement(&self) -> (r: Vec<Action>)
        ensures
            plan(r@) == VerificationStep::enablement_checks(),
    {
        let mut out: Vec<Action> = Vec::new();
        out.push(Action::ReportEnabled("wpa_supplicant@wlan0".to_owned()));
        out.push(Action::ReportEnabled("wpa-autoap@wlan0".to_owned()));
        out.push(Action::ReportEnabled("wpa-autoap-restore".to_owned()));
        out.push(Action::ReportEnabled("systemd-networkd".to_owned()));
        out.push(Action::ReportEnabled("systemd-resolved".to_owned()));
        assert(plan(out@) =~= VerificationStep::enablement_checks());
        out
    }

    /// The trial run of the daemon.
    pub fn test_autoap_binary(&self) -> (r: Action)
        ensures
            r@ == VerificationStep::binary_check(),
    {
        let action = run("/usr/local/bin/autoap", &["--help"], true);
        assert(Seq::new(1, |i: int| ["--help"]@[i]@) =~= seq!["--help"@]);
        action
    }
}

impl InstallerStep for VerificationStep {
    /// The services, then what is enabled, then the daemon.
    fn execute(&self) -> (r: Vec<Action>)
        ensures
            plan(r@) == VerificationStep::service_checks() + VerificationStep::enablement_checks()
                + seq![VerificationStep::binary_check()],
    {
        let mut out = self.check_systemd_services();
        let mut more = self.check_service_enablement();
        let ghost first = out@;
        let ghost second = more@;
        out.append(&mut more);
        out.push(self.test_autoap_binary());
        assert(plan(out@) =~= plan(first) + plan(second) + seq![VerificationStep::binary_check()]);
        out
    }
}

} // verus!
