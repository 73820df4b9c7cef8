//! Enabling the services.

use crate::wifi_handshake::config::AutoApConfig;
use crate::wifi_handshake::installer::{
    plan, systemctl_one, systemctl_two, write_file, Action, ActionView, InstallerStep,
};
use vstd::prelude::*;

verus! {

/// Writes the settings of the daemon and enables what has to run.
#[derive(Debug, Clone, Copy, PartialEq, Eq)]
pub struct ServiceConfigStep;

impl ServiceConfigStep {
    /// Where the settings of the daemon lie.
    pub open spec fn settings_path() -> Seq<char> {
        "/usr/local/bin/autoAP.conf"@
    }

    /// What the step does: the default settings are written, the service
    /// manager reads its units again, the supplicant of the interface is
    /// enabled in place of the general one, and both units of the daemon are
    /// enabled. That the general supplicant cannot be disabled is no error:
    /// it may not have been enabled.
    pub open spec fn steps() -> Seq<ActionView> {
        seq![
            ActionView::Write {
                path: ServiceConfigStep::settings_path(),
                content: AutoApConfig::defaults().rendered(),
            },
            ActionView::Systemctl { args: seq!["daemon-reload"@], required: true },
            ActionView::Systemctl { args: seq!["enable"@, "wpa_supplicant@wlan0"@], required: true },
            ActionView::Systemctl { args: seq!["disable"@, "wpa_supplicant"@], required: false },
            ActionView::Systemctl { args: seq!["enable"@, "wpa-autoap@wlan0"@], required: true },
            ActionView::Systemctl { args: seq!["enable"@, "wpa-autoap-restore"@], required: true },
        ]
    }

    pub fn new() -> (r: Self) {
        Self
    }

    /// The enabling of the supplicant of the interface.
    pub fn enable_wpa_supplicant(&self) -> (r: Action)
        ensures
            r@ == (ActionView::Systemctl {
                args: seq!["enable"@, "wpa_supplicant@wlan0"@],
                required: true,
            }),
    {
        systemctl_two("enable", "wpa_supplicant@wlan0", true)
    }

    /// The disabling of the general supplicant, which may fail.
    pub fn disable_vanilla_wpa_supplicant(&self) -> (r: Action)
        ensures
            r@ == (ActionView::Systemctl {
                args: seq!["disable"@, "wpa_supplicant"@],
                required: false,
            }),
    {
        systemctl_two("disable", "wpa_supplicant", false)
    }

    /// The enabling of the two units of the daemon.
    pub fn enable_autoap_services(&self) -> (r: Vec<Action>)
        ensures
            plan(r@) == seq![
                ActionView::Systemctl { args: seq!["enable"@, "wpa-autoap@wlan0"@], required: true },
                ActionView::Systemctl {
                    args: seq!["enable"@, "wpa-autoap-restore"@],
                    required: true,
                },
            ],
    {
        let mut out: Vec<Action> = Vec::new();
        out.push(systemctl_two("enable", "wpa-autoap@wlan0", true));
        out.push(systemctl_two("enable", "wpa-autoap-restore", true));
        assert(plan(out@) =~= seq![
            ActionView::Systemctl { args: seq!["enable"@, "wpa-autoap@wlan0"@], required: true },
            ActionView::Systemctl { args: seq!["enable"@, "wpa-autoap-restore"@], required: true },
        ]);
        out
    }
}

impl InstallerStep for ServiceConfigStep {
    fn execute(&self) -> (r: Vec<Action>)
        ensures
            plan(r@) == ServiceConfigStep::steps(),
    {
        let mut out: Vec<Action> = Vec::new();
        let settings = AutoApConfig::default();
        out.push(write_file("/usr/local/bin/autoAP.conf", settings.save()));
        out.push(systemctl_one("daemon-reload", true));
        out.push(self.enable_wpa_supplicant());
        out.push(self.disable_vanilla_wpa_supplicant());
        let mut units = self.enable_autoap_services();
        let ghost head = out@;
        let ghost tail = units@;
        assert(plan(tail).len() == 2);
        assert(plan(tail)[0] == tail[0]@ && plan(tail)[1] == tail[1]@);
        out.append(&mut units);
        assert(out@ == head + tail);
        assert(plan(out@) =~= ServiceConfigStep::steps());
        out
    }
}

} // verus!
