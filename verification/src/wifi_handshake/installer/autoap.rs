//! The units that run the daemon.

use crate::wifi_handshake::installer::{backup, plan, write_file, Action, ActionView, InstallerStep};
use vstd::prelude::*;

verus! {

/// Writes the unit that runs the daemon and the unit that resets it at boot.
#[derive(Debug, Clone, Copy, PartialEq, Eq)]
pub struct SystemdServicesStep;

impl SystemdServicesStep {
    /// Where the unit of the daemon lies.
    pub open spec fn autoap_path() -> Seq<char> {
        "/etc/systemd/system/wpa-autoap@wlan0.service"@
    }

    /// Where the unit of the reset lies.
    pub open spec fn restore_path() -> Seq<char> {
        "/etc/systemd/system/wpa-autoap-restore.service"@
    }

    /// The unit that runs the daemon: bound to the supplicant of the
    /// interface and started before it.
    pub open spec fn autoap_unit() -> Seq<char> {
        "[Unit]\nDescription=autoAP Automatic Access Point When No WiFi Connection (wpa-autoap@wlan0.service)\n#After=network.target network-online.target wpa_supplicant@%i.service sys-subsystem-net-devices-%i.device\nBefore=wpa_supplicant@%i.service\nBindsTo=wpa_supplicant@%i.service\n\n[Service]\nType=simple\nExecStart=/usr/local/bin/autoap start %I\nRestart=on-failure\nTimeoutSec=1\n\n[Install]\nWantedBy=multi-user.target\n\n"@
    }

    /// The unit that returns the daemon to a known state at boot.
    pub open spec fn restore_unit() -> Seq<char> {
        "[Unit]\nDescription=Restore wpa-autoap configuration (wpa-autoap-restore.service)\nDefaultDependencies=no\nAfter=local-fs-pre.target\n\n[Service]\nType=oneshot\nExecStart=/bin/bash -c '[ -x /usr/local/bin/autoap ] && /usr/local/bin/autoap reset'\n\n[Install]\nWantedBy=multi-user.target\n\n"@
    }

    pub fn new() -> (r: Self) {
        Self
    }

    /// The writing of the unit that runs the daemon.
    pub fn create_autoap_service(&self) -> (r: Action)
        ensures
            r@ == (ActionView::Write {
                path: SystemdServicesStep::autoap_path(),
                content: SystemdServicesStep::autoap_unit(),
            }),
    {
        write_file(
            "/etc/systemd/system/wpa-autoap@wlan0.service",
            "[Unit]\nDescription=autoAP Automatic Access Point When No WiFi Connection (wpa-autoap@wlan0.service)\n#After=network.target network-online.target wpa_supplicant@%i.service sys-subsystem-net-devices-%i.device\nBefore=wpa_supplicant@%i.service\nBindsTo=wpa_supplicant@%i.service\n\n[Service]\nType=simple\nExecStart=/usr/local/bin/autoap start %I\nRestart=on-failure\nTimeoutSec=1\n\n[Install]\nWantedBy=multi-user.target\n\n".to_owned(),
        )
    }

    /// The writing of the unit that resets the daemon at boot.
    pub fn create_restore_service(&self) -> (r: Action)
        ensures
            r@ == (ActionView::Write {
                path: SystemdServicesStep::restore_path(),
                content: SystemdServicesStep::restore_unit(),
            }),
    {
        write_file(
            "/etc/systemd/system/wpa-autoap-restore.service",
            "[Unit]\nDescription=Restore wpa-autoap configuration (wpa-autoap-restore.service)\nDefaultDependencies=no\nAfter=local-fs-pre.target\n\n[Service]\nType=oneshot\nExecStart=/bin/bash -c '[ -x /usr/local/bin/autoap ] && /usr/local/bin/autoap reset'\n\n[Install]\nWantedBy=multi-user.target\n\n".to_owned(),
        )
    }
}

impl InstallerStep for SystemdServicesStep {
    /// Copies of both units are kept, then both are written.
    fn execute(&self) -> (r: Vec<Action>)
        ensures
            plan(r@) == seq![
                ActionView::Backup(SystemdServicesStep::autoap_path()),
                ActionView::Backup(SystemdServicesStep::restore_path()),
                ActionView::Write {
                    path: SystemdServicesStep::autoap_path(),
                    content: SystemdServicesStep::autoap_unit(),
                },
                ActionView::Write {
                    path: SystemdServicesStep::restore_path(),
                    content: SystemdServicesStep::restore_unit(),
                },
            ],
    {
        let mut out: Vec<Action> = Vec::new();
        out.push(backup("/etc/systemd/system/wpa-autoap@wlan0.service"));
        out.push(backup("/etc/systemd/system/wpa-autoap-restore.service"));
        out.push(self.create_autoap_service());
        out.push(self.create_restore_service());
        assert(plan(out@) =~= seq![
            ActionView::Backup(SystemdServicesStep::autoap_path()),
            ActionView::Backup(SystemdServicesStep::restore_path()),
            ActionView::Write {
                path: SystemdServicesStep::autoap_path(),
                content: SystemdServicesStep::autoap_unit(),
            },
            ActionView::Write {
                path: SystemdServicesStep::restore_path(),
                content: SystemdServicesStep::restore_unit(),
            },
        ]);
        out
    }
}

} // verus!
