//! Checking the system before anything is installed.
//!
//! The checks lead to questions, and what is done depends on the answers.
//! Each function here takes what was found and what the operator said, and
//! gives what is to be done or the reason to stop.

use crate::wifi_handshake::installer::{
    plan, run, systemctl_one, systemctl_two, write_file, Action, ActionView, InstallError,
};
use vstd::prelude::*;

verus! {

/// Looks for what stands in the way of the daemon.
#[derive(Debug, Clone, Copy, PartialEq, Eq)]
pub struct SystemCheckStep;

/// What the operator wants done about another network manager that is
/// active.
#[derive(Debug, Clone, Copy, PartialEq, Eq, Structural)]
pub enum ConflictChoice {
    /// Stop it and keep it from starting.
    Disable,
    /// Have it leave the wireless interface alone.
    Ignore,
    /// Neither.
    Refuse,
}

/// A service that the daemon needs.
#[derive(Debug, Clone, Copy, PartialEq, Eq, Structural)]
pub enum Service {
    Networkd,
    Resolved,
}

/// A package manager that the installer knows.
#[derive(Debug, Clone, Copy, PartialEq, Eq, Structural)]
pub enum PackageManager {
    Apt,
    Dnf,
    Yum,
    Pacman,
}

impl Service {
    /// The name of the service.
    pub open spec fn name(self) -> Seq<char> {
        match self {
            Service::Networkd => "systemd-networkd"@,
            Service::Resolved => "systemd-resolved"@,
        }
    }

    /// The name of the service.
    pub fn as_str(&self) -> (r: &'static str)
        ensures
            r@ == self.name(),
    {
        match self {
            Service::Networkd => "systemd-networkd",
            Service::Resolved => "systemd-resolved",
        }
    }
}

impl PackageManager {
    /// The package manager to use: the first that is there, in the order
    /// apt, dnf, yum, pacman.
    pub open spec fn first_of(apt: bool, dnf: bool, yum: bool, pacman: bool) -> Option<
        PackageManager,
    > {
        if apt {
            Some(PackageManager::Apt)
        } else if dnf {
            Some(PackageManager::Dnf)
        } else if yum {
            Some(PackageManager::Yum)
        } else if pacman {
            Some(PackageManager::Pacman)
        } else {
            None
        }
    }

    /// How this package manager installs the resolver. With apt the package
    /// list is refreshed first, and a failure to refresh it is no error.
    pub open spec fn install_steps(self) -> Seq<ActionView> {
        match self {
            PackageManager::Apt => seq![
                ActionView::Run { program: "apt"@, args: seq!["update"@], required: false },
                ActionView::Run {
                    program: "apt"@,
                    args: seq!["install"@, "-y"@, "systemd-resolved"@],
                    required: true,
                },
            ],
            PackageManager::Dnf => seq![
                ActionView::Run {
                    program: "dnf"@,
                    args: seq!["install"@, "-y"@, "systemd-resolved"@],
                    required: true,
                },
            ],
            PackageManager::Yum => seq![
                ActionView::Run {
                    program: "yum"@,
                    args: seq!["install"@, "-y"@, "systemd-resolved"@],
                    required: true,
                },
            ],
            PackageManager::Pacman => seq![
                ActionView::Run {
                    program: "pacman"@,
                    args: seq!["-S"@, "--noconfirm"@, "systemd-resolvconf"@],
                    required: true,
                },
            ],
        }
    }
}

impl SystemCheckStep {
    /// Stopping another network manager for good. How the three commands
    /// end is not looked at.
    pub open spec fn disable_steps() -> Seq<ActionView> {
        seq![
            ActionView::Systemctl { args: seq!["stop"@, "NetworkManager"@], required: false },
            ActionView::Systemctl { args: seq!["disable"@, "NetworkManager"@], required: false },
            ActionView::Systemctl { args: seq!["mask"@, "NetworkManager"@], required: false },
        ]
    }

    /// Having another network manager leave the wireless interface alone.
    pub open spec fn ignore_steps() -> Seq<ActionView> {
        seq![
            ActionView::CreateDir("/etc/NetworkManager/conf.d"@),
            ActionView::Write {
                path: "/etc/NetworkManager/conf.d/99-unmanaged-devices.conf"@,
                content: "[keyfile]\nunmanaged-devices=interface-name:wlan0\n"@,
            },
            ActionView::Systemctl { args: seq!["restart"@, "NetworkManager"@], required: false },
        ]
    }

    /// Installing the resolver with a package manager; afterwards the
    /// service manager reads its units again.
    pub open spec fn resolver_steps(manager: PackageManager) -> Seq<ActionView> {
        manager.install_steps() + seq![
            ActionView::Systemctl { args: seq!["daemon-reload"@], required: true },
        ]
    }

    /// Enabling and starting a service, which must be active afterwards.
    pub open spec fn enable_steps(service: Service) -> Seq<ActionView> {
        seq![
            ActionView::Systemctl { args: seq!["enable"@, service.name()], required: true },
            ActionView::Systemctl { args: seq!["start"@, service.name()], required: true },
            ActionView::RequireActive {
                service: service.name(),
                message: "Failed to start "@ + service.name(),
            },
        ]
    }

    pub fn new() -> (r: Self) {
        Self
    }

    /// What is done about another network manager. One that is not active
    /// needs nothing; with one that is, the operator chooses, and choosing
    /// neither way ends the installation.
    pub fn check_network_manager_conflict(&self, active: bool, choice: ConflictChoice) -> (r:
        Result<Vec<Action>, InstallError>)
        ensures
            match r {
                Ok(actions) => plan(actions@) == if !active {
                    Seq::<ActionView>::empty()
                } else if choice == ConflictChoice::Disable {
                    SystemCheckStep::disable_steps()
                } else {
                    SystemCheckStep::ignore_steps()
                } && (active ==> choice != ConflictChoice::Refuse),
                Err(e) => active && choice == ConflictChoice::Refuse && e
                    == InstallError::NetworkManagerConflict,
            },
    {
        if !active {
            let none: Vec<Action> = Vec::new();
            assert(plan(none@) =~= Seq::<ActionView>::empty());
            return Ok(none);
        }
        match choice {
            ConflictChoice::Disable => Ok(self.disable_network_manager()),
            ConflictChoice::Ignore => Ok(self.configure_network_manager_ignore()),
            ConflictChoice::Refuse => Err(InstallError::NetworkManagerConflict),
        }
    }

    /// Stopping another network manager for good.
    pub fn disable_network_manager(&self) -> (r: Vec<Action>)
        ensures
            plan(r@) == SystemCheckStep::disable_steps(),
    {
        let mut out: Vec<Action> = Vec::new();
        out.push(systemctl_two("stop", "NetworkManager", false));
        out.push(systemctl_two("disable", "NetworkManager", false));
        out.push(systemctl_two("mask", "NetworkManager", false));
        assert(plan(out@) =~= SystemCheckStep::disable_steps());
        out
    }

    /// Having another network manager leave the wireless interface alone.
    pub fn configure_network_manager_ignore(&self) -> (r: Vec<Action>)
        ensures
            plan(r@) == SystemCheckStep::ignore_steps(),
    {
        let mut out: Vec<Action> = Vec::new();
        out.push(Action::CreateDir("/etc/NetworkManager/conf.d".to_owned()));
        out.push(
            write_file(
                "/etc/NetworkManager/conf.d/99-unmanaged-devices.conf",
                "[keyfile]\nunmanaged-devices=interface-name:wlan0\n".to_owned(),
            ),
        );
        out.push(systemctl_two("restart", "NetworkManager", false));
        assert(plan(out@) =~= SystemCheckStep::ignore_steps());
        out
    }

    /// What is done about a service that does not exist. Only the resolver
    /// can be installed, and only if the operator agrees and a package
    /// manager is there.
    pub fn service_exists(
        &self,
        service: Service,
        install: bool,
        apt: bool,
        dnf: bool,
        yum: bool,
        pacman: bool,
    ) -> (r: Result<Vec<Action>, InstallError>)
        ensures
            match r {
                Ok(actions) => service == Service::Resolved && install && (PackageManager::first_of(
                    apt,
                    dnf,
                    yum,
                    pacman,
                ) matches Some(manager) && plan(actions@) == SystemCheckStep::resolver_steps(
                    manager,
                )),
                Err(e) => e == if service == Service::Networkd {
                    InstallError::NetworkdMissing
                } else if !install {
                    InstallError::ResolvedDeclined
                } else {
                    InstallError::NoPackageManager
                } && (service == Service::Networkd || !install || PackageManager::first_of(
                    apt,
                    dnf,
                    yum,
                    pacman,
                ) is None),
            },
    {
        match service {
            Service::Networkd => Err(InstallError::NetworkdMissing),
            Service::Resolved => if install {
                self.install_systemd_resolved(apt, dnf, yum, pacman)
            } else {
                Err(InstallError::ResolvedDeclined)
            },
        }
    }

    /// What is done about a service that is not active: with the operator's
    /// agreement it is enabled and started, and it must be active then.
    pub fn check_and_enable_service(&self, service: Service, active: bool, enable: bool) -> (r:
        Result<Vec<Action>, InstallError>)
        ensures
            match r {
                Ok(actions) => (active || enable) && plan(actions@) == if active {
                    Seq::<ActionView>::empty()
                } else {
                    SystemCheckStep::enable_steps(service)
                },
                Err(e) => !active && !enable && e == InstallError::ServiceDeclined,
            },
    {
        let mut out: Vec<Action> = Vec::new();
        if active {
            assert(plan(out@) =~= Seq::<ActionView>::empty());
            return Ok(out);
        }
        if !enable {
            return Err(InstallError::ServiceDeclined);
        }
        out.push(systemctl_two("enable", service.as_str(), true));
        out.push(systemctl_two("start", service.as_str(), true));
        let mut message = "Failed to start ".to_owned();
        vstd::string::StringExecFns::append(&mut message, service.as_str());
        out.push(Action::RequireActive { service: service.as_str().to_owned(), message });
        assert(plan(out@) =~= SystemCheckStep::enable_steps(service));
        Ok(out)
    }

    /// Installing the resolver with the first package manager that is
    /// there.
    pub fn install_systemd_resolved(&self, apt: bool, dnf: bool, yum: bool, pacman: bool) -> (r:
        Result<Vec<Action>, InstallError>)
        ensures
            match r {
                Ok(actions) => PackageManager::first_of(apt, dnf, yum, pacman) matches Some(manager)
                    && plan(actions@) == SystemCheckStep::resolver_steps(manager),
                Err(e) => PackageManager::first_of(apt, dnf, yum, pacman) is None && e
                    == InstallError::NoPackageManager,
            },
    {
        let mut out = if apt {
            self.install_with_apt()
        } else if dnf {
            self.install_with_dnf()
        } else if yum {
            self.install_with_yum()
        } else if pacman {
            self.install_with_pacman()
        } else {
            return Err(InstallError::NoPackageManager);
        };
        let ghost before = out@;
        out.push(systemctl_one("daemon-reload", true));
        assert(plan(out@) =~= plan(before) + seq![
            ActionView::Systemctl { args: seq!["daemon-reload"@], required: true },
        ]);
        Ok(out)
    }

    /// Installing the resolver with apt.
    pub fn install_with_apt(&self) -> (r: Vec<Action>)
        ensures
            plan(r@) == PackageManager::Apt.install_steps(),
    {
        let mut out: Vec<Action> = Vec::new();
        out.push(run("apt", &["update"], false));
        out.push(run("apt", &["install", "-y", "systemd-resolved"], true));
        assert(Seq::new(1, |i: int| ["update"]@[i]@) =~= seq!["update"@]);
        assert(Seq::new(3, |i: int| ["install", "-y", "systemd-resolved"]@[i]@) =~= seq![
            "install"@,
            "-y"@,
            "systemd-resolved"@,
        ]);
        assert(plan(out@) =~= PackageManager::Apt.install_steps());
        out
    }

    /// Installing the resolver with dnf.
    pub fn install_with_dnf(&self) -> (r: Vec<Action>)
        ensures
            plan(r@) == PackageManager::Dnf.install_steps(),
    {
        let mut out: Vec<Action> = Vec::new();
        out.push(run("dnf", &["install", "-y", "systemd-resolved"], true));
        assert(Seq::new(3, |i: int| ["install", "-y", "systemd-resolved"]@[i]@) =~= seq![
            "install"@,
            "-y"@,
            "systemd-resolved"@,
        ]);
        assert(plan(out@) =~= PackageManager::Dnf.install_steps());
        out
    }

    /// Installing the resolver with yum.
    pub fn install_with_yum(&self) -> (r: Vec<Action>)
        ensures
            plan(r@) == PackageManager::Yum.install_steps(),
    {
        let mut out: Vec<Action> = Vec::new();
        out.push(run("yum", &["install", "-y", "systemd-resolved"], true));
        assert(Seq::new(3, |i: int| ["install", "-y", "systemd-resolved"]@[i]@) =~= seq![
            "install"@,
            "-y"@,
            "systemd-resolved"@,
        ]);
        assert(plan(out@) =~= PackageManager::Yum.install_steps());
        out
    }

    /// Installing the resolver with pacman.
    pub fn install_with_pacman(&self) -> (r: Vec<Action>)
        ensures
            plan(r@) == PackageManager::Pacman.install_steps(),
    {
        let mut out: Vec<Action> = Vec::new();
        out.push(run("pacman", &["-S", "--noconfirm", "systemd-resolvconf"], true));
        assert(Seq::new(3, |i: int| ["-S", "--noconfirm", "systemd-resolvconf"]@[i]@) =~= seq![
            "-S"@,
            "--noconfirm"@,
            "systemd-resolvconf"@,
        ]);
        assert(plan(out@) =~= PackageManager::Pacman.install_steps());
        out
    }
}

} // verus!
