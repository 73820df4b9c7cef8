//! Provisioning a device: the steps of the installer, each as the list of
//! things to do, in order.

use crate::text::texts;
use crate::wifi_handshake::config::ApConfig;
use crate::wifi_handshake::installer::autoap::SystemdServicesStep;
use crate::wifi_handshake::installer::confirmation::ConfirmationStep;
use crate::wifi_handshake::installer::service_config::ServiceConfigStep;
use crate::wifi_handshake::installer::systemd_network::SystemdNetworkStep;
use crate::wifi_handshake::installer::verify::VerificationStep;
use crate::wifi_handshake::installer::wpa_supplicant::WpaSupplicantStep;
use vstd::prelude::*;

pub mod autoap;
pub mod configuration;
pub mod confirmation;
pub mod service_config;
pub mod system_check;
pub mod systemd_network;
pub mod verify;
pub mod wpa_supplicant;

verus! {

/// One thing that the installer does. Unless it says otherwise, a thing that
/// cannot be done ends the installation.
#[derive(Debug, Clone, PartialEq, Eq)]
pub enum Action {
    /// Keep a copy of the file, if it is there.
    Backup(String),
    /// Write the file, with the directories above it.
    Write { path: String, content: String },
    /// Remove the file, if it is there.
    RemoveIfPresent(String),
    /// Of the first of the two files that is there, if any: keep a copy,
    /// then rename the file by adding `-orig` to its name.
    Preserve { first: String, second: String },
    /// Create the directory, with the directories above it.
    CreateDir(String),
    /// Run the service manager with these arguments. If `required` is not
    /// set, a failure is only reported.
    Systemctl { args: Vec<String>, required: bool },
    /// Run a program with these arguments. If `required` is not set, a
    /// failure is only reported.
    Run { program: String, args: Vec<String>, required: bool },
    /// The service must be active, or the installation ends with `message`.
    RequireActive { service: String, message: String },
    /// Report whether the service is enabled.
    ReportEnabled(String),
    /// Show the line to the operator.
    Show(String),
    /// Ask the operator; a no ends the installation with `refusal`.
    Confirm { prompt: String, refusal: String },
}

/// An action as plain values.
pub enum ActionView {
    Backup(Seq<char>),
    Write { path: Seq<char>, content: Seq<char> },
    RemoveIfPresent(Seq<char>),
    Preserve { first: Seq<char>, second: Seq<char> },
    CreateDir(Seq<char>),
    Systemctl { args: Seq<Seq<char>>, required: bool },
    Run { program: Seq<char>, args: Seq<Seq<char>>, required: bool },
    RequireActive { service: Seq<char>, message: Seq<char> },
    ReportEnabled(Seq<char>),
    Show(Seq<char>),
    Confirm { prompt: Seq<char>, refusal: Seq<char> },
}

impl View for Action {
    type V = ActionView;

    open spec fn view(&self) -> ActionView {
        match self {
            Action::Backup(path) => ActionView::Backup(path@),
            Action::Write { path, content } => ActionView::Write { path: path@, content: content@ },
            Action::RemoveIfPresent(path) => ActionView::RemoveIfPresent(path@),
            Action::Preserve { first, second } => ActionView::Preserve {
                first: first@,
                second: second@,
            },
            Action::CreateDir(path) => ActionView::CreateDir(path@),
            Action::Systemctl { args, required } => ActionView::Systemctl {
                args: texts(args@),
                required: *required,
            },
            Action::Run { program, args, required } => ActionView::Run {
                program: program@,
                args: texts(args@),
                required: *required,
            },
            Action::RequireActive { service, message } => ActionView::RequireActive {
                service: service@,
                message: message@,
            },
            Action::ReportEnabled(service) => ActionView::ReportEnabled(service@),
            Action::Show(line) => ActionView::Show(line@),
            Action::Confirm { prompt, refusal } => ActionView::Confirm {
                prompt: prompt@,
                refusal: refusal@,
            },
        }
    }
}

/// What each action of a list is.
pub open spec fn plan(actions: Seq<Action>) -> Seq<ActionView> {
    Seq::new(actions.len(), |i: int| actions[i]@)
}

/// A call of the service manager that must succeed.
pub open spec fn systemctl(args: Seq<Seq<char>>) -> ActionView {
    ActionView::Systemctl { args, required: true }
}

/// A step of the installation.
pub trait InstallerStep {
    /// What the step does, in order.
    fn execute(&self) -> Vec<Action>;
}

/// The installer. Its steps, in their order: check the system, ask for the
/// access point, confirm, set up the supplicant, the network and the units,
/// configure the services, verify.
#[derive(Debug, Clone, Copy, PartialEq, Eq)]
pub struct Installer;

impl Installer {
    pub fn new() -> (r: Self) {
        Self
    }

    /// What the installer does once the system is checked and the access
    /// point is known: the steps from the confirmation on, in their order.
    pub fn install(&self, config: &ApConfig) -> (r: Vec<Action>)
        ensures
            plan(r@) == ConfirmationStep::steps(*config) + seq![
                ActionView::Preserve {
                    first: WpaSupplicantStep::generic_path(),
                    second: WpaSupplicantStep::interface_path(),
                },
                ActionView::Write {
                    path: WpaSupplicantStep::interface_path(),
                    content: WpaSupplicantStep::configuration(config.ssid@, config.psk@),
                },
            ] + SystemdNetworkStep::steps(config.ip_address@) + seq![
                ActionView::Backup(SystemdServicesStep::autoap_path()),
                ActionView::Backup(SystemdServicesStep::restore_path()),
                ActionView::Write {
                    path: SystemdServicesStep::autoap_path(),
                    content: SystemdServicesStep::autoap_unit(),
                },
                ActionView::Write {
                    path: SystemdServicesStep::restore_path(),
                    content: SystemdServicesStep::restore_unit(),
                },
            ] + ServiceConfigStep::steps() + VerificationStep::service_checks()
                + VerificationStep::enablement_checks() + seq![VerificationStep::binary_check()],
    {
        let mut out = ConfirmationStep::new(config).execute();
        let ghost a = out@;
        let mut next = WpaSupplicantStep::new(config).execute();
        let ghost b = next@;
        out.append(&mut next);
        let mut next = SystemdNetworkStep::new(config).execute();
        let ghost c = next@;
        out.append(&mut next);
        let mut next = SystemdServicesStep::new().execute();
        let ghost d = next@;
        out.append(&mut next);
        let mut next = ServiceConfigStep::new().execute();
        let ghost e = next@;
        out.append(&mut next);
        let mut next = VerificationStep::new().execute();
        let ghost f = next@;
        out.append(&mut next);
        assert(out@ == a + b + c + d + e + f);
        assert(plan(out@) =~= plan(a) + plan(b) + plan(c) + plan(d) + plan(e) + plan(f));
        out
    }
}

/// Why the installation ends before anything is written.
#[derive(Debug, Clone, Copy, PartialEq, Eq, Structural)]
pub enum InstallError {
    /// The operator would neither disable the other network manager nor
    /// have it leave the interface alone.
    NetworkManagerConflict,
    /// The service that configures the network does not exist.
    NetworkdMissing,
    /// The operator would not have the resolver installed.
    ResolvedDeclined,
    /// No package manager that the installer knows is there.
    NoPackageManager,
    /// The operator would not have a service that is needed enabled.
    ServiceDeclined,
}

/// The action that keeps a copy of `path`.
pub fn backup(path: &str) -> (r: Action)
    ensures
        r@ == ActionView::Backup(path@),
{
    Action::Backup(path.to_owned())
}

/// The action that writes `content` to `path`.
pub fn write_file(path: &str, content: String) -> (r: Action)
    ensures
        r@ == (ActionView::Write { path: path@, content: content@ }),
{
    Action::Write { path: path.to_owned(), content }
}

/// The action that runs `program` with `args`.
pub fn run(program: &str, args: &[&str], required: bool) -> (r: Action)
    ensures
        r@ == (ActionView::Run {
            program: program@,
            args: Seq::new(args@.len(), |i: int| args@[i]@),
            required,
        }),
{
    let list = strings(args);
    assert(texts(list@) =~= Seq::new(args@.len(), |i: int| args@[i]@));
    Action::Run { program: program.to_owned(), args: list, required }
}

/// The strings of `words`.
pub fn strings(words: &[&str]) -> (r: Vec<String>)
    ensures
        r@.len() == words@.len(),
        forall|i: int| 0 <= i < words@.len() ==> (#[trigger] r@[i])@ == words@[i]@,
{
    let mut out: Vec<String> = Vec::new();
    let mut i: usize = 0;
    while i < words.len()
        invariant
            i <= words.len(),
            out@.len() == i,
            forall|j: int| 0 <= j < i ==> (#[trigger] out@[j])@ == words@[j]@,
        decreases words.len() - i,
    {
        out.push(words[i].to_owned());
        i += 1;
    }
    out
}

/// A call of the service manager with one argument.
pub fn systemctl_one(verb: &str, required: bool) -> (r: Action)
    ensures
        r@ == (ActionView::Systemctl { args: seq![verb@], required }),
{
    let args = strings(&[verb]);
    assert(texts(args@) =~= seq![verb@]);
    Action::Systemctl { args, required }
}

/// A call of the service manager with a verb and a unit.
pub fn systemctl_two(verb: &str, unit: &str, required: bool) -> (r: Action)
    ensures
        r@ == (ActionView::Systemctl { args: seq![verb@, unit@], required }),
{
    let args = strings(&[verb, unit]);
    assert(texts(args@) =~= seq![verb@, unit@]);
    Action::Systemctl { args, required }
}

} // verus!
