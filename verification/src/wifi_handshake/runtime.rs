//! The daemon: what it does on each invocation.
//!
//! An invocation is one [`Task`]. It stands at a [`Phase`], which names what
//! the task is waiting for, and it moves on with each reply until it is
//! finished. A task that began a wait carries it to its end: whoever drives
//! the task stays until then.

use crate::system::{Failure, Flow, Outcome, Probe, Reply, Request, Sentinel};
use crate::text::{chars_of, equals_str, same_text, starts_with, texts};
use crate::wifi_handshake::config::{AutoApConfig, ConfigError};
use crate::wifi_handshake::connection::{has_routable_address, status_shows_client};
use crate::wifi_handshake::debounce::Wait;
use crate::wifi_handshake::switcher::{ApSwitch, ClientSwitch};
use crate::wpa_events::event::{EventError, WpaEvent, WpaEventView, WpaState};
use crate::wpa_events::handler::WpaEventHandler;
use crate::wpa_events::monitor::{Dispatch, Reset, SocketWait, Watch, WpaEventMonitor};
use vstd::prelude::*;

verus! {

/// The daemon with its settings.
pub struct AutoAp {
    pub config: AutoApConfig,
}

/// Decides what follows from each notification of the supplicant.
pub struct AutoApHandler {
    pub config: AutoApConfig,
}

/// What a task is doing, and within that what it is waiting for.
#[derive(Debug, Clone, Copy, PartialEq, Eq, Structural)]
pub enum Phase {
    /// The access point came up: the switch to access point mode. A wait of
    /// `wait` seconds follows.
    Enabling { at: ApSwitch, wait: u64 },
    /// The access point came up: the page for the operator. A wait of `wait`
    /// seconds follows.
    Serving { wait: u64 },
    /// The wait before the client network is tried again.
    Waiting(Wait),
    /// The supplicant reported a connection: its status.
    Verifying,
    /// The supplicant reported a connection: the addresses of the interface.
    /// `client` says whether the status was that of a client.
    Addressing { client: bool },
    /// The switch to client mode.
    ToClient(ClientSwitch),
    /// A station joined: the signal that stops a wait.
    Unlocking,
    /// The network was lost: whether the interface is a client.
    ProbingClient,
    /// The switch to access point mode.
    ToAp(ApSwitch),
    /// The return to a known state.
    Resetting(Reset),
    /// The return to a known state, before the control client runs.
    Starting(Reset),
    /// The run of the control client.
    Watching(Watch),
    /// Nothing: the task is over.
    Finished(Outcome),
}

/// One invocation of the daemon, for the interface of its monitor.
pub struct Task {
    pub monitor: WpaEventMonitor<AutoApHandler>,
    pub phase: Phase,
}

/// Why an invocation cannot begin.
#[derive(Debug, Clone, PartialEq, Eq)]
pub enum RunError {
    /// Nothing follows the program's name.
    InsufficientArguments,
    /// `start` is not followed by a device.
    MissingDevice,
    /// The arguments are neither a command nor a notification.
    Event(EventError),
}

impl Phase {
    /// What a task at this phase asks for.
    pub open spec fn pending(self) -> Request {
        match self {
            Phase::Enabling { at, .. } => at.pending(),
            Phase::Serving { .. } => Request::LaunchConfigServer,
            Phase::Waiting(wait) => wait.pending(),
            Phase::Verifying => Request::Status,
            Phase::Addressing { .. } => Request::Addresses,
            Phase::ToClient(at) => at.pending(),
            Phase::Unlocking => Request::Create(Sentinel::Unlock),
            Phase::ProbingClient => Request::Exists(Probe::ActiveDescriptor),
            Phase::ToAp(at) => at.pending(),
            Phase::Resetting(at) => at.pending(),
            Phase::Starting(at) => at.pending(),
            Phase::Watching(at) => at.pending(),
            Phase::Finished(outcome) => Request::Finish(outcome),
        }
    }

    /// The phase that follows this one on `reply`.
    ///
    /// Each line of the table of notifications is one chain of phases:
    /// - the access point came up: switch to access point mode, bring up the
    ///   page for the operator, wait;
    /// - a connection was reported: read the status and the addresses, and
    ///   switch to client mode only if both show a client that has joined;
    /// - a station joined: signal a wait in progress to stop, whether or not
    ///   the signal can be set;
    /// - a station left: wait;
    /// - the network was lost: switch to access point mode if the interface
    ///   is a client.
    /// A procedure that fails ends the task with its failure.
    pub open spec fn after(self, reply: Reply) -> Phase {
        match self {
            Phase::Enabling { at, wait } => match at.after(reply) {
                Flow::Next(next) => Phase::Enabling { at: next, wait },
                Flow::Done(_) => Phase::Serving { wait },
                Flow::Failed(failure) => Phase::Finished(Outcome::Failed(failure)),
            },
            Phase::Serving { wait } => Phase::Waiting(Wait::start(wait)),
            Phase::Waiting(wait) => match wait.after(reply) {
                Flow::Next(next) => Phase::Waiting(next),
                Flow::Done(end) => Phase::Finished(Outcome::Waited(end)),
                Flow::Failed(failure) => Phase::Finished(Outcome::Failed(failure)),
            },
            Phase::Verifying => match reply {
                Reply::Exit { success, stdout } => if success {
                    Phase::Addressing { client: status_shows_client(stdout@) }
                } else {
                    Phase::Finished(Outcome::NotJoined)
                },
                _ => Phase::Finished(Outcome::Failed(Failure::StatusFailed)),
            },
            Phase::Addressing { client } => if client && Phase::shows_address(reply) {
                Phase::ToClient(ClientSwitch::Probe)
            } else {
                Phase::Finished(Outcome::NotJoined)
            },
            Phase::ToClient(at) => match at.after(reply) {
                Flow::Next(next) => Phase::ToClient(next),
                Flow::Done(_) => Phase::Finished(Outcome::Client),
                Flow::Failed(failure) => Phase::Finished(Outcome::Failed(failure)),
            },
            Phase::Unlocking => Phase::Finished(Outcome::Unlocked),
            Phase::ProbingClient => if reply.found() {
                Phase::ToAp(ApSwitch::Probe)
            } else {
                Phase::Finished(Outcome::Idle)
            },
            Phase::ToAp(at) => match at.after(reply) {
                Flow::Next(next) => Phase::ToAp(next),
                Flow::Done(_) => Phase::Finished(Outcome::AccessPoint),
                Flow::Failed(failure) => Phase::Finished(Outcome::Failed(failure)),
            },
            Phase::Resetting(at) => match at.after(reply) {
                Flow::Next(next) => Phase::Resetting(next),
                Flow::Done(_) => Phase::Finished(Outcome::Reset),
                Flow::Failed(failure) => Phase::Finished(Outcome::Failed(failure)),
            },
            Phase::Starting(at) => match at.after(reply) {
                Flow::Next(next) => Phase::Starting(next),
                Flow::Done(_) => Phase::Watching(Watch::Socket(SocketWait::Probe)),
                Flow::Failed(failure) => Phase::Finished(Outcome::Failed(failure)),
            },
            Phase::Watching(at) => match at.after(reply) {
                Flow::Next(next) => Phase::Watching(next),
                Flow::Done(_) => Phase::Finished(Outcome::MonitorStopped),
                Flow::Failed(failure) => Phase::Finished(Outcome::Failed(failure)),
            },
            Phase::Finished(outcome) => Phase::Finished(outcome),
        }
    }

    /// The reply to the question for the addresses of the interface shows one
    /// that can be routed. A command that failed shows none.
    pub open spec fn shows_address(reply: Reply) -> bool {
        match reply {
            Reply::Exit { success, stdout } => success && has_routable_address(stdout@),
            _ => false,
        }
    }

    /// The first phase of the task that a notification of `state` begins.
    pub open spec fn first(config: AutoApConfig, state: WpaState) -> Phase {
        match state {
            WpaState::ApEnabled => Phase::Enabling { at: ApSwitch::Probe, wait: config.enable_wait },
            WpaState::ApDisabled => Phase::Finished(Outcome::Idle),
            WpaState::Connected => Phase::Verifying,
            WpaState::ApStaConnected => Phase::Unlocking,
            WpaState::ApStaDisconnected => Phase::Waiting(Wait::start(config.disconnect_wait)),
            WpaState::Disconnected => Phase::ProbingClient,
        }
    }
}

impl WpaEventHandler for AutoApHandler {
    type Reaction = Phase;

    open spec fn reaction(&self, event: WpaEventView) -> Phase {
        Phase::first(self.config, event.state)
    }

    /// The first phase of what follows from `event`.
    fn handle_event(&self, event: WpaEvent) -> (r: Phase) {
        match event.state {
            WpaState::ApEnabled => Phase::Enabling {
                at: ApSwitch::Probe,
                wait: self.config.enable_wait,
            },
            WpaState::ApDisabled => Phase::Finished(Outcome::Idle),
            WpaState::Connected => Phase::Verifying,
            WpaState::ApStaConnected => Phase::Unlocking,
            WpaState::ApStaDisconnected => Phase::Waiting(Wait::new(self.config.disconnect_wait)),
            WpaState::Disconnected => Phase::ProbingClient,
        }
    }
}

impl AutoApHandler {
    /// Whether the interface is a client, by the reply to the question
    /// whether the descriptor lies at its active path.
    pub fn is_client(reply: &Reply) -> (r: bool)
        ensures
            r == reply.found(),
    {
        reply.is_found()
    }
}

impl Phase {
    /// What a task at this phase asks for.
    pub fn request(&self) -> (r: Request)
        ensures
            r == self.pending(),
    {
        match self {
            Phase::Enabling { at, .. } => at.request(),
            Phase::Serving { .. } => Request::LaunchConfigServer,
            Phase::Waiting(wait) => wait.request(),
            Phase::Verifying => Request::Status,
            Phase::Addressing { .. } => Request::Addresses,
            Phase::ToClient(at) => at.request(),
            Phase::Unlocking => Request::Create(Sentinel::Unlock),
            Phase::ProbingClient => Request::Exists(Probe::ActiveDescriptor),
            Phase::ToAp(at) => at.request(),
            Phase::Resetting(at) => at.request(),
            Phase::Starting(at) => at.request(),
            Phase::Watching(at) => at.request(),
            Phase::Finished(outcome) => Request::Finish(*outcome),
        }
    }
}

impl Task {
    /// What the task asks for next; `Finish` when it is over.
    pub fn request(&self) -> (r: Request)
        ensures
            r == self.phase.pending(),
    {
        self.phase.request()
    }

    /// What the task came to, once it is over.
    pub fn outcome(&self) -> (r: Option<Outcome>)
        ensures
            r == match self.phase {
                Phase::Finished(outcome) => Some(outcome),
                _ => None,
            },
    {
        match self.phase {
            Phase::Finished(outcome) => Some(outcome),
            _ => None,
        }
    }

    /// The interface that the task is about.
    pub fn interface(&self) -> (r: &str)
        ensures
            r@ == self.monitor.interface@,
    {
        self.monitor.interface.as_str()
    }

    /// Takes the reply to what the task asked for and moves the task to its
    /// next phase.
    pub fn resume(&mut self, reply: &Reply)
        ensures
            final(self).phase == old(self).phase.after(*reply),
            final(self).monitor == old(self).monitor,
    {
        let next = match self.phase {
            Phase::Enabling { at, wait } => match AutoApHandler::configure_ap(at, reply) {
                Flow::Next(next) => Phase::Enabling { at: next, wait },
                Flow::Done(_) => Phase::Serving { wait },
                Flow::Failed(failure) => Phase::Finished(Outcome::Failed(failure)),
            },
            Phase::Serving { wait } => Phase::Waiting(Wait::new(wait)),
            Phase::Waiting(wait) => match AutoApHandler::reconfigure_wpa_supplicant_static(
                wait,
                reply,
            ) {
                Flow::Next(next) => Phase::Waiting(next),
                Flow::Done(end) => Phase::Finished(Outcome::Waited(end)),
                Flow::Failed(failure) => Phase::Finished(Outcome::Failed(failure)),
            },
            Phase::Verifying => match reply {
                Reply::Exit { success, stdout } => if *success {
                    Phase::Addressing { client: AutoApHandler::check_status(stdout.as_str()) }
                } else {
                    Phase::Finished(Outcome::NotJoined)
                },
                _ => Phase::Finished(Outcome::Failed(Failure::StatusFailed)),
            },
            Phase::Addressing { client } => {
                let has_ip_address = match reply {
                    Reply::Exit { success, stdout } => *success
                        && AutoApHandler::check_device_has_ip(stdout.as_str()),
                    _ => false,
                };
                if client && has_ip_address {
                    Phase::ToClient(ClientSwitch::Probe)
                } else {
                    Phase::Finished(Outcome::NotJoined)
                }
            },
            Phase::ToClient(at) => match AutoApHandler::configure_client(at, reply) {
                Flow::Next(next) => Phase::ToClient(next),
                Flow::Done(_) => Phase::Finished(Outcome::Client),
                Flow::Failed(failure) => Phase::Finished(Outcome::Failed(failure)),
            },
            Phase::Unlocking => Phase::Finished(Outcome::Unlocked),
            Phase::ProbingClient => if AutoApHandler::is_client(reply) {
                Phase::ToAp(ApSwitch::Probe)
            } else {
                Phase::Finished(Outcome::Idle)
            },
            Phase::ToAp(at) => match AutoApHandler::configure_ap(at, reply) {
                Flow::Next(next) => Phase::ToAp(next),
                Flow::Done(_) => Phase::Finished(Outcome::AccessPoint),
                Flow::Failed(failure) => Phase::Finished(Outcome::Failed(failure)),
            },
            Phase::Resetting(at) => match self.monitor.reset(at, reply) {
                Flow::Next(next) => Phase::Resetting(next),
                Flow::Done(_) => Phase::Finished(Outcome::Reset),
                Flow::Failed(failure) => Phase::Finished(Outcome::Failed(failure)),
            },
            Phase::Starting(at) => match self.monitor.reset(at, reply) {
                Flow::Next(next) => Phase::Starting(next),
                Flow::Done(_) => Phase::Watching(Watch::Socket(SocketWait::Probe)),
                Flow::Failed(failure) => Phase::Finished(Outcome::Failed(failure)),
            },
            Phase::Watching(at) => match self.monitor.start(at, reply) {
                Flow::Next(next) => Phase::Watching(next),
                Flow::Done(_) => Phase::Finished(Outcome::MonitorStopped),
                Flow::Failed(failure) => Phase::Finished(Outcome::Failed(failure)),
            },
            Phase::Finished(outcome) => Phase::Finished(outcome),
        };
        self.phase = next;
    }
}

impl AutoAp {
    /// Where an invocation with these arguments begins: the interface it
    /// is about and its first phase, if the arguments ask for anything.
    ///
    /// `reset` and `start` are commands, and `start` names its device.
    /// Anything else must read as a notification, whose first word is the
    /// interface.
    pub open spec fn plan(self, args: Seq<Seq<char>>) -> Option<(Seq<char>, Phase)> {
        if args.len() < 2 {
            None
        } else if args[1] == "reset"@ {
            Some(("wlan0"@, Phase::Resetting(Reset::ProbeLocked)))
        } else if args[1] == "start"@ {
            if args.len() < 3 {
                None
            } else {
                Some((args[2], Phase::Starting(Reset::ProbeLocked)))
            }
        } else {
            match WpaEventView::of_args(args) {
                Some(event) => Some((event.interface, Phase::first(self.config, event.state))),
                None => None,
            }
        }
    }

    /// The arguments look like a call by the control client of the
    /// supplicant: a command, or a wireless interface with something after
    /// it.
    pub open spec fn from_supplicant(args: Seq<Seq<char>>) -> bool {
        args.len() >= 2 && (args[1] == "reset"@ || args[1] == "start"@ || ("wlan"@.is_prefix_of(
            args[1],
        ) && args.len() >= 3))
    }

    /// Whether the arguments look like a call by the control client of the
    /// supplicant and are to be read as one.
    pub fn called_by_wpa_cli(args: &Vec<String>) -> (r: bool)
        ensures
            r == AutoAp::from_supplicant(texts(args@)),
    {
        if args.len() < 2 {
            return false;
        }
        let second = chars_of(args[1].as_str());
        let wlan = chars_of("wlan");
        equals_str(second.as_slice(), "reset") || equals_str(second.as_slice(), "start") || (
        starts_with(second.as_slice(), wlan.as_slice()) && args.len() >= 3)
    }

    /// The daemon with the settings of its file, or with the defaults when
    /// there is no file.
    pub fn new(content: Option<&str>) -> (r: Result<Self, ConfigError>)
        ensures
            match r {
                Ok(daemon) => Ok::<AutoApConfig, ConfigError>(daemon.config) == match content {
                    Some(text) => AutoApConfig::parsed(text@),
                    None => Ok(AutoApConfig::defaults()),
                },
                Err(e) => content matches Some(text) && AutoApConfig::parsed(text@) == Err::<
                    AutoApConfig,
                    ConfigError,
                >(e),
            },
    {
        match AutoApConfig::load(content) {
            Ok(config) => Ok(Self { config }),
            Err(e) => Err(e),
        }
    }

    /// The task of an invocation with these arguments.
    pub fn run(&self, args: Vec<String>) -> (r: Result<Task, RunError>)
        ensures
            match r {
                Ok(task) => self.plan(texts(args@)) == Some((task.monitor.interface@, task.phase))
                    && task.monitor.handler.config == self.config,
                Err(RunError::InsufficientArguments) => args.len() < 2,
                Err(RunError::MissingDevice) => args.len() == 2 && args[1]@ == "start"@,
                Err(RunError::Event(EventError::InsufficientArguments)) => args.len() == 2
                    && self.plan(texts(args@)) is None && args[1]@ != "start"@,
                Err(RunError::Event(EventError::UnrecognizedState(given))) => args.len() >= 3
                    && self.plan(texts(args@)) is None && given@ == args[2]@,
            },
    {
        if args.len() < 2 {
            return Err(RunError::InsufficientArguments);
        }
        if same_text(args[1].as_str(), "reset") {
            return Ok(self.reset());
        }
        if same_text(args[1].as_str(), "start") {
            if args.len() < 3 {
                return Err(RunError::MissingDevice);
            }
            return Ok(self.start(args[2].as_str()));
        }
        let handler = AutoApHandler { config: self.config };
        let monitor = match WpaEventMonitor::new(args[1].as_str(), handler) {
            Ok(monitor) => monitor,
            Err(e) => {
                return Err(RunError::Event(e));
            },
        };
        let phase = match monitor.process_event(args) {
            Ok(Dispatch::Handled(phase)) => phase,
            Ok(Dispatch::Reset(at)) => Phase::Resetting(at),
            Ok(Dispatch::Start(at)) => Phase::Watching(at),
            Ok(Dispatch::Ignored) => Phase::Finished(Outcome::Idle),
            Err(e) => {
                return Err(RunError::Event(e));
            },
        };
        Ok(Task { monitor, phase })
    }

    /// The task that returns the device to a known state: no sentinel, and
    /// the descriptor at its active path.
    pub fn reset(&self) -> (r: Task)
        ensures
            r.monitor.interface@ == "wlan0"@,
            r.monitor.handler.config == self.config,
            r.phase == Phase::Resetting(Reset::ProbeLocked),
    {
        Task {
            monitor: WpaEventMonitor {
                interface: "wlan0".to_owned(),
                handler: AutoApHandler { config: self.config },
            },
            phase: Phase::Resetting(Reset::ProbeLocked),
        }
    }

    /// The task that returns the device to a known state and then runs the
    /// control client for `device`.
    pub fn start(&self, device: &str) -> (r: Task)
        ensures
            r.monitor.interface@ == device@,
            r.monitor.handler.config == self.config,
            r.phase == Phase::Starting(Reset::ProbeLocked),
    {
        Task {
            monitor: WpaEventMonitor {
                interface: device.to_owned(),
                handler: AutoApHandler { config: self.config },
            },
            phase: Phase::Starting(Reset::ProbeLocked),
        }
    }
}

} // verus!
