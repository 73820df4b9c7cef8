//! What the daemon asks of the machine it runs on, and what comes back.
//!
//! Nothing in this crate touches a file or starts a process. A procedure
//! names the one thing it needs next as a [`Request`]; whoever drives it does
//! that thing and hands the [`Reply`] back.

use crate::text::{push_str, string_of};
use vstd::prelude::*;

verus! {

/// The two files by which invocations of the daemon coordinate a wait.
#[derive(Debug, Clone, Copy, PartialEq, Eq, Structural)]
pub enum Sentinel {
    /// A wait for reconfiguration is in progress.
    Locked,
    /// The wait in progress is to stop; whoever waits consumes the file.
    Unlock,
}

/// A file whose existence the daemon asks about.
#[derive(Debug, Clone, Copy, PartialEq, Eq, Structural)]
pub enum Probe {
    /// The client network descriptor at its active path: client mode.
    ActiveDescriptor,
    /// The client network descriptor at its backup path: access point mode.
    BackupDescriptor,
    /// One of the two sentinels.
    Sentinel(Sentinel),
    /// The control socket of the supplicant for the interface.
    ControlSocket,
}

/// Why an invocation gave up.
#[derive(Debug, Clone, Copy, PartialEq, Eq, Structural)]
pub enum Failure {
    /// The descriptor could not be moved to its backup path.
    BackupFailed,
    /// The descriptor could not be moved back to its active path.
    RestoreFailed,
    /// The state of the network service could not be asked for.
    ServiceQueryFailed,
    /// The network service could not be started.
    ServiceStartFailed,
    /// The network service could not be restarted.
    ServiceRestartFailed,
    /// The sentinel that marks a wait could not be created.
    LockFailed,
    /// The sentinel that stops a wait could not be created.
    UnlockFailed,
    /// A sentinel that was in the way could not be removed.
    RemoveFailed(Sentinel),
    /// The status of the supplicant could not be asked for.
    StatusFailed,
    /// The control client could not be started.
    MonitorFailed,
    /// The control client ended with an error.
    MonitorExited,
}

/// How a wait for reconfiguration ended.
#[derive(Debug, Clone, Copy, PartialEq, Eq, Structural)]
pub enum WaitEnd {
    /// Another wait was in progress; it was told to stop and this one never
    /// began.
    Superseded,
    /// The wait was told to stop before its time was over.
    Cancelled,
    /// The time passed. `reconfigured` says whether the supplicant was then
    /// told to reconfigure, which it is when no station is attached.
    Expired { reconfigured: bool },
}

/// What an invocation came to.
#[derive(Debug, Clone, Copy, PartialEq, Eq, Structural)]
pub enum Outcome {
    /// There was nothing to do.
    Idle,
    /// The interface is set up as an access point.
    AccessPoint,
    /// The interface is set up as a client.
    Client,
    /// The supplicant reported a connection that is none to a client network.
    NotJoined,
    /// A station joined, and the wait in progress was told to stop.
    Unlocked,
    /// A wait for reconfiguration ended.
    Waited(WaitEnd),
    /// The sentinels are gone and the descriptor is at its active path.
    Reset,
    /// The control client ran and ended without error.
    MonitorStopped,
    /// The invocation gave up.
    Failed(Failure),
}

/// The one thing a procedure needs done next.
#[derive(Debug, Clone, Copy, PartialEq, Eq, Structural)]
pub enum Request {
    /// Say whether the file exists.
    Exists(Probe),
    /// Rename the descriptor from its active path to its backup path.
    MoveToBackup,
    /// Rename the descriptor from its backup path to its active path.
    MoveToActive,
    /// Create the sentinel, empty.
    Create(Sentinel),
    /// Remove the sentinel.
    Remove(Sentinel),
    /// Ask the service manager whether the network service is active.
    ServiceState,
    /// Have the service manager start the network service.
    ServiceStart,
    /// Have the service manager restart the network service.
    ServiceRestart,
    /// Ask the supplicant for its status on the interface.
    Status,
    /// List the addresses bound to the interface.
    Addresses,
    /// Ask the supplicant for the stations attached to the access point.
    Stations,
    /// Tell the supplicant to read its configuration again.
    Reconfigure,
    /// Let this many milliseconds pass.
    Pause(u64),
    /// Bring up the page on which an operator enters a network.
    LaunchConfigServer,
    /// Run the control client with this program as its action, until it ends.
    Monitor,
    /// Nothing more: the procedure is over.
    Finish(Outcome),
}

/// What came of a request.
#[derive(Debug, Clone, PartialEq, Eq)]
pub enum Reply {
    /// The file exists, or does not.
    Exists(bool),
    /// The operation was carried out.
    Done,
    /// The operation could not be carried out.
    Failed,
    /// A command ran to its end: whether it reported success, and what it
    /// wrote to its standard output.
    Exit { success: bool, stdout: String },
}

/// Where a procedure stands after a reply: at a next step of its own, at its
/// end with a result, or at its end with a failure.
pub enum Flow<P, T> {
    Next(P),
    Done(T),
    Failed(Failure),
}

impl Reply {
    /// The reply says that what was asked for has been done.
    pub open spec fn succeeded(self) -> bool {
        match self {
            Reply::Done => true,
            Reply::Exit { success, .. } => success,
            _ => false,
        }
    }

    /// The reply says that the file exists.
    pub open spec fn found(self) -> bool {
        self == Reply::Exists(true)
    }

    /// Whether the reply says that what was asked for has been done.
    pub fn is_success(&self) -> (r: bool)
        ensures
            r == self.succeeded(),
    {
        match self {
            Reply::Done => true,
            Reply::Exit { success, .. } => *success,
            _ => false,
        }
    }

    /// Whether the reply says that the file exists.
    pub fn is_found(&self) -> (r: bool)
        ensures
            r == self.found(),
    {
        match self {
            Reply::Exists(present) => *present,
            _ => false,
        }
    }
}

/// Where the client descriptor of `interface` lies in client mode.
pub open spec fn active_location(interface: Seq<char>) -> Seq<char> {
    "/etc/systemd/network/11-"@ + interface + ".network"@
}

/// Where the client descriptor of `interface` lies in access point mode.
pub open spec fn backup_location(interface: Seq<char>) -> Seq<char> {
    active_location(interface) + "~"@
}

impl Sentinel {
    /// Where the sentinel lies.
    pub open spec fn location(self) -> Seq<char> {
        match self {
            Sentinel::Locked => "/var/run/autoAP.locked"@,
            Sentinel::Unlock => "/var/run/autoAP.unlock"@,
        }
    }

    /// Where the sentinel lies.
    pub fn path(&self) -> (r: &'static str)
        ensures
            r@ == self.location(),
    {
        match self {
            Sentinel::Locked => "/var/run/autoAP.locked",
            Sentinel::Unlock => "/var/run/autoAP.unlock",
        }
    }
}

impl Probe {
    /// Where the file lies that is asked about, for `interface`.
    pub open spec fn location(self, interface: Seq<char>) -> Seq<char> {
        match self {
            Probe::ActiveDescriptor => active_location(interface),
            Probe::BackupDescriptor => backup_location(interface),
            Probe::Sentinel(sentinel) => sentinel.location(),
            Probe::ControlSocket => "/var/run/wpa_supplicant/"@ + interface,
        }
    }

    /// Where the file lies that is asked about, for `interface`.
    pub fn path(&self, interface: &str) -> (r: String)
        ensures
            r@ == self.location(interface@),
    {
        let mut out: Vec<char> = Vec::new();
        match self {
            Probe::ActiveDescriptor => {
                push_str(&mut out, "/etc/systemd/network/11-");
                push_str(&mut out, interface);
                push_str(&mut out, ".network");
            },
            Probe::BackupDescriptor => {
                push_str(&mut out, "/etc/systemd/network/11-");
                push_str(&mut out, interface);
                push_str(&mut out, ".network");
                push_str(&mut out, "~");
            },
            Probe::Sentinel(sentinel) => {
                push_str(&mut out, sentinel.path());
            },
            Probe::ControlSocket => {
                push_str(&mut out, "/var/run/wpa_supplicant/");
                push_str(&mut out, interface);
            },
        }
        assert(out@ =~= self.location(interface@));
        string_of(out.as_slice())
    }
}

impl Request {
    /// The command that carries out the request for `interface`: the
    /// program and its arguments. `action` is the program that the control
    /// client is to call on every notification. A request that is no
    /// command has none.
    pub open spec fn command_line(self, interface: Seq<char>, action: Seq<char>) -> Option<
        Seq<Seq<char>>,
    > {
        match self {
            Request::ServiceState => Some(
                seq!["systemctl"@, "is-active"@, "systemd-networkd"@],
            ),
            Request::ServiceStart => Some(seq!["systemctl"@, "start"@, "systemd-networkd"@]),
            Request::ServiceRestart => Some(seq!["systemctl"@, "restart"@, "systemd-networkd"@]),
            Request::Status => Some(seq!["/sbin/wpa_cli"@, "-i"@, interface, "status"@]),
            Request::Addresses => Some(seq!["ip"@, "addr"@, "show"@, interface]),
            Request::Stations => Some(seq!["wpa_cli"@, "-i"@, interface, "all_sta"@]),
            Request::Reconfigure => Some(seq!["/sbin/wpa_cli"@, "-i"@, interface, "reconfigure"@]),
            Request::Monitor => Some(seq!["/sbin/wpa_cli"@, "-i"@, interface, "-a"@, action]),
            _ => None,
        }
    }

    /// The command that carries out the request, if it is a command.
    pub fn command(&self, interface: &str, action: &str) -> (r: Option<Vec<String>>)
        ensures
            match r {
                Some(words) => self.command_line(interface@, action@) == Some(
                    crate::text::texts(words@),
                ),
                None => self.command_line(interface@, action@) is None,
            },
    {
        let mut out: Vec<String> = Vec::new();
        match self {
            Request::ServiceState => {
                out.push("systemctl".to_owned());
                out.push("is-active".to_owned());
                out.push("systemd-networkd".to_owned());
            },
            Request::ServiceStart => {
                out.push("systemctl".to_owned());
                out.push("start".to_owned());
                out.push("systemd-networkd".to_owned());
            },
            Request::ServiceRestart => {
                out.push("systemctl".to_owned());
                out.push("restart".to_owned());
                out.push("systemd-networkd".to_owned());
            },
            Request::Status => {
                out.push("/sbin/wpa_cli".to_owned());
                out.push("-i".to_owned());
                out.push(interface.to_owned());
                out.push("status".to_owned());
            },
            Request::Addresses => {
                out.push("ip".to_owned());
                out.push("addr".to_owned());
                out.push("show".to_owned());
                out.push(interface.to_owned());
            },
            Request::Stations => {
                out.push("wpa_cli".to_owned());
                out.push("-i".to_owned());
                out.push(interface.to_owned());
                out.push("all_sta".to_owned());
            },
            Request::Reconfigure => {
                out.push("/sbin/wpa_cli".to_owned());
                out.push("-i".to_owned());
                out.push(interface.to_owned());
                out.push("reconfigure".to_owned());
            },
            Request::Monitor => {
                out.push("/sbin/wpa_cli".to_owned());
                out.push("-i".to_owned());
                out.push(interface.to_owned());
                out.push("-a".to_owned());
                out.push(action.to_owned());
            },
            _ => {
                return None;
            },
        }
        assert(self.command_line(interface@, action@) matches Some(line) && line
            =~= crate::text::texts(out@));
        Some(out)
    }
}

} // verus!
