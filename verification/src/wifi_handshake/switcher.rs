//! Switching the interface between its two modes.
//!
//! The mode is where the client network descriptor lies: at its active path
//! the interface is a client, at its backup path an access point. A switch
//! renames the descriptor and restarts the network service. The restart is
//! asked for on every switch, also when the descriptor already lay where it
//! belongs, so that a service left stale by an interrupted switch catches up.

use crate::system::{Failure, Flow, Probe, Reply, Request};
use crate::wifi_handshake::runtime::AutoApHandler;
use crate::wifi_handshake::utils::{is_systemd_networkd_active, service_state};
use vstd::prelude::*;

verus! {

/// Restarting the network service: what the procedure waits for.
#[derive(Debug, Clone, Copy, PartialEq, Eq, Structural)]
pub enum Restart {
    /// Whether the service is active.
    Query,
    /// The start of a service that was not active.
    Start,
    /// The pause that lets a started service settle.
    Settle,
    /// The restart.
    Restart,
}

/// Switching to access point mode: what the procedure waits for.
#[derive(Debug, Clone, Copy, PartialEq, Eq, Structural)]
pub enum ApSwitch {
    /// Whether the descriptor lies at its active path.
    Probe,
    /// The renaming of the descriptor to its backup path.
    Move,
    /// The restart of the network service; `moved` says whether the
    /// descriptor was renamed before.
    Restart { moved: bool, at: Restart },
    /// The reconfiguration of the supplicant.
    Reconfigure,
}

/// Switching to client mode: what the procedure waits for.
#[derive(Debug, Clone, Copy, PartialEq, Eq, Structural)]
pub enum ClientSwitch {
    /// Whether the descriptor lies at its backup path.
    Probe,
    /// The renaming of the descriptor to its active path.
    Move,
    /// The restart of the network service.
    Restart(Restart),
}

impl Restart {
    /// What is asked for at this step.
    pub open spec fn pending(self) -> Request {
        match self {
            Restart::Query => Request::ServiceState,
            Restart::Start => Request::ServiceStart,
            Restart::Settle => Request::Pause(500),
            Restart::Restart => Request::ServiceRestart,
        }
    }

    /// Where the procedure stands after `reply`. A service that is not
    /// active is started and given half a second before the restart; any
    /// command that fails ends the procedure.
    pub open spec fn after(self, reply: Reply) -> Flow<Restart, ()> {
        match self {
            Restart::Query => match service_state(reply) {
                Ok(true) => Flow::Next(Restart::Restart),
                Ok(false) => Flow::Next(Restart::Start),
                Err(failure) => Flow::Failed(failure),
            },
            Restart::Start => if reply.succeeded() {
                Flow::Next(Restart::Settle)
            } else {
                Flow::Failed(Failure::ServiceStartFailed)
            },
            Restart::Settle => Flow::Next(Restart::Restart),
            Restart::Restart => if reply.succeeded() {
                Flow::Done(())
            } else {
                Flow::Failed(Failure::ServiceRestartFailed)
            },
        }
    }

    /// What is asked for at this step.
    pub fn request(&self) -> (r: Request)
        ensures
            r == self.pending(),
    {
        match self {
            Restart::Query => Request::ServiceState,
            Restart::Start => Request::ServiceStart,
            Restart::Settle => Request::Pause(500),
            Restart::Restart => Request::ServiceRestart,
        }
    }
}

impl ApSwitch {
    /// What is asked for at this step.
    pub open spec fn pending(self) -> Request {
        match self {
            ApSwitch::Probe => Request::Exists(Probe::ActiveDescriptor),
            ApSwitch::Move => Request::MoveToBackup,
            ApSwitch::Restart { at, .. } => at.pending(),
            ApSwitch::Reconfigure => Request::Reconfigure,
        }
    }

    /// Where the procedure stands after `reply`. A descriptor at its active
    /// path is moved away, and a failure to move it ends the procedure. The
    /// service is restarted either way. After a move the supplicant is told
    /// to reconfigure, and whether it does is not waited for.
    pub open spec fn after(self, reply: Reply) -> Flow<ApSwitch, ()> {
        match self {
            ApSwitch::Probe => if reply.found() {
                Flow::Next(ApSwitch::Move)
            } else {
                Flow::Next(ApSwitch::Restart { moved: false, at: Restart::Query })
            },
            ApSwitch::Move => if reply.succeeded() {
                Flow::Next(ApSwitch::Restart { moved: true, at: Restart::Query })
            } else {
                Flow::Failed(Failure::BackupFailed)
            },
            ApSwitch::Restart { moved, at } => match at.after(reply) {
                Flow::Next(next) => Flow::Next(ApSwitch::Restart { moved, at: next }),
                Flow::Done(_) => if moved {
                    Flow::Next(ApSwitch::Reconfigure)
                } else {
                    Flow::Done(())
                },
                Flow::Failed(failure) => Flow::Failed(failure),
            },
            ApSwitch::Reconfigure => Flow::Done(()),
        }
    }

    /// What is asked for at this step.
    pub fn request(&self) -> (r: Request)
        ensures
            r == self.pending(),
    {
        match self {
            ApSwitch::Probe => Request::Exists(Probe::ActiveDescriptor),
            ApSwitch::Move => Request::MoveToBackup,
            ApSwitch::Restart { at, .. } => at.request(),
            ApSwitch::Reconfigure => Request::Reconfigure,
        }
    }
}

impl ClientSwitch {
    /// What is asked for at this step.
    pub open spec fn pending(self) -> Request {
        match self {
            ClientSwitch::Probe => Request::Exists(Probe::BackupDescriptor),
            ClientSwitch::Move => Request::MoveToActive,
            ClientSwitch::Restart(at) => at.pending(),
        }
    }

    /// Where the procedure stands after `reply`. A descriptor at its backup
    /// path is moved back, and a failure to move it ends the procedure. The
    /// service is restarted either way.
    pub open spec fn after(self, reply: Reply) -> Flow<ClientSwitch, ()> {
        match self {
            ClientSwitch::Probe => if reply.found() {
                Flow::Next(ClientSwitch::Move)
            } else {
                Flow::Next(ClientSwitch::Restart(Restart::Query))
            },
            ClientSwitch::Move => if reply.succeeded() {
                Flow::Next(ClientSwitch::Restart(Restart::Query))
            } else {
                Flow::Failed(Failure::RestoreFailed)
            },
            ClientSwitch::Restart(at) => match at.after(reply) {
                Flow::Next(next) => Flow::Next(ClientSwitch::Restart(next)),
                Flow::Done(_) => Flow::Done(()),
                Flow::Failed(failure) => Flow::Failed(failure),
            },
        }
    }

    /// What is asked for at this step.
    pub fn request(&self) -> (r: Request)
        ensures
            r == self.pending(),
    {
        match self {
            ClientSwitch::Probe => Request::Exists(Probe::BackupDescriptor),
            ClientSwitch::Move => Request::MoveToActive,
            ClientSwitch::Restart(at) => at.request(),
        }
    }
}

impl AutoApHandler {
    /// One step of restarting the network service: where the procedure
    /// stands after `reply` to what it asked for at `at`.
    pub fn restart_systemd_networkd(at: Restart, reply: &Reply) -> (r: Flow<Restart, ()>)
        ensures
            r == at.after(*reply),
    {
        match at {
            Restart::Query => match is_systemd_networkd_active(reply) {
                Ok(true) => Flow::Next(Restart::Restart),
                Ok(false) => Flow::Next(Restart::Start),
                Err(failure) => Flow::Failed(failure),
            },
            Restart::Start => if reply.is_success() {
                Flow::Next(Restart::Settle)
            } else {
                Flow::Failed(Failure::ServiceStartFailed)
            },
            Restart::Settle => Flow::Next(Restart::Restart),
            Restart::Restart => if reply.is_success() {
                Flow::Done(())
            } else {
                Flow::Failed(Failure::ServiceRestartFailed)
            },
        }
    }

    /// One step of switching to access point mode: where the procedure
    /// stands after `reply` to what it asked for at `at`.
    pub fn configure_ap(at: ApSwitch, reply: &Reply) -> (r: Flow<ApSwitch, ()>)
        ensures
            r == at.after(*reply),
    {
        match at {
            ApSwitch::Probe => if reply.is_found() {
                Flow::Next(ApSwitch::Move)
            } else {
                Flow::Next(ApSwitch::Restart { moved: false, at: Restart::Query })
            },
            ApSwitch::Move => if reply.is_success() {
                Flow::Next(ApSwitch::Restart { moved: true, at: Restart::Query })
            } else {
                Flow::Failed(Failure::BackupFailed)
            },
            ApSwitch::Restart { moved, at } => match Self::restart_systemd_networkd(at, reply) {
                Flow::Next(next) => Flow::Next(ApSwitch::Restart { moved, at: next }),
                Flow::Done(_) => if moved {
                    Flow::Next(ApSwitch::Reconfigure)
                } else {
                    Flow::Done(())
                },
                Flow::Failed(failure) => Flow::Failed(failure),
            },
            ApSwitch::Reconfigure => Flow::Done(()),
        }
    }

    /// One step of switching to client mode: where the procedure stands
    /// after `reply` to what it asked for at `at`.
    pub fn configure_client(at: ClientSwitch, reply: &Reply) -> (r: Flow<ClientSwitch, ()>)
        ensures
            r == at.after(*reply),
    {
        match at {
            ClientSwitch::Probe => if reply.is_found() {
                Flow::Next(ClientSwitch::Move)
            } else {
                Flow::Next(ClientSwitch::Restart(Restart::Query))
            },
            ClientSwitch::Move => if reply.is_success() {
                Flow::Next(ClientSwitch::Restart(Restart::Query))
            } else {
                Flow::Failed(Failure::RestoreFailed)
            },
            ClientSwitch::Restart(at) => match Self::restart_systemd_networkd(at, reply) {
                Flow::Next(next) => Flow::Next(ClientSwitch::Restart(next)),
                Flow::Done(_) => Flow::Done(()),
                Flow::Failed(failure) => Flow::Failed(failure),
            },
        }
    }
}

} // verus!
