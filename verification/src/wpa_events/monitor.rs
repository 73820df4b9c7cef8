//! The monitor of one interface: it decodes an invocation, runs the control
//! client of the supplicant, and returns the device to a known state.

use crate::system::{Failure, Flow, Probe, Reply, Request, Sentinel};
use crate::text::{same_text, texts};
use crate::wpa_events::event::{EventError, WpaEvent, WpaEventView};
use crate::wpa_events::handler::WpaEventHandler;
use vstd::prelude::*;

verus! {

/// Returning to a known state: what the procedure waits for.
#[derive(Debug, Clone, Copy, PartialEq, Eq, Structural)]
pub enum Reset {
    /// Whether the mark of a wait is there.
    ProbeLocked,
    /// The removal of the mark.
    RemoveLocked,
    /// Whether the signal to stop a wait is there.
    ProbeUnlock,
    /// The removal of the signal.
    RemoveUnlock,
    /// Whether the descriptor lies at its backup path.
    ProbeBackup,
    /// The renaming of the descriptor to its active path.
    Restore,
}

/// Waiting for the supplicant: what the procedure waits for.
#[derive(Debug, Clone, Copy, PartialEq, Eq, Structural)]
pub enum SocketWait {
    /// Whether the control socket of the supplicant is there.
    Probe,
    /// The pause before the next look.
    Pause,
}

/// Running the control client: what the procedure waits for.
#[derive(Debug, Clone, Copy, PartialEq, Eq, Structural)]
pub enum Watch {
    /// The supplicant.
    Socket(SocketWait),
    /// The end of the control client.
    Monitor,
}

/// What an invocation asks of the monitor.
#[derive(Debug, Clone, Copy, PartialEq, Eq)]
pub enum Dispatch<R> {
    /// The command to return to a known state, and its first step.
    Reset(Reset),
    /// The command to run the control client, and its first step.
    Start(Watch),
    /// A notification for the monitor's interface, and what the handler
    /// makes of it.
    Handled(R),
    /// A notification for another interface: nothing is done with it.
    Ignored,
}

/// The monitor of one interface and the handler of its notifications.
pub struct WpaEventMonitor<H: WpaEventHandler> {
    pub interface: String,
    pub handler: H,
}

impl Reset {
    /// What is asked for at this step.
    pub open spec fn pending(self) -> Request {
        match self {
            Reset::ProbeLocked => Request::Exists(Probe::Sentinel(Sentinel::Locked)),
            Reset::RemoveLocked => Request::Remove(Sentinel::Locked),
            Reset::ProbeUnlock => Request::Exists(Probe::Sentinel(Sentinel::Unlock)),
            Reset::RemoveUnlock => Request::Remove(Sentinel::Unlock),
            Reset::ProbeBackup => Request::Exists(Probe::BackupDescriptor),
            Reset::Restore => Request::MoveToActive,
        }
    }

    /// Where the procedure stands after `reply`. Each sentinel that is there
    /// is removed, and a descriptor at its backup path is moved back. What
    /// cannot be removed or moved ends the procedure.
    pub open spec fn after(self, reply: Reply) -> Flow<Reset, ()> {
        match self {
            Reset::ProbeLocked => if reply.found() {
                Flow::Next(Reset::RemoveLocked)
            } else {
                Flow::Next(Reset::ProbeUnlock)
            },
            Reset::RemoveLocked => if reply.succeeded() {
                Flow::Next(Reset::ProbeUnlock)
            } else {
                Flow::Failed(Failure::RemoveFailed(Sentinel::Locked))
            },
            Reset::ProbeUnlock => if reply.found() {
                Flow::Next(Reset::RemoveUnlock)
            } else {
                Flow::Next(Reset::ProbeBackup)
            },
            Reset::RemoveUnlock => if reply.succeeded() {
                Flow::Next(Reset::ProbeBackup)
            } else {
                Flow::Failed(Failure::RemoveFailed(Sentinel::Unlock))
            },
            Reset::ProbeBackup => if reply.found() {
                Flow::Next(Reset::Restore)
            } else {
                Flow::Done(())
            },
            Reset::Restore => if reply.succeeded() {
                Flow::Done(())
            } else {
                Flow::Failed(Failure::RestoreFailed)
            },
        }
    }

    /// What is asked for at this step.
    pub fn request(&self) -> (r: Request)
        ensures
            r == self.pending(),
    {
        match self {
            Reset::ProbeLocked => Request::Exists(Probe::Sentinel(Sentinel::Locked)),
            Reset::RemoveLocked => Request::Remove(Sentinel::Locked),
            Reset::ProbeUnlock => Request::Exists(Probe::Sentinel(Sentinel::Unlock)),
            Reset::RemoveUnlock => Request::Remove(Sentinel::Unlock),
            Reset::ProbeBackup => Request::Exists(Probe::BackupDescriptor),
            Reset::Restore => Request::MoveToActive,
        }
    }
}

impl SocketWait {
    /// What is asked for at this step.
    pub open spec fn pending(self) -> Request {
        match self {
            SocketWait::Probe => Request::Exists(Probe::ControlSocket),
            SocketWait::Pause => Request::Pause(500),
        }
    }

    /// Where the procedure stands after `reply`: it looks for the socket
    /// every half second, for as long as it takes.
    pub open spec fn after(self, reply: Reply) -> Flow<SocketWait, ()> {
        match self {
            SocketWait::Probe => if reply.found() {
                Flow::Done(())
            } else {
                Flow::Next(SocketWait::Pause)
            },
            SocketWait::Pause => Flow::Next(SocketWait::Probe),
        }
    }

    /// What is asked for at this step.
    pub fn request(&self) -> (r: Request)
        ensures
            r == self.pending(),
    {
        match self {
            SocketWait::Probe => Request::Exists(Probe::ControlSocket),
            SocketWait::Pause => Request::Pause(500),
        }
    }
}

impl Watch {
    /// What is asked for at this step.
    pub open spec fn pending(self) -> Request {
        match self {
            Watch::Socket(at) => at.pending(),
            Watch::Monitor => Request::Monitor,
        }
    }

    /// Where the procedure stands after `reply`. Once the supplicant is
    /// there the control client runs, and its ending with an error is a
    /// failure, as is its not running at all.
    pub open spec fn after(self, reply: Reply) -> Flow<Watch, ()> {
        match self {
            Watch::Socket(at) => match at.after(reply) {
                Flow::Next(next) => Flow::Next(Watch::Socket(next)),
                Flow::Done(_) => Flow::Next(Watch::Monitor),
                Flow::Failed(failure) => Flow::Failed(failure),
            },
            Watch::Monitor => match reply {
                Reply::Done => Flow::Done(()),
                Reply::Exit { success, .. } => if success {
                    Flow::Done(())
                } else {
                    Flow::Failed(Failure::MonitorExited)
                },
                _ => Flow::Failed(Failure::MonitorFailed),
            },
        }
    }

    /// What is asked for at this step.
    pub fn request(&self) -> (r: Request)
        ensures
            r == self.pending(),
    {
        match self {
            Watch::Socket(at) => at.request(),
            Watch::Monitor => Request::Monitor,
        }
    }
}

impl<H: WpaEventHandler> WpaEventMonitor<H> {
    /// What an invocation with these arguments asks of the monitor, if its
    /// arguments can be read. The two commands come before the
    /// notifications, and `start` is the command only with a device behind
    /// it.
    pub open spec fn dispatch(&self, args: Seq<Seq<char>>) -> Option<Dispatch<H::Reaction>> {
        if args.len() >= 2 && args[1] == "reset"@ {
            Some(Dispatch::Reset(Reset::ProbeLocked))
        } else if args.len() >= 3 && args[1] == "start"@ {
            Some(Dispatch::Start(Watch::Socket(SocketWait::Probe)))
        } else {
            match WpaEventView::of_args(args) {
                None => None,
                Some(event) => if event.interface == self.interface@ {
                    Some(Dispatch::Handled(self.handler.reaction(event)))
                } else {
                    Some(Dispatch::Ignored)
                },
            }
        }
    }

    /// The monitor of `interface` with this handler.
    pub fn new(interface: &str, handler: H) -> (r: Result<Self, EventError>)
        ensures
            r matches Ok(monitor) && monitor.interface@ == interface@ && monitor.handler == handler,
    {
        Ok(Self { interface: interface.to_owned(), handler })
    }

    /// One step of running the control client: where the procedure stands
    /// after `reply` to what it asked for at `at`.
    pub fn start(&self, at: Watch, reply: &Reply) -> (r: Flow<Watch, ()>)
        ensures
            r == at.after(*reply),
    {
        match at {
            Watch::Socket(at) => match self.wait_for_wpa_supplicant(at, reply) {
                Flow::Next(next) => Flow::Next(Watch::Socket(next)),
                Flow::Done(_) => Flow::Next(Watch::Monitor),
                Flow::Failed(failure) => Flow::Failed(failure),
            },
            Watch::Monitor => match reply {
                Reply::Done => Flow::Done(()),
                Reply::Exit { success, .. } => if *success {
                    Flow::Done(())
                } else {
                    Flow::Failed(Failure::MonitorExited)
                },
                _ => Flow::Failed(Failure::MonitorFailed),
            },
        }
    }

    /// Decodes one invocation of this program as the action of the control
    /// client. A command is recognised first. Anything else must read as a
    /// notification; one for another interface is ignored, and one for this
    /// interface goes to the handler.
    pub fn process_event(&self, args: Vec<String>) -> (r: Result<Dispatch<H::Reaction>, EventError>)
        ensures
            match r {
                Ok(dispatch) => self.dispatch(texts(args@)) == Some(dispatch),
                Err(EventError::InsufficientArguments) => self.dispatch(texts(args@)) is None
                    && args.len() < 3,
                Err(EventError::UnrecognizedState(given)) => self.dispatch(texts(args@)) is None
                    && args.len() >= 3 && given@ == args[2]@,
            },
    {
        if args.len() >= 2 {
            if same_text(args[1].as_str(), "reset") {
                return Ok(Dispatch::Reset(Reset::ProbeLocked));
            }
            if args.len() >= 3 && same_text(args[1].as_str(), "start") {
                return Ok(Dispatch::Start(Watch::Socket(SocketWait::Probe)));
            }
        }
        let event = match WpaEvent::from_args(args) {
            Ok(event) => event,
            Err(e) => {
                return Err(e);
            },
        };
        if !(event.interface == self.interface) {
            return Ok(Dispatch::Ignored);
        }
        Ok(Dispatch::Handled(self.handler.handle_event(event)))
    }

    /// One step of waiting for the supplicant: where the procedure stands
    /// after `reply` to what it asked for at `at`.
    pub fn wait_for_wpa_supplicant(&self, at: SocketWait, reply: &Reply) -> (r: Flow<SocketWait, ()>)
        ensures
            r == at.after(*reply),
    {
        match at {
            SocketWait::Probe => if reply.is_found() {
                Flow::Done(())
            } else {
                Flow::Next(SocketWait::Pause)
            },
            SocketWait::Pause => Flow::Next(SocketWait::Probe),
        }
    }

    /// One step of returning to a known state: where the procedure stands
    /// after `reply` to what it asked for at `at`.
    pub fn reset(&self, at: Reset, reply: &Reply) -> (r: Flow<Reset, ()>)
        ensures
            r == at.after(*reply),
    {
        match at {
            Reset::ProbeLocked => if reply.is_found() {
                Flow::Next(Reset::RemoveLocked)
            } else {
                Flow::Next(Reset::ProbeUnlock)
            },
            Reset::RemoveLocked => if reply.is_success() {
                Flow::Next(Reset::ProbeUnlock)
            } else {
                Flow::Failed(Failure::RemoveFailed(Sentinel::Locked))
            },
            Reset::ProbeUnlock => if reply.is_found() {
                Flow::Next(Reset::RemoveUnlock)
            } else {
                Flow::Next(Reset::ProbeBackup)
            },
            Reset::RemoveUnlock => if reply.is_success() {
                Flow::Next(Reset::ProbeBackup)
            } else {
                Flow::Failed(Failure::RemoveFailed(Sentinel::Unlock))
            },
            Reset::ProbeBackup => if reply.is_found() {
                Flow::Next(Reset::Restore)
            } else {
                Flow::Done(())
            },
            Reset::Restore => if reply.is_success() {
                Flow::Done(())
            } else {
                Flow::Failed(Failure::RestoreFailed)
            },
        }
    }
}

} // verus!
