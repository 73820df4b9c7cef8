//! Waiting before the client network is tried again.
//!
//! The interface is not pulled out of access point mode the moment it came up
//! or a station left: the daemon waits, and any station that joins in the
//! meantime stops the wait. Invocations of the daemon are separate processes,
//! so they coordinate through two files. `locked` says that a wait is in
//! progress. `unlock` tells the one who waits to stop: it looks for the file
//! once a second and consumes it.

use crate::system::{Failure, Flow, Probe, Reply, Request, Sentinel, WaitEnd};
use crate::wifi_handshake::runtime::AutoApHandler;
use crate::wifi_handshake::utils::{has_connected_stations, stations_attached};
use vstd::prelude::*;

verus! {

/// What a wait is waiting for.
#[derive(Debug, Clone, Copy, PartialEq, Eq, Structural)]
pub enum WaitStep {
    /// Whether another wait is in progress.
    ProbeLocked,
    /// The signal that stops the wait in progress.
    Supersede,
    /// The mark that this wait is in progress.
    Lock,
    /// Whether a signal is left over from before.
    ProbeStale,
    /// The removal of the signal that was left over.
    ClearStale,
    /// The end of a second; `elapsed` seconds have passed before it.
    Sleep { elapsed: u64 },
    /// Whether the signal to stop is there after second `elapsed`.
    Poll { elapsed: u64 },
    /// After the signal to stop: its removal.
    CancelUnlock,
    /// After the signal to stop: the removal of the mark.
    CancelLocked,
    /// After the time has passed: the removal of any signal.
    ExpireUnlock,
    /// After the time has passed: the removal of the mark.
    ExpireLocked,
    /// Which stations are attached.
    Stations,
    /// The reconfiguration of the supplicant.
    Reconfigure,
}

/// A wait of `seconds` seconds and the step it stands at.
#[derive(Debug, Clone, Copy, PartialEq, Eq, Structural)]
pub struct Wait {
    pub seconds: u64,
    pub at: WaitStep,
}

impl Wait {
    /// A wait that has not asked for anything yet.
    pub open spec fn start(seconds: u64) -> Wait {
        Wait { seconds, at: WaitStep::ProbeLocked }
    }

    /// Where a wait stands once its mark is set: at its first second, or at
    /// its end if it lasts no time.
    pub open spec fn first(self) -> Wait {
        if self.seconds > 0 {
            Wait { at: WaitStep::Sleep { elapsed: 0 }, ..self }
        } else {
            Wait { at: WaitStep::ExpireUnlock, ..self }
        }
    }

    /// The number of requests that a wait of `seconds` seconds makes before
    /// it asks for the attached stations, when nothing stops it: three to set
    /// its mark, one more if a stale signal is in the way, two for each of
    /// its seconds, and two to remove the sentinels.
    pub open spec fn station_query(seconds: u64, stale: bool) -> int {
        2 * seconds + 5 + if stale {
            1int
        } else {
            0int
        }
    }

    /// What is asked for at this step.
    pub open spec fn pending(self) -> Request {
        match self.at {
            WaitStep::ProbeLocked => Request::Exists(Probe::Sentinel(Sentinel::Locked)),
            WaitStep::Supersede => Request::Create(Sentinel::Unlock),
            WaitStep::Lock => Request::Create(Sentinel::Locked),
            WaitStep::ProbeStale => Request::Exists(Probe::Sentinel(Sentinel::Unlock)),
            WaitStep::ClearStale => Request::Remove(Sentinel::Unlock),
            WaitStep::Sleep { .. } => Request::Pause(1000),
            WaitStep::Poll { .. } => Request::Exists(Probe::Sentinel(Sentinel::Unlock)),
            WaitStep::CancelUnlock => Request::Remove(Sentinel::Unlock),
            WaitStep::CancelLocked => Request::Remove(Sentinel::Locked),
            WaitStep::ExpireUnlock => Request::Remove(Sentinel::Unlock),
            WaitStep::ExpireLocked => Request::Remove(Sentinel::Locked),
            WaitStep::Stations => Request::Stations,
            WaitStep::Reconfigure => Request::Reconfigure,
        }
    }

    /// Where the wait stands after `reply`.
    ///
    /// A wait that finds another in progress tells that one to stop and ends
    /// at once. Otherwise it sets its mark, clears a signal left over from
    /// before, and looks for the signal after each of its seconds. The signal
    /// ends the wait early. With or without it both files are removed before
    /// the wait ends, and whether the removals succeed is not looked at. A
    /// wait that ran its time asks for the attached stations and has the
    /// supplicant reconfigure when there is none.
    pub open spec fn after(self, reply: Reply) -> Flow<Wait, WaitEnd> {
        match self.at {
            WaitStep::ProbeLocked => if reply.found() {
                Flow::Next(Wait { at: WaitStep::Supersede, ..self })
            } else {
                Flow::Next(Wait { at: WaitStep::Lock, ..self })
            },
            WaitStep::Supersede => if reply.succeeded() {
                Flow::Done(WaitEnd::Superseded)
            } else {
                Flow::Failed(Failure::UnlockFailed)
            },
            WaitStep::Lock => if reply.succeeded() {
                Flow::Next(Wait { at: WaitStep::ProbeStale, ..self })
            } else {
                Flow::Failed(Failure::LockFailed)
            },
            WaitStep::ProbeStale => if reply.found() {
                Flow::Next(Wait { at: WaitStep::ClearStale, ..self })
            } else {
                Flow::Next(self.first())
            },
            WaitStep::ClearStale => if reply.succeeded() {
                Flow::Next(self.first())
            } else {
                Flow::Failed(Failure::RemoveFailed(Sentinel::Unlock))
            },
            WaitStep::Sleep { elapsed } => Flow::Next(Wait { at: WaitStep::Poll { elapsed }, ..self }),
            WaitStep::Poll { elapsed } => if reply.found() {
                Flow::Next(Wait { at: WaitStep::CancelUnlock, ..self })
            } else if elapsed + 1 < self.seconds {
                Flow::Next(Wait { at: WaitStep::Sleep { elapsed: (elapsed + 1) as u64 }, ..self })
            } else {
                Flow::Next(Wait { at: WaitStep::ExpireUnlock, ..self })
            },
            WaitStep::CancelUnlock => Flow::Next(Wait { at: WaitStep::CancelLocked, ..self }),
            WaitStep::CancelLocked => Flow::Done(WaitEnd::Cancelled),
            WaitStep::ExpireUnlock => Flow::Next(Wait { at: WaitStep::ExpireLocked, ..self }),
            WaitStep::ExpireLocked => Flow::Next(Wait { at: WaitStep::Stations, ..self }),
            WaitStep::Stations => if stations_attached(reply) {
                Flow::Done(WaitEnd::Expired { reconfigured: false })
            } else {
                Flow::Next(Wait { at: WaitStep::Reconfigure, ..self })
            },
            WaitStep::Reconfigure => Flow::Done(WaitEnd::Expired { reconfigured: true }),
        }
    }

    /// A wait of `seconds` seconds that has not asked for anything yet.
    pub fn new(seconds: u64) -> (r: Wait)
        ensures
            r == Wait::start(seconds),
    {
        Wait { seconds, at: WaitStep::ProbeLocked }
    }

    /// Where the wait stands once its mark is set.
    fn enter(self) -> (r: Wait)
        ensures
            r == self.first(),
    {
        if self.seconds > 0 {
            Wait { at: WaitStep::Sleep { elapsed: 0 }, ..self }
        } else {
            Wait { at: WaitStep::ExpireUnlock, ..self }
        }
    }

    /// What is asked for at this step.
    pub fn request(&self) -> (r: Request)
        ensures
            r == self.pending(),
    {
        match self.at {
            WaitStep::ProbeLocked => Request::Exists(Probe::Sentinel(Sentinel::Locked)),
            WaitStep::Supersede => Request::Create(Sentinel::Unlock),
            WaitStep::Lock => Request::Create(Sentinel::Locked),
            WaitStep::ProbeStale => Request::Exists(Probe::Sentinel(Sentinel::Unlock)),
            WaitStep::ClearStale => Request::Remove(Sentinel::Unlock),
            WaitStep::Sleep { .. } => Request::Pause(1000),
            WaitStep::Poll { .. } => Request::Exists(Probe::Sentinel(Sentinel::Unlock)),
            WaitStep::CancelUnlock => Request::Remove(Sentinel::Unlock),
            WaitStep::CancelLocked => Request::Remove(Sentinel::Locked),
            WaitStep::ExpireUnlock => Request::Remove(Sentinel::Unlock),
            WaitStep::ExpireLocked => Request::Remove(Sentinel::Locked),
            WaitStep::Stations => Request::Stations,
            WaitStep::Reconfigure => Request::Reconfigure,
        }
    }
}

impl AutoApHandler {
    /// One step of the wait before the client network is tried again: where
    /// the wait stands after `reply` to what it asked for.
    pub fn reconfigure_wpa_supplicant_static(wait: Wait, reply: &Reply) -> (r: Flow<Wait, WaitEnd>)
        ensures
            r == wait.after(*reply),
    {
        match wait.at {
            WaitStep::ProbeLocked => if reply.is_found() {
                Flow::Next(Wait { at: WaitStep::Supersede, ..wait })
            } else {
                Flow::Next(Wait { at: WaitStep::Lock, ..wait })
            },
            WaitStep::Supersede => if reply.is_success() {
                Flow::Done(WaitEnd::Superseded)
            } else {
                Flow::Failed(Failure::UnlockFailed)
            },
            WaitStep::Lock => if reply.is_success() {
                Flow::Next(Wait { at: WaitStep::ProbeStale, ..wait })
            } else {
                Flow::Failed(Failure::LockFailed)
            },
            WaitStep::ProbeStale => if reply.is_found() {
                Flow::Next(Wait { at: WaitStep::ClearStale, ..wait })
            } else {
                Flow::Next(wait.enter())
            },
            WaitStep::ClearStale => if reply.is_success() {
                Flow::Next(wait.enter())
            } else {
                Flow::Failed(Failure::RemoveFailed(Sentinel::Unlock))
            },
            WaitStep::Sleep { elapsed } => Flow::Next(Wait { at: WaitStep::Poll { elapsed }, ..wait }),
            WaitStep::Poll { elapsed } => if reply.is_found() {
                Flow::Next(Wait { at: WaitStep::CancelUnlock, ..wait })
            } else if elapsed < u64::MAX && elapsed + 1 < wait.seconds {
                Flow::Next(Wait { at: WaitStep::Sleep { elapsed: elapsed + 1 }, ..wait })
            } else {
                Flow::Next(Wait { at: WaitStep::ExpireUnlock, ..wait })
            },
            WaitStep::CancelUnlock => Flow::Next(Wait { at: WaitStep::CancelLocked, ..wait }),
            WaitStep::CancelLocked => Flow::Done(WaitEnd::Cancelled),
            WaitStep::ExpireUnlock => Flow::Next(Wait { at: WaitStep::ExpireLocked, ..wait }),
            WaitStep::ExpireLocked => Flow::Next(Wait { at: WaitStep::Stations, ..wait }),
            WaitStep::Stations => if has_connected_stations(reply) {
                Flow::Done(WaitEnd::Expired { reconfigured: false })
            } else {
                Flow::Next(Wait { at: WaitStep::Reconfigure, ..wait })
            },
            WaitStep::Reconfigure => Flow::Done(WaitEnd::Expired { reconfigured: true }),
        }
    }
}

} // verus!
