//! The device as far as the daemon's requests can see and change it, and what
//! holds of every task that runs against it.
//!
//! The model is ghost only. It states what the requests are taken to mean:
//! a rename moves the descriptor or leaves it where it was, a sentinel is
//! there from its creation to its removal, and time passes in pauses.

use crate::system::{Outcome, Probe, Reply, Request, Sentinel, WaitEnd};
use crate::wifi_handshake::config::AutoApConfig;
use crate::wifi_handshake::debounce::{Wait, WaitStep};
use crate::wifi_handshake::runtime::Phase;
use crate::wifi_handshake::switcher::{ApSwitch, ClientSwitch, Restart};
use crate::wifi_handshake::utils::stations_attached;
use crate::wpa_events::event::WpaState;
use crate::wpa_events::monitor::Reset;
use vstd::prelude::*;

verus! {

/// The files of one interface, the clock, and the commands that were given.
pub struct World {
    /// The client descriptor lies at its active path.
    pub active: bool,
    /// The client descriptor lies at its backup path.
    pub backup: bool,
    /// The mark of a wait in progress is there.
    pub locked: bool,
    /// The signal to stop a wait is there.
    pub unlock: bool,
    /// Milliseconds that have passed in pauses.
    pub clock: int,
    /// The time at which another invocation sets the signal to stop, if one
    /// does.
    pub stop_at: Option<int>,
    /// How often the network service was restarted.
    pub restarts: int,
    /// How often the supplicant was told to reconfigure.
    pub reconfigures: int,
}

/// What is not up to the daemon when one request is carried out.
pub struct Chance {
    /// The file operation or the launch that is asked for can be carried out.
    pub works: bool,
    /// What a command answers.
    pub answer: Reply,
    /// Whether the control socket of the supplicant is there.
    pub socket: bool,
}

impl World {
    /// The descriptor lies at exactly one of its two paths.
    pub open spec fn quiescent(self) -> bool {
        self.active != self.backup
    }

    /// Whether the sentinel is there.
    pub open spec fn holds(self, sentinel: Sentinel) -> bool {
        match sentinel {
            Sentinel::Locked => self.locked,
            Sentinel::Unlock => self.unlock,
        }
    }

    /// The files are where they were in `before`, but for a signal to stop
    /// that another invocation has set since.
    pub open spec fn same_files(self, before: World) -> bool {
        &&& self.active == before.active
        &&& self.backup == before.backup
        &&& self.locked == before.locked
        &&& self.unlock == (before.unlock || before.stopped_by(self.clock))
        &&& self.stop_at == before.stop_at
        &&& self.clock >= before.clock
    }

    /// The signal to stop is set while the clock goes from `self.clock` to
    /// `until`.
    pub open spec fn stopped_by(self, until: int) -> bool {
        self.stop_at matches Some(at) && self.clock < at <= until
    }

    /// What comes back when `request` is carried out.
    pub open spec fn reply_to(self, request: Request, chance: Chance) -> Reply {
        match request {
            Request::Exists(Probe::ActiveDescriptor) => Reply::Exists(self.active),
            Request::Exists(Probe::BackupDescriptor) => Reply::Exists(self.backup),
            Request::Exists(Probe::Sentinel(sentinel)) => Reply::Exists(self.holds(sentinel)),
            Request::Exists(Probe::ControlSocket) => Reply::Exists(chance.socket),
            Request::MoveToBackup => if chance.works && self.active {
                Reply::Done
            } else {
                Reply::Failed
            },
            Request::MoveToActive => if chance.works && self.backup {
                Reply::Done
            } else {
                Reply::Failed
            },
            Request::Create(_) => if chance.works {
                Reply::Done
            } else {
                Reply::Failed
            },
            Request::Remove(sentinel) => if chance.works && self.holds(sentinel) {
                Reply::Done
            } else {
                Reply::Failed
            },
            Request::Pause(_) => Reply::Done,
            Request::LaunchConfigServer => if chance.works {
                Reply::Done
            } else {
                Reply::Failed
            },
            Request::Finish(_) => Reply::Done,
            _ => chance.answer,
        }
    }

    /// The device after `request` was carried out. A rename is all or
    /// nothing. A pause lets the time pass, and the signal to stop appears in
    /// it if its time comes.
    pub open spec fn effect(self, request: Request, chance: Chance) -> World {
        match request {
            Request::MoveToBackup => if chance.works && self.active {
                World { active: false, backup: true, ..self }
            } else {
                self
            },
            Request::MoveToActive => if chance.works && self.backup {
                World { active: true, backup: false, ..self }
            } else {
                self
            },
            Request::Create(Sentinel::Locked) => World { locked: self.locked || chance.works, ..self },
            Request::Create(Sentinel::Unlock) => World { unlock: self.unlock || chance.works, ..self },
            Request::Remove(Sentinel::Locked) => World { locked: self.locked && !chance.works, ..self },
            Request::Remove(Sentinel::Unlock) => World { unlock: self.unlock && !chance.works, ..self },
            Request::Pause(millis) => World {
                clock: self.clock + millis,
                unlock: self.unlock || self.stopped_by(self.clock + millis),
                ..self
            },
            Request::ServiceRestart => if chance.answer.succeeded() {
                World { restarts: self.restarts + 1, ..self }
            } else {
                self
            },
            Request::Reconfigure => World { reconfigures: self.reconfigures + 1, ..self },
            _ => self,
        }
    }
}

/// Where a task that stands at `phase` has come to, and what it has made of
/// the device, after as many requests as there are chances, or fewer if it is
/// over before.
pub open spec fn run(phase: Phase, world: World, chances: Seq<Chance>) -> (Phase, World)
    decreases chances.len(),
{
    if chances.len() == 0 || phase is Finished {
        (phase, world)
    } else {
        let request = phase.pending();
        run(
            phase.after(world.reply_to(request, chances[0])),
            world.effect(request, chances[0]),
            chances.drop_first(),
        )
    }
}

/// The device after one task for each notification, each run against the
/// chances that stand at its place.
pub open spec fn run_all(
    config: AutoApConfig,
    events: Seq<WpaState>,
    world: World,
    chances: Seq<Seq<Chance>>,
) -> World
    decreases events.len(),
{
    if events.len() == 0 || chances.len() == 0 {
        world
    } else {
        run_all(
            config,
            events.drop_first(),
            run(Phase::first(config, events[0]), world, chances[0]).1,
            chances.drop_first(),
        )
    }
}

/// Every file operation of these chances can be carried out.
pub open spec fn all_work(chances: Seq<Chance>) -> bool {
    forall|i: int| 0 <= i < chances.len() ==> (#[trigger] chances[i]).works
}

/// Every operation of these chances can be carried out, and every command
/// runs to its end and reports success.
pub open spec fn all_succeed(chances: Seq<Chance>) -> bool {
    forall|i: int|
        0 <= i < chances.len() ==> (#[trigger] chances[i]).works && chances[i].answer is Exit
            && chances[i].answer.succeeded()
}

/// No request takes the descriptor away from both of its paths or puts it at
/// both.
pub proof fn lemma_effect_keeps_mode_flag(world: World, request: Request, chance: Chance)
    requires
        world.quiescent(),
    ensures
        world.effect(request, chance).quiescent(),
{
}

/// Whatever task runs, however far, and whatever fails on the way: a
/// descriptor that lay at exactly one of its paths still does.
pub proof fn lemma_task_keeps_mode_flag(phase: Phase, world: World, chances: Seq<Chance>)
    requires
        world.quiescent(),
    ensures
        run(phase, world, chances).1.quiescent(),
    decreases chances.len(),
{
    if chances.len() != 0 && !(phase is Finished) {
        let request = phase.pending();
        lemma_effect_keeps_mode_flag(world, request, chances[0]);
        lemma_task_keeps_mode_flag(
            phase.after(world.reply_to(request, chances[0])),
            world.effect(request, chances[0]),
            chances.drop_first(),
        );
    }
}

/// After any sequence of notifications for the interface, each handled as
/// far as it got, the descriptor lies at exactly one of its two paths.
pub proof fn lemma_mode_flag_invariant(
    config: AutoApConfig,
    events: Seq<WpaState>,
    world: World,
    chances: Seq<Seq<Chance>>,
)
    requires
        world.quiescent(),
    ensures
        run_all(config, events, world, chances).quiescent(),
    decreases events.len(),
{
    if events.len() != 0 && chances.len() != 0 {
        let phase = Phase::first(config, events[0]);
        lemma_task_keeps_mode_flag(phase, world, chances[0]);
        lemma_mode_flag_invariant(
            config,
            events.drop_first(),
            run(phase, world, chances[0]).1,
            chances.drop_first(),
        );
    }
}

/// The reset ends in the known state whatever the state before: both
/// sentinels are gone, and a descriptor that lay at its backup path lies at
/// its active path. It takes at most six requests, none of which is a
/// command, and needs nothing but that the file operations work.
pub proof fn lemma_reset_restores(world: World, chances: Seq<Chance>)
    requires
        chances.len() >= 6,
        all_work(chances),
    ensures
        ({
            let (phase, after) = run(Phase::Resetting(Reset::ProbeLocked), world, chances);
            &&& phase == Phase::Finished(Outcome::Reset)
            &&& !after.locked
            &&& !after.unlock
            &&& world.backup ==> after.active && !after.backup
            &&& !world.backup ==> after.active == world.active && !after.backup
            &&& after.clock == world.clock
            &&& after.reconfigures == world.reconfigures
            &&& after.restarts == world.restarts
        }),
{
    reveal_with_fuel(run, 7);
    assert(chances[0].works && chances[1].works && chances[2].works && chances[3].works
        && chances[4].works && chances[5].works);
    let c1 = chances.drop_first();
    let c2 = c1.drop_first();
    let c3 = c2.drop_first();
    let c4 = c3.drop_first();
    let c5 = c4.drop_first();
    assert(c1[0] == chances[1] && c2[0] == chances[2] && c3[0] == chances[3] && c4[0] == chances[4]
        && c5[0] == chances[5]);
}

/// A switch to access point mode on a device where everything succeeds ends
/// with the descriptor away from its active path, and the service restarted
/// once.
pub proof fn lemma_switch_to_ap(world: World, chances: Seq<Chance>)
    requires
        chances.len() >= 7,
        all_succeed(chances),
    ensures
        ({
            let (phase, after) = run(Phase::ToAp(ApSwitch::Probe), world, chances);
            &&& phase == Phase::Finished(Outcome::AccessPoint)
            &&& after.same_files(World { active: false, backup: world.active || world.backup, ..world })
            &&& after.restarts == world.restarts + 1
            &&& after.reconfigures == world.reconfigures + if world.active {
                1int
            } else {
                0int
            }
        }),
{
    assert(chances[0].works && chances[1].works);
    let phase0 = Phase::ToAp(ApSwitch::Probe);
    let c1 = chances.drop_first();
    assert(c1[0] == chances[1]);
    assert forall|i: int| 0 <= i < c1.len() implies (#[trigger] c1[i]).works && c1[i].answer is Exit
        && c1[i].answer.succeeded() by {
        assert(c1[i] == chances[i + 1]);
    }
    let phase1 = phase0.after(world.reply_to(phase0.pending(), chances[0]));
    let w1 = world.effect(phase0.pending(), chances[0]);
    assert(run(phase0, world, chances) == run(phase1, w1, c1));
    if world.active {
        assert(phase1 == Phase::ToAp(ApSwitch::Move));
        let c2 = c1.drop_first();
        let phase2 = phase1.after(w1.reply_to(phase1.pending(), c1[0]));
        let w2 = w1.effect(phase1.pending(), c1[0]);
        assert(run(phase1, w1, c1) == run(phase2, w2, c2));
        assert forall|i: int| 0 <= i < c2.len() implies (#[trigger] c2[i]).works && c2[i].answer is Exit
            && c2[i].answer.succeeded() by {
            assert(c2[i] == chances[i + 2]);
        }
        lemma_restart_in_switch(true, w2, c2);
    } else {
        lemma_restart_in_switch(false, w1, c1);
    }
}

/// The restart within a switch to access point mode, on a device where
/// everything succeeds.
proof fn lemma_restart_in_switch(moved: bool, world: World, chances: Seq<Chance>)
    requires
        chances.len() >= 5,
        all_succeed(chances),
    ensures
        ({
            let (phase, after) = run(
                Phase::ToAp(ApSwitch::Restart { moved, at: Restart::Query }),
                world,
                chances,
            );
            &&& phase == Phase::Finished(Outcome::AccessPoint)
            &&& after.same_files(world)
            &&& after.restarts == world.restarts + 1
            &&& after.reconfigures == world.reconfigures + if moved {
                1int
            } else {
                0int
            }
        }),
{
    reveal_with_fuel(run, 7);
    assert(chances[0].works && chances[0].answer is Exit && chances[0].answer.succeeded());
    assert(chances[1].works && chances[1].answer is Exit && chances[1].answer.succeeded());
    assert(chances[2].works && chances[2].answer is Exit && chances[2].answer.succeeded());
    assert(chances[3].works && chances[3].answer is Exit && chances[3].answer.succeeded());
    assert(chances[4].works && chances[4].answer is Exit && chances[4].answer.succeeded());
    let c1 = chances.drop_first();
    let c2 = c1.drop_first();
    let c3 = c2.drop_first();
    let c4 = c3.drop_first();
    assert(c1[0] == chances[1] && c2[0] == chances[2] && c3[0] == chances[3] && c4[0] == chances[4]);
    let phase0 = Phase::ToAp(ApSwitch::Restart { moved, at: Restart::Query });
    let phase1 = phase0.after(world.reply_to(phase0.pending(), chances[0]));
    let w1 = world.effect(phase0.pending(), chances[0]);
    assert(run(phase0, world, chances) == run(phase1, w1, c1));
    assert(w1 == world);
}

/// A switch to client mode on a device where everything succeeds ends with
/// the descriptor at its active path, and the service restarted once. The
/// supplicant is not told anything.
pub proof fn lemma_switch_to_client(world: World, chances: Seq<Chance>)
    requires
        chances.len() >= 6,
        all_succeed(chances),
    ensures
        ({
            let (phase, after) = run(Phase::ToClient(ClientSwitch::Probe), world, chances);
            &&& phase == Phase::Finished(Outcome::Client)
            &&& after.same_files(World { active: world.active || world.backup, backup: false, ..world })
            &&& after.restarts == world.restarts + 1
            &&& after.reconfigures == world.reconfigures
        }),
{
    reveal_with_fuel(run, 7);
    assert(chances[0].works && chances[0].answer is Exit && chances[0].answer.succeeded());
    assert(chances[1].works && chances[1].answer is Exit && chances[1].answer.succeeded());
    assert(chances[2].works && chances[2].answer is Exit && chances[2].answer.succeeded());
    assert(chances[3].works && chances[3].answer is Exit && chances[3].answer.succeeded());
    assert(chances[4].works && chances[4].answer is Exit && chances[4].answer.succeeded());
    assert(chances[5].works && chances[5].answer is Exit && chances[5].answer.succeeded());
    let c1 = chances.drop_first();
    let c2 = c1.drop_first();
    let c3 = c2.drop_first();
    let c4 = c3.drop_first();
    let c5 = c4.drop_first();
    assert(c1[0] == chances[1] && c2[0] == chances[2] && c3[0] == chances[3] && c4[0] == chances[4]
        && c5[0] == chances[5]);
}

/// Switching to access point mode twice is switching once: the second
/// switch ends without error and leaves every file where the first put it.
pub proof fn lemma_switch_to_ap_idempotent(world: World, first: Seq<Chance>, second: Seq<Chance>)
    requires
        first.len() >= 7,
        second.len() >= 7,
        all_succeed(first),
        all_succeed(second),
    ensures
        ({
            let (phase, once) = run(Phase::ToAp(ApSwitch::Probe), world, first);
            let (again, twice) = run(Phase::ToAp(ApSwitch::Probe), once, second);
            &&& phase == Phase::Finished(Outcome::AccessPoint)
            &&& again == Phase::Finished(Outcome::AccessPoint)
            &&& twice.same_files(once)
            &&& twice.reconfigures == once.reconfigures
        }),
{
    lemma_switch_to_ap(world, first);
    lemma_switch_to_ap(run(Phase::ToAp(ApSwitch::Probe), world, first).1, second);
}

/// A wait that begins while another is in progress tells that one to stop
/// and is over at once: it never pauses.
pub proof fn lemma_second_wait_supersedes(seconds: u64, world: World, chances: Seq<Chance>)
    requires
        world.locked,
        chances.len() >= 2,
        all_work(chances),
    ensures
        ({
            let (phase, after) = run(Phase::Waiting(Wait::start(seconds)), world, chances);
            &&& phase == Phase::Finished(Outcome::Waited(WaitEnd::Superseded))
            &&& after.unlock
            &&& after.locked
            &&& after.clock == world.clock
            &&& after.reconfigures == world.reconfigures
            &&& after.active == world.active
            &&& after.backup == world.backup
        }),
{
    reveal_with_fuel(run, 3);
    assert(chances[0].works && chances[1].works);
    assert(chances.drop_first()[0] == chances[1]);
}

/// A wait in its loop that finds the signal to stop ends within the second:
/// it removes both sentinels and does not tell the supplicant anything.
pub proof fn lemma_signal_stops_wait(wait: Wait, world: World, chances: Seq<Chance>)
    requires
        wait.at is Sleep || wait.at is Poll,
        world.unlock,
        chances.len() >= 4,
        all_work(chances),
    ensures
        ({
            let (phase, after) = run(Phase::Waiting(wait), world, chances);
            &&& phase == Phase::Finished(Outcome::Waited(WaitEnd::Cancelled))
            &&& !after.unlock
            &&& !after.locked
            &&& after.clock <= world.clock + 1000
            &&& after.reconfigures == world.reconfigures
            &&& after.active == world.active
            &&& after.backup == world.backup
        }),
{
    reveal_with_fuel(run, 5);
    assert(chances[0].works && chances[1].works && chances[2].works && chances[3].works);
    let c1 = chances.drop_first();
    let c2 = c1.drop_first();
    let c3 = c2.drop_first();
    assert(c1[0] == chances[1] && c2[0] == chances[2] && c3[0] == chances[3]);
}

/// Starting a second wait while one is in progress cancels the first: the
/// second is over at once, and the first ends within the second it is in,
/// with both sentinels removed and the supplicant left alone.
pub proof fn lemma_second_wait_cancels_first(
    first: Wait,
    seconds: u64,
    world: World,
    for_second: Seq<Chance>,
    for_first: Seq<Chance>,
)
    requires
        first.at is Sleep || first.at is Poll,
        world.locked,
        for_second.len() >= 2,
        for_first.len() >= 4,
        all_work(for_second),
        all_work(for_first),
    ensures
        ({
            let (second_phase, between) = run(
                Phase::Waiting(Wait::start(seconds)),
                world,
                for_second,
            );
            let (first_phase, after) = run(Phase::Waiting(first), between, for_first);
            &&& second_phase == Phase::Finished(Outcome::Waited(WaitEnd::Superseded))
            &&& between.clock == world.clock
            &&& first_phase == Phase::Finished(Outcome::Waited(WaitEnd::Cancelled))
            &&& after.clock <= world.clock + 1000
            &&& !after.locked
            &&& !after.unlock
            &&& after.reconfigures == world.reconfigures
        }),
{
    lemma_second_wait_supersedes(seconds, world, for_second);
    let between = run(Phase::Waiting(Wait::start(seconds)), world, for_second).1;
    lemma_signal_stops_wait(first, between, for_first);
}

/// A connection that was reported while the interface holds no address that
/// can be routed is never followed by a switch: no file is touched, the
/// service is not restarted, and the task ends, if it ends, without a switch
/// to client mode.
pub proof fn lemma_no_address_no_switch(config: AutoApConfig, world: World, chances: Seq<Chance>)
    requires
        forall|i: int| 0 <= i < chances.len() ==> !Phase::shows_address((#[trigger] chances[i]).answer),
    ensures
        ({
            let (phase, after) = run(Phase::first(config, WpaState::Connected), world, chances);
            &&& after == world
            &&& (phase == Phase::Verifying || phase is Addressing || phase == Phase::Finished(
                Outcome::NotJoined,
            ) || phase == Phase::Finished(Outcome::Failed(crate::system::Failure::StatusFailed)))
        }),
{
    reveal_with_fuel(run, 3);
    if chances.len() >= 2 {
        assert(chances.drop_first()[0] == chances[1]);
        assert(!Phase::shows_address(chances[1].answer));
    }
}

/// The end of a wait whose time has passed: both sentinels are removed,
/// and the supplicant is told to reconfigure exactly when no station is
/// attached.
pub proof fn lemma_wait_expires(seconds: u64, world: World, chances: Seq<Chance>)
    requires
        chances.len() >= 4,
        all_work(chances),
    ensures
        ({
            let (phase, after) = run(
                Phase::Waiting(Wait { seconds, at: WaitStep::ExpireUnlock }),
                world,
                chances,
            );
            let reconfigured = !stations_attached(chances[2].answer);
            &&& phase == Phase::Finished(Outcome::Waited(WaitEnd::Expired { reconfigured }))
            &&& !after.locked
            &&& !after.unlock
            &&& after.clock == world.clock
            &&& after.active == world.active
            &&& after.backup == world.backup
            &&& after.reconfigures == world.reconfigures + if reconfigured {
                1int
            } else {
                0int
            }
        }),
{
    reveal_with_fuel(run, 6);
    assert(chances[0].works && chances[1].works && chances[2].works && chances[3].works);
    let c1 = chances.drop_first();
    let c2 = c1.drop_first();
    let c3 = c2.drop_first();
    assert(c1[0] == chances[1] && c2[0] == chances[2] && c3[0] == chances[3]);
}

/// The seconds of a wait from second `elapsed` on, while no signal to stop
/// is there yet.
///
/// If another invocation sets the signal within the time that is left, the
/// wait ends at the first whole second after that: early, with both
/// sentinels removed and nothing said to the supplicant. If no signal comes,
/// the wait ends when its time is over, with both sentinels removed. Each
/// second that is left takes two requests and the removals two more, so the
/// question for the stations is the one after those, and the supplicant is
/// told to reconfigure exactly when the answer to it names no station.
pub proof fn lemma_wait_loop(seconds: u64, elapsed: u64, world: World, chances: Seq<Chance>)
    requires
        elapsed < seconds,
        !world.unlock,
        chances.len() >= 2 * (seconds - elapsed) + 4,
        all_work(chances),
    ensures
        ({
            let (phase, after) = run(
                Phase::Waiting(Wait { seconds, at: WaitStep::Sleep { elapsed } }),
                world,
                chances,
            );
            let end = world.clock + 1000 * (seconds - elapsed);
            &&& !after.locked
            &&& !after.unlock
            &&& after.active == world.active
            &&& after.backup == world.backup
            &&& world.stopped_by(end) ==> {
                &&& phase == Phase::Finished(Outcome::Waited(WaitEnd::Cancelled))
                &&& world.stop_at->0 <= after.clock < world.stop_at->0 + 1000
                &&& after.clock <= end
                &&& after.reconfigures == world.reconfigures
            }
            &&& !world.stopped_by(end) ==> {
                let reconfigured = !stations_attached(
                    chances[2 * (seconds - elapsed) + 2].answer,
                );
                &&& phase == Phase::Finished(Outcome::Waited(WaitEnd::Expired { reconfigured }))
                &&& after.clock == end
                &&& after.reconfigures == world.reconfigures + if reconfigured {
                    1int
                } else {
                    0int
                }
            }
        }),
    decreases seconds - elapsed,
{
    let phase0 = Phase::Waiting(Wait { seconds, at: WaitStep::Sleep { elapsed } });
    let c1 = chances.drop_first();
    let c2 = c1.drop_first();
    assert(chances[0].works && chances[1].works);
    assert(c1[0] == chances[1]);
    let w1 = world.effect(phase0.pending(), chances[0]);
    let phase1 = phase0.after(world.reply_to(phase0.pending(), chances[0]));
    assert(run(phase0, world, chances) == run(phase1, w1, c1));
    assert(phase1 == Phase::Waiting(Wait { seconds, at: WaitStep::Poll { elapsed } }));
    assert(w1.clock == world.clock + 1000);
    let w2 = w1.effect(phase1.pending(), c1[0]);
    let phase2 = phase1.after(w1.reply_to(phase1.pending(), c1[0]));
    assert(run(phase1, w1, c1) == run(phase2, w2, c2));
    assert(w2 == w1);
    assert forall|i: int| 0 <= i < c2.len() implies (#[trigger] c2[i]).works by {
        assert(c2[i] == chances[i + 2]);
    }
    assert(c2[2 * (seconds - elapsed)] == chances[2 * (seconds - elapsed) + 2]);
    if w1.unlock {
        assert(phase2 == Phase::Waiting(Wait { seconds, at: WaitStep::CancelUnlock }));
        reveal_with_fuel(run, 4);
        assert(c2[0].works && c2[1].works);
        assert(c2.drop_first()[0] == c2[1]);
    } else if elapsed + 1 < seconds {
        assert(phase2 == Phase::Waiting(
            Wait { seconds, at: WaitStep::Sleep { elapsed: (elapsed + 1) as u64 } },
        ));
        lemma_wait_loop(seconds, (elapsed + 1) as u64, w2, c2);
    } else {
        assert(phase2 == Phase::Waiting(Wait { seconds, at: WaitStep::ExpireUnlock }));
        lemma_wait_expires(seconds, w2, c2);
    }
}

/// A wait of `seconds` seconds that begins while no other is in progress.
///
/// If another invocation sets the signal to stop within those seconds, the
/// wait returns early, at the first whole second after the signal, and the
/// supplicant is left alone. Otherwise it returns when the seconds are over.
/// Either way both sentinels are gone when it returns, and the descriptor
/// lies where it lay. A wait that ran its time tells the supplicant to
/// reconfigure exactly when the answer to its question for the stations
/// names none.
pub proof fn lemma_wait(seconds: u64, world: World, chances: Seq<Chance>)
    requires
        !world.locked,
        chances.len() >= 2 * seconds + 8,
        all_work(chances),
    ensures
        ({
            let (phase, after) = run(Phase::Waiting(Wait::start(seconds)), world, chances);
            let end = world.clock + 1000 * seconds;
            &&& !after.locked
            &&& !after.unlock
            &&& after.active == world.active
            &&& after.backup == world.backup
            &&& world.stopped_by(end) ==> {
                &&& phase == Phase::Finished(Outcome::Waited(WaitEnd::Cancelled))
                &&& world.stop_at->0 <= after.clock < world.stop_at->0 + 1000
                &&& after.clock <= end
                &&& after.reconfigures == world.reconfigures
            }
            &&& !world.stopped_by(end) ==> {
                let reconfigured = !stations_attached(
                    chances[Wait::station_query(seconds, world.unlock)].answer,
                );
                &&& phase == Phase::Finished(Outcome::Waited(WaitEnd::Expired { reconfigured }))
                &&& after.clock == end
                &&& after.reconfigures == world.reconfigures + if reconfigured {
                    1int
                } else {
                    0int
                }
            }
        }),
{
    let phase0 = Phase::Waiting(Wait::start(seconds));
    let c1 = chances.drop_first();
    let c2 = c1.drop_first();
    let c3 = c2.drop_first();
    assert(chances[0].works && chances[1].works && chances[2].works);
    assert(c1[0] == chances[1] && c2[0] == chances[2]);
    let w1 = world.effect(phase0.pending(), chances[0]);
    let phase1 = phase0.after(world.reply_to(phase0.pending(), chances[0]));
    assert(run(phase0, world, chances) == run(phase1, w1, c1));
    assert(phase1 == Phase::Waiting(Wait { seconds, at: WaitStep::Lock }));
    let w2 = w1.effect(phase1.pending(), c1[0]);
    let phase2 = phase1.after(w1.reply_to(phase1.pending(), c1[0]));
    assert(run(phase1, w1, c1) == run(phase2, w2, c2));
    assert(phase2 == Phase::Waiting(Wait { seconds, at: WaitStep::ProbeStale }));
    let w3 = w2.effect(phase2.pending(), c2[0]);
    let phase3 = phase2.after(w2.reply_to(phase2.pending(), c2[0]));
    assert(run(phase2, w2, c2) == run(phase3, w3, c3));
    assert forall|i: int| 0 <= i < c3.len() implies (#[trigger] c3[i]).works by {
        assert(c3[i] == chances[i + 3]);
    }
    if world.unlock {
        assert(phase3 == Phase::Waiting(Wait { seconds, at: WaitStep::ClearStale }));
        let c4 = c3.drop_first();
        let w4 = w3.effect(phase3.pending(), c3[0]);
        let phase4 = phase3.after(w3.reply_to(phase3.pending(), c3[0]));
        assert(run(phase3, w3, c3) == run(phase4, w4, c4));
        assert(!w4.unlock && w4.clock == world.clock && w4.stop_at == world.stop_at);
        assert forall|i: int| 0 <= i < c4.len() implies (#[trigger] c4[i]).works by {
            assert(c4[i] == c3[i + 1]);
        }
        assert(c4[2 * seconds + 2] == chances[2 * seconds + 6]);
        if seconds > 0 {
            lemma_wait_loop(seconds, 0, w4, c4);
        } else {
            lemma_wait_expires(seconds, w4, c4);
        }
    } else {
        assert(c3[2 * seconds + 2] == chances[2 * seconds + 5]);
        if seconds > 0 {
            lemma_wait_loop(seconds, 0, w3, c3);
        } else {
            lemma_wait_expires(seconds, w3, c3);
        }
    }
}

/// A wait that no signal stops, on an access point that no station is
/// attached to, ends when its time is over and has then told the supplicant
/// to reconfigure exactly once.
pub proof fn lemma_unattended_wait_reconfigures_once(
    seconds: u64,
    world: World,
    chances: Seq<Chance>,
)
    requires
        !world.locked,
        world.stop_at is None,
        chances.len() >= 2 * seconds + 8,
        all_work(chances),
        forall|i: int| 0 <= i < chances.len() ==> !stations_attached((#[trigger] chances[i]).answer),
    ensures
        ({
            let (phase, after) = run(Phase::Waiting(Wait::start(seconds)), world, chances);
            &&& phase == Phase::Finished(Outcome::Waited(WaitEnd::Expired { reconfigured: true }))
            &&& after.clock == world.clock + 1000 * seconds
            &&& after.reconfigures == world.reconfigures + 1
            &&& !after.locked
            &&& !after.unlock
        }),
{
    lemma_wait(seconds, world, chances);
    assert(!stations_attached(chances[Wait::station_query(seconds, world.unlock)].answer));
}

/// A station that joins while a wait is in its loop stops the wait: the
/// notification of the station sets the signal, and the wait ends within the
/// second it is in, with both sentinels removed and the supplicant left
/// alone.
pub proof fn lemma_station_stops_wait(
    config: AutoApConfig,
    wait: Wait,
    world: World,
    for_station: Seq<Chance>,
    for_wait: Seq<Chance>,
)
    requires
        wait.at is Sleep || wait.at is Poll,
        for_station.len() >= 1,
        for_wait.len() >= 4,
        all_work(for_station),
        all_work(for_wait),
    ensures
        ({
            let (station, between) = run(
                Phase::first(config, WpaState::ApStaConnected),
                world,
                for_station,
            );
            let (phase, after) = run(Phase::Waiting(wait), between, for_wait);
            &&& station == Phase::Finished(Outcome::Unlocked)
            &&& between.unlock
            &&& between.clock == world.clock
            &&& phase == Phase::Finished(Outcome::Waited(WaitEnd::Cancelled))
            &&& after.clock <= world.clock + 1000
            &&& !after.locked
            &&& !after.unlock
            &&& after.reconfigures == world.reconfigures
            &&& after.active == world.active
            &&& after.backup == world.backup
        }),
{
    reveal_with_fuel(run, 2);
    assert(for_station[0].works);
    let between = run(Phase::first(config, WpaState::ApStaConnected), world, for_station).1;
    lemma_signal_stops_wait(wait, between, for_wait);
}

} // verus!
