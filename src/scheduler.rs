//! The phase state machine and its notify-until-acknowledged escalation.
//!
//! The scheduler decides; the runtime around it waits. Each decision is a
//! `Directive`: a snapshot to publish, whether to discard stale queued actions
//! first, and what to wait for next. What ends the wait comes back as an
//! `Event`.
use vstd::prelude::*;
use crate::clock::{break_after, break_after_position, Config, CycleInfo, Phase};

verus! {

/// A control action, produced by a client or by the notifier.
#[derive(Clone, Copy, Debug, PartialEq, Eq, Structural)]
pub enum ControlAction {
    Acknowledge,
    Snooze,
}

/// What ended the wait that the last directive asked for.
#[derive(Clone, Copy, Debug, PartialEq, Eq, Structural)]
pub enum Event {
    /// The hold of the running phase is over.
    HoldElapsed,
    /// The announcement interval passed without an acknowledgment.
    RemindElapsed,
    /// An action taken from the action queue.
    Action(ControlAction),
}

/// What the runtime waits for after publishing.
#[derive(Clone, Copy, Debug, PartialEq, Eq, Structural)]
pub enum Wait {
    /// Suspend for this many milliseconds, then report `HoldElapsed`.
    Hold { millis: u64 },
    /// Report each queued action; report `RemindElapsed` after this many
    /// milliseconds if no decision was made before.
    Acknowledgment { remind_millis: u64 },
}

/// One decision of the scheduler.
#[derive(Clone, Copy, Debug, PartialEq, Eq, Structural)]
pub struct Directive {
    /// The snapshot to publish to every observer.
    pub publish: CycleInfo,
    /// Discard the actions left in the queue before waiting.
    pub drain_stale_actions: bool,
    pub wait: Wait,
}

/// The mathematical state of a scheduler.
pub struct SchedulerModel {
    pub config: Config,
    /// Which of the four Busy phases of a set is running or last ran.
    pub position: u8,
    /// The snapshot last published.
    pub info: CycleInfo,
}

impl SchedulerModel {
    pub open spec fn wf(self) -> bool {
        &&& self.config.wf()
        &&& self.position < 4
        &&& if self.info.current_phase == Phase::Busy {
            self.info.next_phase == break_after(self.position as int)
        } else {
            &&& self.info.current_phase == break_after(self.position as int)
            &&& self.info.next_phase == Phase::Busy
        }
    }

    /// A phase is running; no transition is pending.
    pub open spec fn running(self) -> bool {
        !self.info.needs_acknowledgment
    }
}

/// The state at daemon start: the first Busy phase runs at once.
pub open spec fn initial_model(config: Config, now: u64) -> SchedulerModel {
    SchedulerModel {
        config,
        position: 0,
        info: CycleInfo {
            current_phase: Phase::Busy,
            next_phase: Phase::ShortBreak,
            needs_acknowledgment: false,
            phase_started_at: now,
        },
    }
}

/// The state once the pending transition of `s` is acknowledged at `now`.
pub open spec fn begin_next_phase(s: SchedulerModel, now: u64) -> SchedulerModel {
    if s.info.next_phase == Phase::Busy {
        let p = ((s.position + 1) % 4) as u8;
        SchedulerModel {
            config: s.config,
            position: p,
            info: CycleInfo {
                current_phase: Phase::Busy,
                next_phase: break_after(p as int),
                needs_acknowledgment: false,
                phase_started_at: now,
            },
        }
    } else {
        SchedulerModel {
            config: s.config,
            position: s.position,
            info: CycleInfo {
                current_phase: s.info.next_phase,
                next_phase: Phase::Busy,
                needs_acknowledgment: false,
                phase_started_at: now,
            },
        }
    }
}

/// Publish the pending transition of `s` and wait for its acknowledgment.
pub open spec fn announcement(s: SchedulerModel, drain: bool) -> Directive {
    Directive {
        publish: s.info,
        drain_stale_actions: drain,
        wait: Wait::Acknowledgment { remind_millis: s.config.spec_remind_millis() as u64 },
    }
}

/// Publish the running phase of `s` and hold for its duration.
pub open spec fn hold(s: SchedulerModel) -> Directive {
    Directive {
        publish: s.info,
        drain_stale_actions: false,
        wait: Wait::Hold { millis: s.config.spec_phase_millis(s.info.current_phase) as u64 },
    }
}

/// The state after `e` arrives at `now`.
pub open spec fn next_model(s: SchedulerModel, e: Event, now: u64) -> SchedulerModel {
    if s.running() {
        if e == Event::HoldElapsed {
            SchedulerModel { info: CycleInfo { needs_acknowledgment: true, ..s.info }, ..s }
        } else {
            s
        }
    } else if e == Event::Action(ControlAction::Acknowledge) {
        begin_next_phase(s, now)
    } else {
        s
    }
}

/// The decision taken when `e` arrives at `now`; `None` to keep waiting as before.
pub open spec fn decision(s: SchedulerModel, e: Event, now: u64) -> Option<Directive> {
    if s.running() {
        if e == Event::HoldElapsed {
            Some(announcement(next_model(s, e, now), true))
        } else {
            None
        }
    } else if e == Event::Action(ControlAction::Acknowledge) {
        Some(hold(begin_next_phase(s, now)))
    } else if e == Event::RemindElapsed {
        Some(announcement(s, false))
    } else {
        None
    }
}

/// Every event keeps a well-formed state well-formed.
pub proof fn lemma_next_model_wf(s: SchedulerModel, e: Event, now: u64)
    requires
        s.wf(),
    ensures
        next_model(s, e, now).wf(),
{
}

/// The state after the running phase of `s` ends at `hold_end` and its
/// successor is acknowledged at `ack_at`.
pub open spec fn finish_phase(s: SchedulerModel, hold_end: u64, ack_at: u64) -> SchedulerModel {
    next_model(
        next_model(s, Event::HoldElapsed, hold_end),
        Event::Action(ControlAction::Acknowledge),
        ack_at,
    )
}

/// The state after `n` phases are finished, the k-th hold ending at
/// `times(2k)` and the k-th acknowledgment arriving at `times(2k + 1)`.
pub open spec fn finish_phases(s: SchedulerModel, n: nat, times: spec_fn(nat) -> u64) -> SchedulerModel
    decreases n,
{
    if n == 0 {
        s
    } else {
        let k = (n - 1) as nat;
        finish_phase(finish_phases(s, k, times), times(2 * k), times(2 * k + 1))
    }
}

/// The state after the events of `events` arrive in order, the i-th at `times(i)`.
pub open spec fn run(s: SchedulerModel, events: Seq<Event>, times: spec_fn(nat) -> u64) -> SchedulerModel
    decreases events.len(),
{
    if events.len() == 0 {
        s
    } else {
        let k = (events.len() - 1) as nat;
        next_model(run(s, events.drop_last(), times), events.last(), times(k))
    }
}

/// The break after Busy position `p` is a short break for `p` in 0..=2 and
/// the long break for `p == 3`; after that break, Busy runs at the next
/// position, which wraps from 3 back to 0.
pub proof fn lemma_set_order(s: SchedulerModel, t1: u64, t2: u64, t3: u64, t4: u64)
    requires
        s.wf(),
        s.running(),
        s.info.current_phase == Phase::Busy,
    ensures
        ({
            let b = finish_phase(s, t1, t2);
            &&& b.wf()
            &&& b.running()
            &&& b.position == s.position
            &&& s.position < 3 ==> b.info.current_phase == Phase::ShortBreak
            &&& s.position == 3 ==> b.info.current_phase == Phase::LongBreak
            &&& b.info.next_phase == Phase::Busy
        }),
        ({
            let n = finish_phase(finish_phase(s, t1, t2), t3, t4);
            &&& n.wf()
            &&& n.running()
            &&& n.info.current_phase == Phase::Busy
            &&& n.position == (s.position + 1) % 4
        }),
{
}

proof fn lemma_rounds(s: SchedulerModel, k: nat, times: spec_fn(nat) -> u64)
    requires
        s.wf(),
        s.running(),
        s.info.current_phase == Phase::Busy,
    ensures
        ({
            let r = finish_phases(s, 2 * k, times);
            &&& r.wf()
            &&& r.running()
            &&& r.config == s.config
            &&& r.info.current_phase == Phase::Busy
            &&& r.position == (s.position + k) % 4
        }),
    decreases k,
{
    if k > 0 {
        let j = (k - 1) as nat;
        lemma_rounds(s, j, times);
        let r = finish_phases(s, 2 * j, times);
        assert(2 * k - 1 == 2 * j + 1);
        assert(finish_phases(s, 2 * j + 1, times) == finish_phase(r, times(4 * j), times(4 * j + 1)));
        assert(finish_phases(s, 2 * k, times) == finish_phase(
            finish_phases(s, 2 * j + 1, times),
            times(4 * j + 2),
            times(4 * j + 3),
        ));
        lemma_set_order(r, times(4 * j), times(4 * j + 1), times(4 * j + 2), times(4 * j + 3));
    }
}

/// A set of four Busy phases and their breaks repeats: after eight finished
/// phases the scheduler runs the same phase at the same position again.
pub proof fn lemma_set_repeats(s: SchedulerModel, times: spec_fn(nat) -> u64)
    requires
        s.wf(),
        s.running(),
        s.info.current_phase == Phase::Busy,
    ensures
        ({
            let r = finish_phases(s, 8, times);
            &&& r.wf()
            &&& r.running()
            &&& r.position == s.position
            &&& r.info.current_phase == s.info.current_phase
            &&& r.info.next_phase == s.info.next_phase
        }),
{
    lemma_rounds(s, 4, times);
}

/// The phase changes on exactly one event: an acknowledgment while a
/// transition is pending. It then starts the announced phase with nothing
/// pending, so the next transition needs an acknowledgment of its own. Every
/// published snapshot is the new state.
pub proof fn lemma_one_acknowledgment_per_transition(s: SchedulerModel, e: Event, now: u64)
    requires
        s.wf(),
    ensures
        next_model(s, e, now).wf(),
        next_model(s, e, now).info.current_phase != s.info.current_phase <==> (!s.running() && e
            == Event::Action(ControlAction::Acknowledge)),
        (!s.running() && e == Event::Action(ControlAction::Acknowledge)) ==> {
            &&& next_model(s, e, now).running()
            &&& next_model(s, e, now).info.current_phase == s.info.next_phase
            &&& next_model(s, e, now).info.phase_started_at == now
        },
        decision(s, e, now) matches Some(d) ==> d.publish == next_model(s, e, now).info,
{
}

/// While a transition is pending, snoozes and elapsed announcement intervals
/// leave the state as it is; each elapsed interval re-publishes the pending
/// transition and waits one more interval. The first acknowledgment after
/// them starts the announced phase.
pub proof fn lemma_escalation_until_acknowledged(
    s: SchedulerModel,
    events: Seq<Event>,
    times: spec_fn(nat) -> u64,
    ack_at: u64,
)
    requires
        s.wf(),
        !s.running(),
        forall|i: int|
            0 <= i < events.len() ==> #[trigger] events[i] == Event::Action(ControlAction::Snooze)
                || events[i] == Event::RemindElapsed,
    ensures
        forall|i: int| 0 <= i <= events.len() ==> run(s, #[trigger] events.take(i), times) == s,
        forall|i: int|
            0 <= i < events.len() ==> #[trigger] decision(s, events[i], times(i as nat)) == if events[i]
                == Event::RemindElapsed {
                Some(announcement(s, false))
            } else {
                None::<Directive>
            },
        announcement(s, false).publish.needs_acknowledgment,
        announcement(s, false).publish.next_phase == s.info.next_phase,
        announcement(s, false).wait == (Wait::Acknowledgment {
            remind_millis: s.config.spec_remind_millis() as u64,
        }),
        next_model(run(s, events, times), Event::Action(ControlAction::Acknowledge), ack_at).running(),
        next_model(
            run(s, events, times),
            Event::Action(ControlAction::Acknowledge),
            ack_at,
        ).info.current_phase == s.info.next_phase,
{
    assert forall|i: int| 0 <= i <= events.len() implies run(s, #[trigger] events.take(i), times)
        == s by {
        lemma_run_unchanged(s, events, times, i);
    }
    assert(events.take(events.len() as int) == events);
}

proof fn lemma_run_unchanged(s: SchedulerModel, events: Seq<Event>, times: spec_fn(nat) -> u64, i: int)
    requires
        s.wf(),
        !s.running(),
        0 <= i <= events.len(),
        forall|j: int|
            0 <= j < events.len() ==> #[trigger] events[j] == Event::Action(ControlAction::Snooze)
                || events[j] == Event::RemindElapsed,
    ensures
        run(s, events.take(i), times) == s,
    decreases i,
{
    if i > 0 {
        lemma_run_unchanged(s, events, times, i - 1);
        assert(events.take(i).drop_last() == events.take(i - 1));
        assert(events.take(i).last() == events[i - 1]);
    }
}

/// The owner of the phase state machine.
pub struct Scheduler {
    config: Config,
    position: u8,
    info: CycleInfo,
}

impl View for Scheduler {
    type V = SchedulerModel;

    closed spec fn view(&self) -> SchedulerModel {
        SchedulerModel { config: self.config, position: self.position, info: self.info }
    }
}

impl Scheduler {
    pub open spec fn wf(&self) -> bool {
        self@.wf()
    }

    /// Starts the cycle at `now`: Busy at position zero, with nothing to
    /// acknowledge. The directive publishes that state and holds for the
    /// Busy duration.
    pub fn new(config: Config, now: u64) -> (r: (Scheduler, Directive))
        requires
            config.wf(),
        ensures
            r.0@ == initial_model(config, now),
            r.0.wf(),
            r.1 == hold(initial_model(config, now)),
    {
        let info = CycleInfo {
            current_phase: Phase::Busy,
            next_phase: Phase::ShortBreak,
            needs_acknowledgment: false,
            phase_started_at: now,
        };
        let millis = config.phase_millis(Phase::Busy);
        let s = Scheduler { config, position: 0, info };
        (s, Directive { publish: info, drain_stale_actions: false, wait: Wait::Hold { millis } })
    }

    /// The snapshot last published.
    pub fn info(&self) -> (r: CycleInfo)
        ensures
            r == self@.info,
    {
        self.info
    }

    /// Takes in what ended the last wait and decides what to do next.
    pub fn step(&mut self, e: Event, now: u64) -> (r: Option<Directive>)
        requires
            old(self).wf(),
        ensures
            final(self)@ == next_model(old(self)@, e, now),
            final(self).wf(),
            r == decision(old(self)@, e, now),
    {
        proof {
            lemma_next_model_wf(self@, e, now);
        }
        if !self.info.needs_acknowledgment {
            match e {
                Event::HoldElapsed => {
                    self.info = CycleInfo { needs_acknowledgment: true, ..self.info };
                    Some(self.announce(true))
                },
                _ => None,
            }
        } else {
            match e {
                Event::Action(ControlAction::Acknowledge) => {
                    self.begin_next(now);
                    let millis = self.config.phase_millis(self.info.current_phase);
                    Some(
                        Directive {
                            publish: self.info,
                            drain_stale_actions: false,
                            wait: Wait::Hold { millis },
                        },
                    )
                },
                Event::RemindElapsed => Some(self.announce(false)),
                _ => None,
            }
        }
    }

    fn announce(&self, drain: bool) -> (r: Directive)
        requires
            self.wf(),
        ensures
            r == announcement(self@, drain),
    {
        let remind_millis = self.config.remind_millis();
        Directive {
            publish: self.info,
            drain_stale_actions: drain,
            wait: Wait::Acknowledgment { remind_millis },
        }
    }

    fn begin_next(&mut self, now: u64)
        requires
            old(self).wf(),
        ensures
            final(self)@ == begin_next_phase(old(self)@, now),
    {
        if self.info.next_phase == Phase::Busy {
            let p: u8 = (self.position + 1) % 4;
            self.position = p;
            self.info = CycleInfo {
                current_phase: Phase::Busy,
                next_phase: break_after_position(p),
                needs_acknowledgment: false,
                phase_started_at: now,
            };
        } else {
            self.info = CycleInfo {
                current_phase: self.info.next_phase,
                next_phase: Phase::Busy,
                needs_acknowledgment: false,
                phase_started_at: now,
            };
        }
    }
}

} // verus!
