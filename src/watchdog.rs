//! The watchdog loop and its shutdown sequence as one state machine.
//!
//! The machine never touches the hypervisor itself. Each phase has one
//! pending command; the driver performs it and hands the outcome back as an
//! event, from which the machine decides the next phase.
use vstd::prelude::*;
use crate::state::{
    correction_of, reconcile, settled, state_of_code, Correction, DomainState, WatchdogError,
};

verus! {

/// Default pause between two reconciliation cycles, in milliseconds.
pub const DEFAULT_POLL_MS: u64 = 5000;

/// Default time a graceful shutdown is given before a forced stop, in milliseconds.
pub const DEFAULT_TIMEOUT_MS: u64 = 10000;

/// Where the watchdog stands. `startup` marks the making sure of the
/// instance that runs once, before the first cycle.
#[derive(Debug, Clone, Copy, PartialEq, Eq, Structural)]
pub enum Phase {
    /// Looking the instance up by its identifier.
    LookingUp { startup: bool },
    /// Defining the instance from its configuration.
    Defining { startup: bool },
    /// Looking the freshly defined instance up again.
    Confirming { startup: bool },
    /// Checking, without blocking, whether cancellation was requested.
    CheckingCancel,
    /// Querying the instance's state to reconcile it.
    Querying,
    Starting,
    Resuming,
    /// Pausing for one poll interval.
    Sleeping,
    /// Asking the instance to shut down gracefully.
    RequestingShutdown,
    /// Reading the clock to fix the shutdown deadline.
    StartingTimer,
    /// Querying the state of the stopping instance.
    Probing,
    /// Reading the clock against the shutdown deadline.
    Polling,
    /// Forcing the instance off.
    Destroying,
    /// Releasing the handle.
    Releasing,
    /// Closing the connection.
    Closing,
    Exited,
}

/// What the driver must do next.
#[derive(Debug, Clone, Copy, PartialEq, Eq, Structural)]
pub enum Command {
    LookUp,
    Define,
    CheckCancel,
    QueryState,
    Start,
    Resume,
    /// Sleep for this many milliseconds.
    Sleep(u64),
    ShutdownGraceful,
    ReadClock,
    DestroyForced,
    Release,
    Close,
    /// Stop the process: success, or the fatal error.
    Exit(Option<WatchdogError>),
}

/// The outcome of a command, as the driver reports it.
#[derive(Debug, Clone, Copy, PartialEq, Eq, Structural)]
pub enum Event {
    /// Whether a cancellation event was waiting.
    Cancel(bool),
    /// Whether the lookup found the instance.
    Found(bool),
    /// Whether the definition succeeded.
    Defined(bool),
    /// The state code read, or `None` when the query failed.
    State(Option<u32>),
    /// Whether a start, resume, shutdown, destroy, release, close or sleep succeeded.
    Done(bool),
    /// A monotonic clock reading, in milliseconds.
    Clock(u64),
}

/// The watchdog's whole state.
#[derive(Debug, Clone, Copy)]
pub struct Watchdog {
    pub phase: Phase,
    /// Pause between cycles, in milliseconds.
    pub poll_ms: u64,
    /// Time a graceful shutdown is given, in milliseconds.
    pub timeout_ms: u64,
    /// Clock reading at which the graceful shutdown is given up.
    pub deadline_ms: u64,
    /// The error the process will exit with, if any.
    pub fault: Option<WatchdogError>,
}

/// The command pending in the watchdog's phase.
pub open spec fn command_of(w: Watchdog) -> Command {
    match w.phase {
        Phase::LookingUp { .. } | Phase::Confirming { .. } => Command::LookUp,
        Phase::Defining { .. } => Command::Define,
        Phase::CheckingCancel => Command::CheckCancel,
        Phase::Querying | Phase::Probing => Command::QueryState,
        Phase::Starting => Command::Start,
        Phase::Resuming => Command::Resume,
        Phase::Sleeping => Command::Sleep(w.poll_ms),
        Phase::RequestingShutdown => Command::ShutdownGraceful,
        Phase::StartingTimer | Phase::Polling => Command::ReadClock,
        Phase::Destroying => Command::DestroyForced,
        Phase::Releasing => Command::Release,
        Phase::Closing => Command::Close,
        Phase::Exited => Command::Exit(w.fault),
    }
}

/// Whether event `e` is an outcome of the command pending in phase `p`.
pub open spec fn answers(p: Phase, e: Event) -> bool {
    match p {
        Phase::LookingUp { .. } | Phase::Confirming { .. } => e is Found,
        Phase::Defining { .. } => e is Defined,
        Phase::CheckingCancel => e is Cancel,
        Phase::Querying | Phase::Probing => e is State,
        Phase::StartingTimer | Phase::Polling => e is Clock,
        Phase::Exited => false,
        _ => e is Done,
    }
}

/// The phase after the instance is known to exist.
pub open spec fn after_defined(startup: bool) -> Phase {
    if startup {
        Phase::CheckingCancel
    } else {
        Phase::Querying
    }
}

/// The steady-state phase that reconciling an observed state code leads to.
pub open spec fn after_query(code: u32) -> Phase {
    match state_of_code(code) {
        None => Phase::Exited,
        Some(s) => match correction_of(s) {
            Correction::Nothing => Phase::Sleeping,
            Correction::Start => Phase::Starting,
            Correction::Resume => Phase::Resuming,
        },
    }
}

/// The watchdog after a fatal error.
pub open spec fn failed(w: Watchdog, err: WatchdogError) -> Watchdog {
    Watchdog { phase: Phase::Exited, fault: Some(err), ..w }
}

/// The watchdog in phase `p`, all else kept.
pub open spec fn moved(w: Watchdog, p: Phase) -> Watchdog {
    Watchdog { phase: p, ..w }
}

/// One transition of the machine on an event that answers the pending command.
pub open spec fn next(w: Watchdog, e: Event) -> Watchdog {
    match (w.phase, e) {
        (Phase::LookingUp { startup }, Event::Found(true)) => moved(w, after_defined(startup)),
        (Phase::LookingUp { startup }, Event::Found(false)) => moved(
            w,
            Phase::Defining { startup },
        ),
        (Phase::Defining { startup }, Event::Defined(true)) => moved(
            w,
            Phase::Confirming { startup },
        ),
        (Phase::Defining { .. }, Event::Defined(false)) => failed(w, WatchdogError::Define),
        (Phase::Confirming { startup }, Event::Found(true)) => moved(w, after_defined(startup)),
        (Phase::Confirming { .. }, Event::Found(false)) => failed(w, WatchdogError::Define),
        (Phase::CheckingCancel, Event::Cancel(true)) => moved(w, Phase::RequestingShutdown),
        (Phase::CheckingCancel, Event::Cancel(false)) => moved(
            w,
            Phase::LookingUp { startup: false },
        ),
        (Phase::Querying, Event::State(None)) => failed(w, WatchdogError::StateQuery),
        (Phase::Querying, Event::State(Some(code))) => if state_of_code(code) is None {
            failed(w, WatchdogError::UnknownState)
        } else {
            moved(w, after_query(code))
        },
        (Phase::Starting, Event::Done(ok)) | (Phase::Resuming, Event::Done(ok)) => if ok {
            moved(w, Phase::Sleeping)
        } else {
            failed(w, WatchdogError::Transition)
        },
        (Phase::Sleeping, Event::Done(_)) => moved(w, Phase::CheckingCancel),
        (Phase::RequestingShutdown, Event::Done(_)) => moved(w, Phase::StartingTimer),
        (Phase::StartingTimer, Event::Clock(now)) => Watchdog {
            phase: Phase::Probing,
            deadline_ms: if now + w.timeout_ms <= u64::MAX {
                (now + w.timeout_ms) as u64
            } else {
                u64::MAX
            },
            ..w
        },
        (Phase::Probing, Event::State(Some(code))) => match state_of_code(code) {
            None => Watchdog {
                phase: Phase::Releasing,
                fault: Some(WatchdogError::UnknownState),
                ..w
            },
            Some(s) => if settled(s) {
                moved(w, Phase::Releasing)
            } else {
                moved(w, Phase::Polling)
            },
        },
        (Phase::Probing, Event::State(None)) => moved(w, Phase::Polling),
        (Phase::Polling, Event::Clock(now)) => if now >= w.deadline_ms {
            moved(w, Phase::Destroying)
        } else {
            moved(w, Phase::Probing)
        },
        (Phase::Destroying, Event::Done(_)) => moved(w, Phase::Releasing),
        (Phase::Releasing, Event::Done(_)) => moved(w, Phase::Closing),
        (Phase::Closing, Event::Done(_)) => moved(w, Phase::Exited),
        _ => w,
    }
}

/// Whether the recorded error agrees with the phase: an error is held only
/// once the watchdog is on its way out.
pub open spec fn well_formed(w: Watchdog) -> bool {
    w.fault is Some ==> (w.phase == Phase::Releasing || w.phase == Phase::Closing || w.phase
        == Phase::Exited)
}

/// The phases of the reconciliation cycle, before any cancellation.
pub open spec fn steady(p: Phase) -> bool {
    p is LookingUp || p is Defining || p is Confirming || p == Phase::CheckingCancel || p
        == Phase::Querying || p == Phase::Starting || p == Phase::Resuming || p == Phase::Sleeping
}

/// Every transition keeps the recorded error in agreement with the phase.
pub proof fn lemma_next_well_formed(w: Watchdog, e: Event)
    requires
        well_formed(w),
    ensures
        well_formed(next(w, e)),
{
}

/// The reconciliation cycle never forces a stop, releases the handle or
/// closes the connection: only a cancellation leads there, through the
/// graceful shutdown request.
pub proof fn lemma_steady_cycle_keeps_resources(w: Watchdog, e: Event)
    requires
        steady(w.phase),
        answers(w.phase, e),
    ensures
        steady(next(w, e).phase) || next(w, e).phase == Phase::RequestingShutdown || next(
            w,
            e,
        ).phase == Phase::Exited,
        command_of(next(w, e)) != Command::DestroyForced,
        command_of(next(w, e)) != Command::Release,
        command_of(next(w, e)) != Command::Close,
        next(w, e).phase == Phase::RequestingShutdown ==> w.phase == Phase::CheckingCancel && e
            == Event::Cancel(true),
{
}

/// Whether the shutdown sequence has begun and no forced stop has been issued yet.
pub open spec fn awaiting_shutdown(p: Phase) -> bool {
    p == Phase::RequestingShutdown || p == Phase::StartingTimer || p == Phase::Probing || p
        == Phase::Polling
}

/// Whether the watchdog is past every point at which it could force a stop.
pub open spec fn winding_up(p: Phase) -> bool {
    p == Phase::Destroying || p == Phase::Releasing || p == Phase::Closing || p == Phase::Exited
}

/// How many forced stops the machine issues while it takes the events of
/// `evs` in order, up to the first one that does not answer its command.
pub open spec fn destroys_in_run(w: Watchdog, evs: Seq<Event>) -> nat
    decreases evs.len(),
{
    if evs.len() == 0 || !answers(w.phase, evs[0]) {
        0
    } else {
        let w2 = next(w, evs[0]);
        (if command_of(w2) == Command::DestroyForced {
            1nat
        } else {
            0nat
        }) + destroys_in_run(w2, evs.drop_first())
    }
}

/// Reconciling a state other than `Running`, `Blocked`, `Paused` and
/// `ShuttingDown` issues a start; `Blocked` and `Paused` a resume; and once
/// that one command succeeds the cycle goes straight to its sleep.
pub proof fn lemma_reconcile_issues_one_command(w: Watchdog, code: u32)
    requires
        w.phase == Phase::Querying,
        state_of_code(code) is Some,
    ensures
        ({
            let s = state_of_code(code)->0;
            let w1 = next(w, Event::State(Some(code)));
            &&& s != DomainState::Running && s != DomainState::Blocked && s != DomainState::Paused
                && s != DomainState::ShuttingDown ==> command_of(w1) == Command::Start
            &&& s == DomainState::Blocked || s == DomainState::Paused ==> command_of(w1)
                == Command::Resume
            &&& s == DomainState::Running || s == DomainState::ShuttingDown ==> command_of(w1)
                == Command::Sleep(w.poll_ms)
            &&& command_of(w1) == Command::Start || command_of(w1) == Command::Resume
                ==> command_of(next(w1, Event::Done(true))) == Command::Sleep(w.poll_ms)
        }),
{
}

/// Making sure of an instance that is already defined never defines it, in
/// any cycle, however many times in succession it is done.
pub proof fn lemma_defined_instance_is_not_redefined(w: Watchdog, startup: bool)
    requires
        w.phase == (Phase::LookingUp { startup }),
    ensures
        command_of(next(w, Event::Found(true))) != Command::Define,
        next(w, Event::Found(true)).phase == after_defined(startup),
        !startup ==> command_of(next(w, Event::Found(true))) == Command::QueryState,
{
}

/// Every sleep between cycles is followed at once by a cancellation check,
/// and a cancellation found there starts the graceful shutdown at once: no
/// second poll interval passes before it is acted upon.
pub proof fn lemma_cancellation_seen_next_cycle(w: Watchdog, e: Event)
    requires
        w.phase == Phase::Sleeping,
        answers(w.phase, e),
    ensures
        command_of(next(w, e)) == Command::CheckCancel,
        command_of(next(next(w, e), Event::Cancel(true))) == Command::ShutdownGraceful,
{
}

/// Once a forced stop has been issued, or the handle is being released, no
/// further forced stop follows.
pub proof fn lemma_no_destroy_when_winding_up(w: Watchdog, evs: Seq<Event>)
    requires
        winding_up(w.phase),
    ensures
        destroys_in_run(w, evs) == 0,
    decreases evs.len(),
{
    if evs.len() > 0 && answers(w.phase, evs[0]) {
        lemma_no_destroy_when_winding_up(next(w, evs[0]), evs.drop_first());
    }
}

/// From the shutdown request on, the forced stop is issued at most once,
/// whatever the instance and the clock do.
pub proof fn lemma_destroy_at_most_once(w: Watchdog, evs: Seq<Event>)
    requires
        awaiting_shutdown(w.phase),
    ensures
        destroys_in_run(w, evs) <= 1,
    decreases evs.len(),
{
    if evs.len() > 0 && answers(w.phase, evs[0]) {
        let w2 = next(w, evs[0]);
        if awaiting_shutdown(w2.phase) {
            lemma_destroy_at_most_once(w2, evs.drop_first());
        } else {
            lemma_no_destroy_when_winding_up(w2, evs.drop_first());
        }
    }
}

/// When the deadline has passed before the instance settles, the next
/// clock reading issues the forced stop.
pub proof fn lemma_deadline_forces_stop(w: Watchdog, now: u64)
    requires
        w.phase == Phase::Polling,
        now >= w.deadline_ms,
    ensures
        command_of(next(w, Event::Clock(now))) == Command::DestroyForced,
        destroys_in_run(w, seq![Event::Clock(now)]) == 1,
{
    let evs = seq![Event::Clock(now)];
    assert(evs[0] == Event::Clock(now));
    assert(destroys_in_run(next(w, Event::Clock(now)), evs.drop_first()) == 0);
}

/// When the instance is seen `Shutoff` or `Crashed` while the deadline has
/// not passed, the handle is released and no forced stop is ever issued.
pub proof fn lemma_settled_never_destroyed(w: Watchdog, code: u32, evs: Seq<Event>)
    requires
        w.phase == Phase::Probing,
        state_of_code(code) matches Some(s) && settled(s),
    ensures
        command_of(next(w, Event::State(Some(code)))) == Command::Release,
        destroys_in_run(w, seq![Event::State(Some(code))] + evs) == 0,
{
    let all = seq![Event::State(Some(code))] + evs;
    assert(all[0] == Event::State(Some(code)));
    assert(all.drop_first() =~= evs);
    lemma_no_destroy_when_winding_up(next(w, Event::State(Some(code))), evs);
}

/// The watchdog after taking the first `i` events of `evs` in order.
pub open spec fn run_to(w: Watchdog, evs: Seq<Event>, i: nat) -> Watchdog
    decreases i,
{
    if i == 0 || evs.len() == 0 {
        w
    } else {
        run_to(next(w, evs[0]), evs.drop_first(), (i - 1) as nat)
    }
}

/// Whether each of the first `i` events of `evs` answers the command pending
/// when it arrives.
pub open spec fn answered_upto(w: Watchdog, evs: Seq<Event>, i: nat) -> bool
    decreases i,
{
    i == 0 || (evs.len() > 0 && answers(w.phase, evs[0]) && answered_upto(
        next(w, evs[0]),
        evs.drop_first(),
        (i - 1) as nat,
    ))
}

/// How many sleeps the machine asks for while it takes the events of `evs`
/// in order, before it next asks for a cancellation check.
pub open spec fn sleeps_before_check(w: Watchdog, evs: Seq<Event>) -> nat
    decreases evs.len(),
{
    if evs.len() == 0 || !answers(w.phase, evs[0]) {
        0
    } else {
        let w2 = next(w, evs[0]);
        if command_of(w2) == Command::CheckCancel {
            0
        } else {
            (if command_of(w2) is Sleep {
                1nat
            } else {
                0nat
            }) + sleeps_before_check(w2, evs.drop_first())
        }
    }
}

proof fn lemma_winding_up_stays(w: Watchdog, evs: Seq<Event>, i: nat)
    requires
        winding_up(w.phase),
    ensures
        winding_up(run_to(w, evs, i).phase),
    decreases i,
{
    if i > 0 && evs.len() > 0 {
        lemma_winding_up_stays(next(w, evs[0]), evs.drop_first(), (i - 1) as nat);
    }
}

/// From the shutdown request on, if a clock reading at or past the deadline
/// arrives while the instance has not settled, the forced stop is issued, and
/// issued exactly once over the whole run.
pub proof fn lemma_timeout_destroys_exactly_once(
    w: Watchdog,
    evs: Seq<Event>,
    i: nat,
    now: u64,
)
    requires
        awaiting_shutdown(w.phase),
        answered_upto(w, evs, i),
        i < evs.len(),
        run_to(w, evs, i).phase == Phase::Polling,
        evs[i as int] == Event::Clock(now),
        now >= run_to(w, evs, i).deadline_ms,
    ensures
        destroys_in_run(w, evs) == 1,
    decreases i,
{
    let w2 = next(w, evs[0]);
    if i == 0 {
        lemma_no_destroy_when_winding_up(w2, evs.drop_first());
    } else {
        if winding_up(w2.phase) {
            lemma_winding_up_stays(w2, evs.drop_first(), (i - 1) as nat);
        }
        assert(evs.drop_first()[i - 1] == evs[i as int]);
        lemma_timeout_destroys_exactly_once(w2, evs.drop_first(), (i - 1) as nat, now);
    }
}

/// From the shutdown request on, if the instance is seen `Shutoff` or
/// `Crashed` while the machine waits, no forced stop is issued at any point
/// of the run.
pub proof fn lemma_settling_never_destroys(w: Watchdog, evs: Seq<Event>, i: nat, code: u32)
    requires
        awaiting_shutdown(w.phase),
        answered_upto(w, evs, i),
        i < evs.len(),
        run_to(w, evs, i).phase == Phase::Probing,
        evs[i as int] == Event::State(Some(code)),
        state_of_code(code) matches Some(s) && settled(s),
    ensures
        destroys_in_run(w, evs) == 0,
    decreases i,
{
    let w2 = next(w, evs[0]);
    if i == 0 {
        lemma_no_destroy_when_winding_up(w2, evs.drop_first());
    } else {
        if winding_up(w2.phase) {
            lemma_winding_up_stays(w2, evs.drop_first(), (i - 1) as nat);
        }
        assert(evs.drop_first()[i - 1] == evs[i as int]);
        lemma_settling_never_destroys(w2, evs.drop_first(), (i - 1) as nat, code);
    }
}

proof fn lemma_no_sleep_in_shutdown(w: Watchdog, evs: Seq<Event>)
    requires
        awaiting_shutdown(w.phase) || winding_up(w.phase),
    ensures
        sleeps_before_check(w, evs) == 0,
    decreases evs.len(),
{
    if evs.len() > 0 && answers(w.phase, evs[0]) {
        lemma_no_sleep_in_shutdown(next(w, evs[0]), evs.drop_first());
    }
}

/// Wherever a cancellation arrives in a cycle, at most one poll interval is
/// slept before the next cancellation check, whatever the hypervisor answers.
pub proof fn lemma_at_most_one_sleep_before_check(w: Watchdog, evs: Seq<Event>)
    requires
        steady(w.phase),
    ensures
        sleeps_before_check(w, evs) <= 1,
    decreases evs.len(),
{
    if evs.len() > 0 && answers(w.phase, evs[0]) {
        let w2 = next(w, evs[0]);
        if command_of(w2) != Command::CheckCancel {
            if steady(w2.phase) {
                if w2.phase == Phase::Sleeping {
                    let rest = evs.drop_first();
                    if rest.len() > 0 && answers(w2.phase, rest[0]) {
                        assert(command_of(next(w2, rest[0])) == Command::CheckCancel);
                    }
                } else {
                    lemma_at_most_one_sleep_before_check(w2, evs.drop_first());
                }
            } else {
                lemma_no_sleep_in_shutdown(w2, evs.drop_first());
            }
        }
    }
}

impl Watchdog {
    /// A watchdog about to make sure the instance is defined, before its first cycle.
    pub fn new(poll_ms: u64, timeout_ms: u64) -> (r: Watchdog)
        ensures
            r.phase == (Phase::LookingUp { startup: true }),
            r.poll_ms == poll_ms,
            r.timeout_ms == timeout_ms,
            r.fault is None,
            well_formed(r),
    {
        Watchdog {
            phase: Phase::LookingUp { startup: true },
            poll_ms,
            timeout_ms,
            deadline_ms: 0,
            fault: None,
        }
    }

    /// The command the driver must perform now.
    pub fn pending(&self) -> (r: Command)
        ensures
            r == command_of(*self),
    {
        match self.phase {
            Phase::LookingUp { .. } | Phase::Confirming { .. } => Command::LookUp,
            Phase::Defining { .. } => Command::Define,
            Phase::CheckingCancel => Command::CheckCancel,
            Phase::Querying | Phase::Probing => Command::QueryState,
            Phase::Starting => Command::Start,
            Phase::Resuming => Command::Resume,
            Phase::Sleeping => Command::Sleep(self.poll_ms),
            Phase::RequestingShutdown => Command::ShutdownGraceful,
            Phase::StartingTimer | Phase::Polling => Command::ReadClock,
            Phase::Destroying => Command::DestroyForced,
            Phase::Releasing => Command::Release,
            Phase::Closing => Command::Close,
            Phase::Exited => Command::Exit(self.fault),
        }
    }

    /// Whether `e` is an outcome of the pending command.
    pub fn accepts(&self, e: &Event) -> (r: bool)
        ensures
            r == answers(self.phase, *e),
    {
        match self.phase {
            Phase::LookingUp { .. } | Phase::Confirming { .. } => matches!(e, Event::Found(_)),
            Phase::Defining { .. } => matches!(e, Event::Defined(_)),
            Phase::CheckingCancel => matches!(e, Event::Cancel(_)),
            Phase::Querying | Phase::Probing => matches!(e, Event::State(_)),
            Phase::StartingTimer | Phase::Polling => matches!(e, Event::Clock(_)),
            Phase::Exited => false,
            _ => matches!(e, Event::Done(_)),
        }
    }
    /// Takes the outcome of the pending command and moves to the next phase.
    /// An event that does not answer the pending command is refused and
    /// changes nothing.
    pub fn step(&mut self, e: Event) -> (accepted: bool)
        ensures
            accepted == answers(old(self).phase, e),
            accepted ==> *final(self) == next(*old(self), e),
            !accepted ==> *final(self) == *old(self),
            well_formed(*old(self)) ==> well_formed(*final(self)),
    {
        if !self.accepts(&e) {
            return false;
        }
        proof {
            if well_formed(*self) {
                lemma_next_well_formed(*self, e);
            }
        }
        match (self.phase, e) {
            (Phase::LookingUp { startup }, Event::Found(found)) => {
                self.phase = if found {
                    Self::after_defined(startup)
                } else {
                    Phase::Defining { startup }
                };
            },
            (Phase::Defining { startup }, Event::Defined(ok)) => {
                if ok {
                    self.phase = Phase::Confirming { startup };
                } else {
                    self.fail(WatchdogError::Define);
                }
            },
            (Phase::Confirming { startup }, Event::Found(found)) => {
                if found {
                    self.phase = Self::after_defined(startup);
                } else {
                    self.fail(WatchdogError::Define);
                }
            },
            (Phase::CheckingCancel, Event::Cancel(cancelled)) => {
                self.phase = if cancelled {
                    Phase::RequestingShutdown
                } else {
                    Phase::LookingUp { startup: false }
                };
            },
            (Phase::Querying, Event::State(reading)) => match reconcile(reading) {
                Err(err) => self.fail(err),
                Ok(c) => {
                    self.phase = match c {
                        Correction::Nothing => Phase::Sleeping,
                        Correction::Start => Phase::Starting,
                        Correction::Resume => Phase::Resuming,
                    };
                },
            },
            (Phase::Starting, Event::Done(ok)) | (Phase::Resuming, Event::Done(ok)) => {
                if ok {
                    self.phase = Phase::Sleeping;
                } else {
                    self.fail(WatchdogError::Transition);
                }
            },
            (Phase::Sleeping, _) => {
                self.phase = Phase::CheckingCancel;
            },
            (Phase::RequestingShutdown, _) => {
                self.phase = Phase::StartingTimer;
            },
            (Phase::StartingTimer, Event::Clock(now)) => {
                self.deadline_ms = now.saturating_add(self.timeout_ms);
                self.phase = Phase::Probing;
            },
            (Phase::Probing, Event::State(reading)) => match reading {
                None => {
                    self.phase = Phase::Polling;
                },
                Some(code) => match DomainState::from_code(code) {
                    Err(err) => {
                        self.fault = Some(err);
                        self.phase = Phase::Releasing;
                    },
                    Ok(s) => {
                        self.phase = if s.is_settled() {
                            Phase::Releasing
                        } else {
                            Phase::Polling
                        };
                    },
                },
            },
            (Phase::Polling, Event::Clock(now)) => {
                self.phase = if now >= self.deadline_ms {
                    Phase::Destroying
                } else {
                    Phase::Probing
                };
            },
            (Phase::Destroying, _) => {
                self.phase = Phase::Releasing;
            },
            (Phase::Releasing, _) => {
                self.phase = Phase::Closing;
            },
            (Phase::Closing, _) => {
                self.phase = Phase::Exited;
            },
            _ => {},
        }
        true
    }

    fn after_defined(startup: bool) -> (p: Phase)
        ensures
            p == after_defined(startup),
    {
        if startup {
            Phase::CheckingCancel
        } else {
            Phase::Querying
        }
    }

    fn fail(&mut self, err: WatchdogError)
        ensures
            *final(self) == failed(*old(self), err),
    {
        self.phase = Phase::Exited;
        self.fault = Some(err);
    }
}

} // verus!
