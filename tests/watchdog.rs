use virsh_persist::state::WatchdogError;
use virsh_persist::watchdog::{Command, Event, Phase, Watchdog, DEFAULT_POLL_MS, DEFAULT_TIMEOUT_MS};

/// A hypervisor and clock in memory, recording every command performed.
struct Fake {
    defined: bool,
    state: u32,
    now: u64,
    cancel_pending: bool,
    /// Clock reading at which a graceful shutdown takes effect, if it ever does.
    settles_after: Option<u64>,
    shutdown_at: Option<u64>,
    log: Vec<Command>,
}

impl Fake {
    fn new(defined: bool, state: u32) -> Fake {
        Fake { defined, state, now: 0, cancel_pending: false, settles_after: Some(3000), shutdown_at: None, log: Vec::new() }
    }

    fn perform(&mut self, c: Command) -> Event {
        self.log.push(c);
        if let Some(t) = self.shutdown_at {
            if let Some(d) = self.settles_after {
                if self.now >= t + d {
                    self.state = 5;
                }
            }
        }
        match c {
            Command::LookUp => Event::Found(self.defined),
            Command::Define => {
                self.defined = true;
                self.state = 5;
                Event::Defined(true)
            }
            Command::CheckCancel => Event::Cancel(std::mem::replace(&mut self.cancel_pending, false)),
            Command::QueryState => Event::State(Some(self.state)),
            Command::Start => {
                self.state = 1;
                Event::Done(true)
            }
            Command::Resume => {
                self.state = 1;
                Event::Done(true)
            }
            Command::Sleep(ms) => {
                self.now += ms;
                Event::Done(true)
            }
            Command::ShutdownGraceful => {
                self.shutdown_at = Some(self.now);
                self.state = 4;
                Event::Done(true)
            }
            Command::ReadClock => {
                self.now += 500;
                Event::Clock(self.now)
            }
            Command::DestroyForced => {
                self.state = 5;
                Event::Done(true)
            }
            Command::Release | Command::Close => Event::Done(true),
            Command::Exit(_) => panic!("exit has no outcome"),
        }
    }

    /// Runs the watchdog until it asks to sleep `sleeps` more times, or exits.
    fn run(&mut self, w: &mut Watchdog, sleeps: usize) {
        let mut left = sleeps;
        loop {
            let c = w.pending();
            if let Command::Exit(_) = c {
                return;
            }
            if let Command::Sleep(_) = c {
                if left == 0 {
                    return;
                }
                left -= 1;
            }
            let e = self.perform(c);
            assert!(w.step(e));
        }
    }

    fn count(&self, c: Command) -> usize {
        self.log.iter().filter(|x| **x == c).count()
    }
}

#[test]
fn missing_instance_is_defined_then_started_and_kept() {
    let mut w = Watchdog::new(DEFAULT_POLL_MS, DEFAULT_TIMEOUT_MS);
    let mut f = Fake::new(false, 0);
    f.run(&mut w, 0);
    assert_eq!(f.log, vec![Command::LookUp, Command::Define, Command::LookUp, Command::CheckCancel, Command::LookUp, Command::QueryState, Command::Start]);
    assert_eq!(f.state, 1);
    f.log.clear();
    f.run(&mut w, 3);
    assert_eq!(f.count(Command::Define), 0);
    assert_eq!(f.count(Command::Start), 0);
    assert_eq!(f.count(Command::Resume), 0);
    assert_eq!(f.count(Command::QueryState), 3);
    f.state = 6;
    f.log.clear();
    f.run(&mut w, 1);
    assert_eq!(f.log, vec![Command::Sleep(DEFAULT_POLL_MS), Command::CheckCancel, Command::LookUp, Command::QueryState, Command::Start]);
    assert_eq!(f.state, 1);
}

#[test]
fn graceful_shutdown_without_force() {
    let mut w = Watchdog::new(DEFAULT_POLL_MS, DEFAULT_TIMEOUT_MS);
    let mut f = Fake::new(true, 1);
    f.run(&mut w, 1);
    f.cancel_pending = true;
    f.log.clear();
    f.run(&mut w, 10);
    assert_eq!(w.pending(), Command::Exit(None));
    assert_eq!(f.count(Command::ShutdownGraceful), 1);
    assert_eq!(f.count(Command::DestroyForced), 0);
    assert_eq!(f.count(Command::Release), 1);
    assert_eq!(f.count(Command::Close), 1);
    assert_eq!(f.state, 5);
    assert_eq!(f.count(Command::Sleep(DEFAULT_POLL_MS)), 1);
}

#[test]
fn shutdown_escalates_once_after_timeout() {
    let mut w = Watchdog::new(DEFAULT_POLL_MS, DEFAULT_TIMEOUT_MS);
    let mut f = Fake::new(true, 1);
    f.settles_after = None;
    f.cancel_pending = true;
    f.run(&mut w, 10);
    assert_eq!(w.pending(), Command::Exit(None));
    assert_eq!(f.count(Command::ShutdownGraceful), 1);
    assert_eq!(f.count(Command::DestroyForced), 1);
    assert_eq!(f.count(Command::Release), 1);
    assert_eq!(f.count(Command::Close), 1);
    assert!(f.now >= DEFAULT_TIMEOUT_MS);
}

#[test]
fn deadline_is_timeout_after_timer_start() {
    let mut w = Watchdog::new(100, 2000);
    w.phase = Phase::StartingTimer;
    assert!(w.step(Event::Clock(700)));
    assert_eq!(w.deadline_ms, 2700);
    assert_eq!(w.pending(), Command::QueryState);
    assert!(w.step(Event::State(Some(4))));
    assert_eq!(w.pending(), Command::ReadClock);
    assert!(w.step(Event::Clock(2699)));
    assert_eq!(w.pending(), Command::QueryState);
    assert!(w.step(Event::State(None)));
    assert!(w.step(Event::Clock(2700)));
    assert_eq!(w.pending(), Command::DestroyForced);
    assert!(w.step(Event::Done(false)));
    assert_eq!(w.pending(), Command::Release);
}

#[test]
fn deadline_saturates() {
    let mut w = Watchdog::new(100, 2000);
    w.phase = Phase::StartingTimer;
    assert!(w.step(Event::Clock(u64::MAX - 5)));
    assert_eq!(w.deadline_ms, u64::MAX);
}

#[test]
fn crashed_instance_settles_shutdown() {
    let mut w = Watchdog::new(100, 2000);
    w.phase = Phase::Probing;
    assert!(w.step(Event::State(Some(6))));
    assert_eq!(w.pending(), Command::Release);
}

#[test]
fn unknown_state_during_shutdown_still_releases() {
    let mut w = Watchdog::new(100, 2000);
    w.phase = Phase::Probing;
    assert!(w.step(Event::State(Some(99))));
    assert_eq!(w.pending(), Command::Release);
    assert!(w.step(Event::Done(false)));
    assert_eq!(w.pending(), Command::Close);
    assert!(w.step(Event::Done(true)));
    assert_eq!(w.pending(), Command::Exit(Some(WatchdogError::UnknownState)));
}

#[test]
fn defined_instance_is_never_redefined() {
    let mut w = Watchdog::new(DEFAULT_POLL_MS, DEFAULT_TIMEOUT_MS);
    let mut f = Fake::new(true, 1);
    f.run(&mut w, 2);
    assert_eq!(f.count(Command::LookUp), 4);
    assert_eq!(f.count(Command::Define), 0);
}

#[test]
fn cancellation_during_cycle_seen_after_its_sleep() {
    let mut w = Watchdog::new(DEFAULT_POLL_MS, DEFAULT_TIMEOUT_MS);
    let mut f = Fake::new(true, 1);
    f.run(&mut w, 1);
    // Mid-cycle: the check has passed, the sleep is next.
    assert_eq!(w.pending(), Command::Sleep(DEFAULT_POLL_MS));
    f.cancel_pending = true;
    let e = f.perform(w.pending());
    assert!(w.step(e));
    assert_eq!(w.pending(), Command::CheckCancel);
    let e = f.perform(w.pending());
    assert!(w.step(e));
    assert_eq!(w.pending(), Command::ShutdownGraceful);
}

#[test]
fn fatal_errors_exit_at_once() {
    let mut w = Watchdog::new(1, 1);
    assert!(w.step(Event::Found(false)));
    assert!(w.step(Event::Defined(false)));
    assert_eq!(w.pending(), Command::Exit(Some(WatchdogError::Define)));

    let mut w = Watchdog::new(1, 1);
    w.phase = Phase::Querying;
    assert!(w.step(Event::State(None)));
    assert_eq!(w.pending(), Command::Exit(Some(WatchdogError::StateQuery)));

    let mut w = Watchdog::new(1, 1);
    w.phase = Phase::Querying;
    assert!(w.step(Event::State(Some(8))));
    assert_eq!(w.pending(), Command::Exit(Some(WatchdogError::UnknownState)));

    let mut w = Watchdog::new(1, 1);
    w.phase = Phase::Querying;
    assert!(w.step(Event::State(Some(3))));
    assert_eq!(w.pending(), Command::Resume);
    assert!(w.step(Event::Done(false)));
    assert_eq!(w.pending(), Command::Exit(Some(WatchdogError::Transition)));
}

#[test]
fn definition_is_confirmed_by_second_lookup() {
    let mut w = Watchdog::new(1, 1);
    assert!(w.step(Event::Found(false)));
    assert_eq!(w.pending(), Command::Define);
    assert!(w.step(Event::Defined(true)));
    assert_eq!(w.pending(), Command::LookUp);
    assert!(w.step(Event::Found(false)));
    assert_eq!(w.pending(), Command::Exit(Some(WatchdogError::Define)));
}

#[test]
fn mismatched_event_is_refused() {
    let mut w = Watchdog::new(1, 1);
    assert!(!w.step(Event::Done(true)));
    assert_eq!(w.pending(), Command::LookUp);
    w.phase = Phase::Exited;
    assert!(!w.step(Event::Done(true)));
    assert_eq!(w.pending(), Command::Exit(None));
}
