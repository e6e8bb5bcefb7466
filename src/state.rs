//! Runtime states of an instance and the corrective action for each.
use vstd::prelude::*;

verus! {

/// The runtime state that the hypervisor reports for an instance.
#[derive(Debug, Clone, Copy, PartialEq, Eq, Structural)]
pub enum DomainState {
    NoState,
    Running,
    Blocked,
    Paused,
    ShuttingDown,
    Shutoff,
    Crashed,
    PMSuspended,
}

/// Every way in which the watchdog can fail.
#[derive(Debug, Clone, Copy, PartialEq, Eq, Structural)]
pub enum WatchdogError {
    /// Wrong number of command-line arguments.
    Usage,
    /// The descriptor file is missing or unreadable.
    Input,
    /// The descriptor holds no instance identifier.
    Parse,
    /// The hypervisor connection could not be opened.
    Connection,
    /// The hypervisor refused to define the instance.
    Define,
    /// The instance's state could not be queried.
    StateQuery,
    /// A start or resume command failed.
    Transition,
    /// The hypervisor reported a state code outside the known set.
    UnknownState,
}

/// The corrective command that one reconciliation issues.
#[derive(Debug, Clone, Copy, PartialEq, Eq, Structural)]
pub enum Correction {
    Nothing,
    Start,
    Resume,
}

/// The state that a numeric hypervisor state code stands for.
pub open spec fn state_of_code(code: u32) -> Option<DomainState> {
    if code == 0 {
        Some(DomainState::NoState)
    } else if code == 1 {
        Some(DomainState::Running)
    } else if code == 2 {
        Some(DomainState::Blocked)
    } else if code == 3 {
        Some(DomainState::Paused)
    } else if code == 4 {
        Some(DomainState::ShuttingDown)
    } else if code == 5 {
        Some(DomainState::Shutoff)
    } else if code == 6 {
        Some(DomainState::Crashed)
    } else if code == 7 {
        Some(DomainState::PMSuspended)
    } else {
        None
    }
}

/// The reconciliation table: what to do on observing each state.
pub open spec fn correction_of(s: DomainState) -> Correction {
    match s {
        DomainState::Running | DomainState::ShuttingDown => Correction::Nothing,
        DomainState::Blocked | DomainState::Paused => Correction::Resume,
        DomainState::NoState | DomainState::Shutoff | DomainState::Crashed
        | DomainState::PMSuspended => Correction::Start,
    }
}

/// A state in which a stopping instance has come to rest.
pub open spec fn settled(s: DomainState) -> bool {
    s == DomainState::Shutoff || s == DomainState::Crashed
}

impl DomainState {
    /// Reads a hypervisor state code; a code outside the known set is an error.
    pub fn from_code(code: u32) -> (r: Result<DomainState, WatchdogError>)
        ensures
            state_of_code(code) matches Some(s) ==> r == Ok::<DomainState, WatchdogError>(s),
            state_of_code(code) is None ==> r == Err::<DomainState, WatchdogError>(
                WatchdogError::UnknownState,
            ),
    {
        match code {
            0 => Ok(DomainState::NoState),
            1 => Ok(DomainState::Running),
            2 => Ok(DomainState::Blocked),
            3 => Ok(DomainState::Paused),
            4 => Ok(DomainState::ShuttingDown),
            5 => Ok(DomainState::Shutoff),
            6 => Ok(DomainState::Crashed),
            7 => Ok(DomainState::PMSuspended),
            _ => Err(WatchdogError::UnknownState),
        }
    }

    /// The corrective command that reconciling this state issues.
    pub fn correction(&self) -> (r: Correction)
        ensures
            r == correction_of(*self),
    {
        match self {
            DomainState::Running | DomainState::ShuttingDown => Correction::Nothing,
            DomainState::Blocked | DomainState::Paused => Correction::Resume,
            DomainState::NoState | DomainState::Shutoff | DomainState::Crashed
            | DomainState::PMSuspended => Correction::Start,
        }
    }

    /// Whether a stopping instance has come to rest in this state.
    pub fn is_settled(&self) -> (r: bool)
        ensures
            r == settled(*self),
    {
        match self {
            DomainState::Shutoff | DomainState::Crashed => true,
            _ => false,
        }
    }
}

/// What reconciling a state reading leads to: the corrective command, or the
/// fatal error. `None` stands for a failed state query.
pub open spec fn reconcile_of(reading: Option<u32>) -> Result<Correction, WatchdogError> {
    match reading {
        None => Err(WatchdogError::StateQuery),
        Some(code) => match state_of_code(code) {
            None => Err(WatchdogError::UnknownState),
            Some(s) => Ok(correction_of(s)),
        },
    }
}

/// Decides, from the latest state reading alone, the one corrective command
/// to issue. `None` stands for a failed state query.
pub fn reconcile(reading: Option<u32>) -> (r: Result<Correction, WatchdogError>)
    ensures
        r == reconcile_of(reading),
{
    match reading {
        None => Err(WatchdogError::StateQuery),
        Some(code) => match DomainState::from_code(code) {
            Err(err) => Err(err),
            Ok(s) => Ok(s.correction()),
        },
    }
}

/// Checks the command line: exactly one argument, the descriptor's path,
/// after the program's own name.
pub fn descriptor_path(args: &Vec<String>) -> (r: Result<String, WatchdogError>)
    ensures
        args@.len() == 2 ==> r == Ok::<String, WatchdogError>(args@[1]),
        args@.len() != 2 ==> r == Err::<String, WatchdogError>(WatchdogError::Usage),
{
    if args.len() != 2 {
        return Err(WatchdogError::Usage);
    }
    Ok(args[1].clone())
}

/// The process exit status for an outcome: zero for success, one for any error.
pub fn exit_status(fault: Option<WatchdogError>) -> (r: i32)
    ensures
        fault is None <==> r == 0,
        fault is Some <==> r == 1,
{
    match fault {
        None => 0,
        Some(_) => 1,
    }
}

/// Every state outside `Running`, `Blocked`, `Paused` and `ShuttingDown`
/// is corrected by a start, and `Blocked` and `Paused` by a resume: each
/// state that is not left alone gets exactly one corrective command.
pub proof fn lemma_one_correction_per_deviation(s: DomainState)
    ensures
        s != DomainState::Running && s != DomainState::Blocked && s != DomainState::Paused
            && s != DomainState::ShuttingDown ==> correction_of(s) == Correction::Start,
        s == DomainState::Blocked || s == DomainState::Paused ==> correction_of(s)
            == Correction::Resume,
        s == DomainState::Running || s == DomainState::ShuttingDown ==> correction_of(s)
            == Correction::Nothing,
{
}

} // verus!
