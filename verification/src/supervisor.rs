use vstd::prelude::*;

use crate::config::Config;
use crate::error::StartupError;

verus! {

/// Folds the outcome of installing the process interrupt handler into the
/// startup result: the handler is the only clean-shutdown path, so the
/// host must not run unsupervised, and a failed registration (`Some`
/// detail) is a fatal startup error.
pub fn interrupt_registration(outcome: Option<String>) -> (r: Result<(), StartupError>)
    ensures
        outcome is None <==> r is Ok,
        outcome matches Some(d) ==> (r matches Err(e) && e matches StartupError::InterruptHandler(
            m,
        ) && m@ == d@),
{
    match outcome {
        None => Ok(()),
        Some(detail) => Err(StartupError::InterruptHandler(detail)),
    }
}

/// The lifecycle of one background service thread. Every service moves
/// only forward: `Starting -> Running -> Stopping -> Terminated`, and the
/// only path from `Running` to `Stopping` is observing the host's exit
/// flag.
#[derive(Debug, Clone, Copy, PartialEq, Eq, Structural)]
pub enum ServiceState {
    Starting,
    Running,
    Stopping,
    Terminated,
}

/// The independent long-running services one instance supervises: the
/// synchronization service, the cache service, and the HTTP frontend when
/// it is configured.
#[derive(Debug, Clone, Copy, PartialEq, Eq, Structural)]
pub enum ServiceKind {
    Sync,
    Cache,
    Http,
}

/// The services to start for a configuration, in start order: the
/// synchronization and cache services always, the HTTP frontend only when
/// an HTTP section is configured. Join order equals this start order.
pub fn planned_services(config: &Config) -> (r: Vec<ServiceKind>)
    ensures
        config.http is Some ==> r@ == seq![
            ServiceKind::Sync,
            ServiceKind::Cache,
            ServiceKind::Http,
        ],
        config.http is None ==> r@ == seq![ServiceKind::Sync, ServiceKind::Cache],
{
    let mut r: Vec<ServiceKind> = Vec::new();
    r.push(ServiceKind::Sync);
    r.push(ServiceKind::Cache);
    if config.http.is_some() {
        r.push(ServiceKind::Http);
        proof {
            assert(r@ =~= seq![ServiceKind::Sync, ServiceKind::Cache, ServiceKind::Http]);
        }
    } else {
        proof {
            assert(r@ =~= seq![ServiceKind::Sync, ServiceKind::Cache]);
        }
    }
    r
}

/// One observation step of a service: a starting service comes up, a
/// running service keeps running until the exit flag is observed set, a
/// stopping service finishes, and a terminated service stays terminated.
pub open spec fn step_spec(s: ServiceState, exit_requested: bool) -> ServiceState {
    match s {
        ServiceState::Starting => ServiceState::Running,
        ServiceState::Running => if exit_requested {
            ServiceState::Stopping
        } else {
            ServiceState::Running
        },
        ServiceState::Stopping => ServiceState::Terminated,
        ServiceState::Terminated => ServiceState::Terminated,
    }
}

pub fn service_step(s: ServiceState, exit_requested: bool) -> (r: ServiceState)
    ensures
        r == step_spec(s, exit_requested),
{
    match s {
        ServiceState::Starting => ServiceState::Running,
        ServiceState::Running => if exit_requested {
            ServiceState::Stopping
        } else {
            ServiceState::Running
        },
        ServiceState::Stopping => ServiceState::Terminated,
        ServiceState::Terminated => ServiceState::Terminated,
    }
}

/// Steps every supervised service through one observation of the exit
/// flag, preserving start order.
pub fn step_services(states: &Vec<ServiceState>, exit_requested: bool) -> (r: Vec<ServiceState>)
    ensures
        r@.len() == states@.len(),
        forall|i: int| 0 <= i < states@.len() ==> r@[i] == step_spec(states@[i], exit_requested),
{
    let mut r: Vec<ServiceState> = Vec::new();
    let mut i: usize = 0;
    while i < states.len()
        invariant
            i <= states@.len(),
            r@.len() == i,
            forall|j: int| 0 <= j < i ==> r@[j] == step_spec(states@[j], exit_requested),
        decreases states@.len() - i,
    {
        r.push(service_step(states[i], exit_requested));
        i = i + 1;
    }
    r
}

/// The supervisor's goal state: every service joined after reaching
/// `Terminated`.
pub open spec fn all_terminated(s: Seq<ServiceState>) -> bool {
    forall|i: int| 0 <= i < s.len() ==> s[i] is Terminated
}

/// Once the exit flag is set it stays set, so every service, from whatever
/// state the interrupt found it in, reaches `Terminated` within three
/// further observations of the flag, and no service ever leaves
/// `Terminated` again: shutdown leaves no thread unjoined.
pub proof fn lemma_exit_drives_termination(s: ServiceState)
    ensures
        step_spec(step_spec(step_spec(s, true), true), true) is Terminated,
        s is Terminated ==> step_spec(s, true) is Terminated,
{
}

} // verus!
