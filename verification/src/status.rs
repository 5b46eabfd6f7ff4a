//! The states of a service, and the statuses that it reports to the SCM.
use vstd::prelude::*;

verus! {

/// The state of a service as the SCM reports it.
#[derive(Clone, Copy, Debug, PartialEq, Eq, Structural)]
pub enum ServiceState {
    Stopped,
    StartPending,
    StopPending,
    Running,
    ContinuePending,
    PausePending,
    Paused,
}

/// The word for a state in messages.
pub open spec fn state_word(state: ServiceState) -> Seq<char> {
    match state {
        ServiceState::Stopped => "Stopped"@,
        ServiceState::StartPending => "StartPending"@,
        ServiceState::StopPending => "StopPending"@,
        ServiceState::Running => "Running"@,
        ServiceState::ContinuePending => "ContinuePending"@,
        ServiceState::PausePending => "PausePending"@,
        ServiceState::Paused => "Paused"@,
    }
}

impl ServiceState {
    /// The word for the state in messages.
    pub fn name(self) -> (name: &'static str)
        ensures
            name@ == state_word(self),
    {
        match self {
            ServiceState::Stopped => "Stopped",
            ServiceState::StartPending => "StartPending",
            ServiceState::StopPending => "StopPending",
            ServiceState::Running => "Running",
            ServiceState::ContinuePending => "ContinuePending",
            ServiceState::PausePending => "PausePending",
            ServiceState::Paused => "Paused",
        }
    }
}

/// How a service shares its process.
#[derive(Clone, Copy, Debug, PartialEq, Eq, Structural)]
pub enum ServiceType {
    OwnProcess,
}

/// The controls that a service takes.
#[derive(Clone, Copy, Debug, PartialEq, Eq, Structural)]
pub struct ServiceControlAccept {
    pub stop: bool,
    pub shutdown: bool,
}

impl ServiceControlAccept {
    /// No control at all.
    pub fn empty() -> (accepted: Self)
        ensures
            accepted == (ServiceControlAccept { stop: false, shutdown: false }),
    {
        ServiceControlAccept { stop: false, shutdown: false }
    }
}

/// The exit code of a service: one of the system's, or one of its own.
#[derive(Clone, Copy, Debug, PartialEq, Eq, Structural)]
pub enum ServiceExitCode {
    Win32(u32),
    ServiceSpecific(u32),
}

impl ServiceExitCode {
    /// The exit code of a clean stop.
    pub fn no_error() -> (code: Self)
        ensures
            code == ServiceExitCode::Win32(0),
    {
        ServiceExitCode::Win32(0)
    }
}

/// The exit code of a failed run. A stop with `Win32(0)` reads to the SCM as a
/// clean shutdown, after which it takes no recovery action.
pub fn service_failure_exit() -> (code: ServiceExitCode)
    ensures
        code == ServiceExitCode::ServiceSpecific(1),
        code != ServiceExitCode::Win32(0),
{
    ServiceExitCode::ServiceSpecific(1)
}

/// What a service tells the SCM about itself.
#[derive(Clone, Copy, Debug, PartialEq, Eq, Structural)]
pub struct ServiceStatus {
    pub service_type: ServiceType,
    pub current_state: ServiceState,
    pub controls_accepted: ServiceControlAccept,
    pub exit_code: ServiceExitCode,
    pub checkpoint: u32,
    pub wait_hint_secs: u64,
    pub process_id: Option<u32>,
}

/// The status of a service that is well, without a checkpoint.
pub open spec fn status_of(
    state: ServiceState,
    accepted: ServiceControlAccept,
    wait_hint_secs: u64,
) -> ServiceStatus {
    ServiceStatus {
        service_type: ServiceType::OwnProcess,
        current_state: state,
        controls_accepted: accepted,
        exit_code: ServiceExitCode::Win32(0),
        checkpoint: 0,
        wait_hint_secs,
        process_id: None,
    }
}

/// The status of a service that is well, without a checkpoint.
pub fn service_status(
    state: ServiceState,
    accepted: ServiceControlAccept,
    wait_hint_secs: u64,
) -> (status: ServiceStatus)
    ensures
        status == status_of(state, accepted, wait_hint_secs),
{
    ServiceStatus {
        service_type: ServiceType::OwnProcess,
        current_state: state,
        controls_accepted: accepted,
        exit_code: ServiceExitCode::no_error(),
        checkpoint: 0,
        wait_hint_secs,
        process_id: None,
    }
}

/// Each state has its own word, and no two states share one.
pub proof fn law_state_words_are_spelled_out(state: ServiceState, other: ServiceState)
    ensures
        state_word(ServiceState::Stopped) == "Stopped"@,
        state_word(ServiceState::StartPending) == "StartPending"@,
        state_word(ServiceState::StopPending) == "StopPending"@,
        state_word(ServiceState::Running) == "Running"@,
        state_word(ServiceState::ContinuePending) == "ContinuePending"@,
        state_word(ServiceState::PausePending) == "PausePending"@,
        state_word(ServiceState::Paused) == "Paused"@,
        state_word(state) == state_word(other) ==> state == other,
{
    reveal_strlit("Stopped");
    reveal_strlit("StartPending");
    reveal_strlit("StopPending");
    reveal_strlit("Running");
    reveal_strlit("ContinuePending");
    reveal_strlit("PausePending");
    reveal_strlit("Paused");
    if state_word(state) == state_word(other) {
        let w = state_word(state);
        let v = state_word(other);
        assert(w.len() == v.len() && w[0] == v[0] && w[2] == v[2]);
    }
}

/// A status says what it was given, and of everything else that the service is
/// well: its own process, the exit code of success, no checkpoint, no process.
pub proof fn law_status_keeps_what_it_is_given(
    state: ServiceState,
    accepted: ServiceControlAccept,
    wait_hint_secs: u64,
)
    ensures
        ({
            let status = status_of(state, accepted, wait_hint_secs);
            &&& status.current_state == state
            &&& status.controls_accepted == accepted
            &&& status.wait_hint_secs == wait_hint_secs
            &&& status.service_type == ServiceType::OwnProcess
            &&& status.exit_code == ServiceExitCode::Win32(0)
            &&& status.checkpoint == 0
            &&& status.process_id is None
        }),
{
}

} // verus!
