//! The operations on an installed service, one request at a time.
//!
//! Each operation opens a [`Session`]. A session says what is to be done next;
//! the driver does it and hands the reply to [`Session::step`], until there is
//! an outcome.
use vstd::prelude::*;

use crate::error::{Context, Refusal, ServiceError};
use crate::location;
use crate::location::{
    admin_only_root_variables, warn_unless_binary_is_admin_only, warn_unless_config_is_admin_only,
    write_binary_warning, write_config_warning,
};
use crate::names;
use crate::names::{display_name, launch_arguments, service_name};
use crate::policy;
use crate::policy::{failure_actions, require_system_scope, RestartPolicy, ServiceScope};
use crate::request::{
    Reply, Request, ServiceAccess, ServiceErrorControl, ServiceInfo, ServiceManagerAccess,
    ServiceStartType,
};
use crate::request::{ReplyView, RequestView, ServiceInfoView};
use crate::status;
use crate::status::{ServiceState, ServiceType};
use crate::wide::WideText;

verus! {

/// How long a stopping service is waited for, in seconds.
pub const STOP_POLL_TIMEOUT_SECS: u64 = 60;

/// How long to wait: whole seconds, and the nanoseconds of a part of a second on
/// top of them.
#[derive(Clone, Copy, Debug, PartialEq, Eq, Structural)]
pub struct Timeout {
    pub secs: u64,
    pub nanos: u32,
}

/// How long the operations wait for a stopping service.
pub open spec fn stop_poll_timeout() -> Timeout {
    Timeout { secs: STOP_POLL_TIMEOUT_SECS, nanos: 0 }
}

/// How long to sleep between two looks at a stopping service, in milliseconds.
pub const STOP_POLL_INTERVAL_MILLIS: u64 = 100;

/// What an operation is to achieve.
#[derive(Clone, Copy, Debug, PartialEq, Eq, Structural)]
pub enum Goal {
    Install,
    Uninstall,
    Start,
    Stop,
    /// Stop first; from then on the goal is `Start`.
    Restart,
    Status,
}

/// What is said at the end of an operation.
#[derive(Clone, Copy, Debug, PartialEq, Eq, Structural)]
pub enum Notice {
    Installed,
    Uninstalled,
    State(ServiceState),
}

/// How far an operation has come: each stage but the last waits for the reply
/// to one request.
#[derive(Debug)]
pub enum Stage<E> {
    ResolveBinary,
    CheckBinary,
    WarnBinary,
    CheckConfig,
    WarnConfig,
    OpenManager,
    CreateService,
    SetRecovery,
    EnableRecovery,
    StartCreated,
    /// A half-created service would block the next install with a name
    /// conflict: it is removed before the error is handed on.
    RollBack { error: ServiceError<E> },
    WarnRollBack { error: ServiceError<E>, cause: E },
    OpenService,
    QueryBeforeStop,
    SendStop,
    StartClock,
    PollState { started: u128 },
    PollClock { started: u128, last: ServiceState },
    PollSleep { started: u128 },
    Delete,
    StartService,
    QueryStatus,
    Announce { notice: Notice },
    Finished { outcome: Result<(), ServiceError<E>> },
}

/// One operation on the service of one role.
#[derive(Debug)]
pub struct Session<E> {
    role: String,
    goal: Goal,
    config: WideText,
    binary: WideText,
    timeout: Timeout,
    stage: Stage<E>,
}

/// The contents of a session. Only an installation has a configuration, and an
/// executable once that has been found.
pub struct SessionView<E> {
    pub role: Seq<char>,
    pub goal: Goal,
    pub config: Seq<u16>,
    pub binary: Seq<u16>,
    pub timeout: Timeout,
    pub stage: Stage<E>,
}

impl<E> View for Session<E> {
    type V = SessionView<E>;

    closed spec fn view(&self) -> SessionView<E> {
        SessionView {
            role: self.role@,
            goal: self.goal,
            config: self.config@,
            binary: self.binary@,
            timeout: self.timeout,
            stage: self.stage,
        }
    }
}

// ---------------------------------------------------------------------------
// Requests
// ---------------------------------------------------------------------------

/// The rights on the SCM that a goal takes.
pub open spec fn manager_access(goal: Goal) -> ServiceManagerAccess {
    ServiceManagerAccess { connect: true, create_service: goal == Goal::Install }
}

/// The rights on the service that a goal takes.
pub open spec fn service_access(goal: Goal) -> ServiceAccess {
    let stops = goal == Goal::Uninstall || goal == Goal::Stop || goal == Goal::Restart;
    ServiceAccess {
        query_status: stops || goal == Goal::Status,
        start: goal == Goal::Install || goal == Goal::Start,
        stop: stops,
        change_config: goal == Goal::Install,
        delete: goal == Goal::Install || goal == Goal::Uninstall,
    }
}

/// The database entry for the service of `role`.
pub open spec fn service_info(
    role: Seq<char>,
    binary: Seq<u16>,
    config: Seq<u16>,
) -> ServiceInfoView {
    ServiceInfoView {
        name: names::service_name_of(role),
        display_name: names::display_name_of(role),
        service_type: ServiceType::OwnProcess,
        start_type: ServiceStartType::AutoStart,
        error_control: ServiceErrorControl::Normal,
        executable_path: binary,
        launch_arguments: names::launch_arguments_of(role, config),
        dependencies: seq![],
        account_name: None,
        account_password: None,
    }
}

/// The line that a notice becomes.
pub open spec fn notice_line(notice: Notice, role: Seq<char>) -> Seq<char> {
    match notice {
        Notice::Installed => "installed and started "@ + names::service_name_of(role),
        Notice::Uninstalled => "uninstalled "@ + names::service_name_of(role),
        Notice::State(state) => names::service_name_of(role) + ": "@ + status::state_word(state),
    }
}

/// The line that stands in front of the cause where a half-created service
/// could not be removed.
pub open spec fn roll_back_warning(role: Seq<char>) -> Seq<char> {
    "warning: could not remove the partly created service "@ + names::service_name_of(role) + ": "@
}

/// The outcome of a session, once it is finished.
pub open spec fn concluded<E>(s: SessionView<E>) -> Option<Result<(), ServiceError<E>>> {
    match s.stage {
        Stage::Finished { outcome } => Some(outcome),
        _ => None,
    }
}

/// What a session asks for: `None` once it is finished.
pub open spec fn requested<E>(s: SessionView<E>) -> Option<RequestView<E>> {
    match s.stage {
        Stage::ResolveBinary => Some(RequestView::ResolveBinary),
        Stage::CheckBinary => Some(RequestView::ReadVariables(location::root_variables())),
        Stage::WarnBinary => Some(RequestView::Warn(location::binary_warning(s.binary))),
        Stage::CheckConfig => Some(RequestView::ReadVariables(location::root_variables())),
        Stage::WarnConfig => Some(RequestView::Warn(location::config_warning(s.config))),
        Stage::OpenManager => Some(RequestView::OpenManager(manager_access(s.goal))),
        Stage::CreateService => Some(
            RequestView::CreateService(
                service_info(s.role, s.binary, s.config),
                service_access(s.goal),
            ),
        ),
        Stage::SetRecovery => Some(
            RequestView::UpdateFailureActions(policy::failure_actions_of(policy::default_policy())),
        ),
        Stage::EnableRecovery => Some(
            RequestView::SetFailureActionsOnNonCrashFailures(policy::default_policy().on_failure),
        ),
        Stage::StartCreated => Some(RequestView::StartService),
        Stage::RollBack { .. } => Some(RequestView::DeleteService),
        Stage::WarnRollBack { cause, .. } => Some(
            RequestView::WarnCause(roll_back_warning(s.role), cause),
        ),
        Stage::OpenService => Some(
            RequestView::OpenService(names::service_name_of(s.role), service_access(s.goal)),
        ),
        Stage::QueryBeforeStop => Some(RequestView::QueryStatus),
        Stage::SendStop => Some(RequestView::StopService),
        Stage::StartClock => Some(RequestView::ReadClock),
        Stage::PollState { .. } => Some(RequestView::QueryStatus),
        Stage::PollClock { .. } => Some(RequestView::ReadClock),
        Stage::PollSleep { .. } => Some(RequestView::Sleep(STOP_POLL_INTERVAL_MILLIS)),
        Stage::Delete => Some(RequestView::DeleteService),
        Stage::StartService => Some(RequestView::StartService),
        Stage::QueryStatus => Some(RequestView::QueryStatus),
        Stage::Announce { notice } => Some(RequestView::Print(notice_line(notice, s.role))),
        Stage::Finished { .. } => None,
    }
}

fn manager(goal: Goal) -> (access: ServiceManagerAccess)
    ensures
        access == manager_access(goal),
{
    ServiceManagerAccess { connect: true, create_service: goal == Goal::Install }
}

fn access(goal: Goal) -> (access: ServiceAccess)
    ensures
        access == service_access(goal),
{
    let stops: bool = goal == Goal::Uninstall || goal == Goal::Stop || goal == Goal::Restart;
    ServiceAccess {
        query_status: stops || goal == Goal::Status,
        start: goal == Goal::Install || goal == Goal::Start,
        stop: stops,
        change_config: goal == Goal::Install,
        delete: goal == Goal::Install || goal == Goal::Uninstall,
    }
}

fn entry(role: &str, binary: &WideText, config: &WideText) -> (info: ServiceInfo)
    ensures
        info@ == service_info(role@, binary@, config@),
{
    let info = ServiceInfo {
        name: service_name(role),
        display_name: display_name(role),
        service_type: ServiceType::OwnProcess,
        start_type: ServiceStartType::AutoStart,
        error_control: ServiceErrorControl::Normal,
        executable_path: binary.copy(),
        launch_arguments: launch_arguments(role, config),
        dependencies: Vec::new(),
        account_name: None,
        account_password: None,
    };
    assert(info@.dependencies =~= seq![]);
    info
}

fn line(notice: Notice, role: &str) -> (line: String)
    ensures
        line@ == notice_line(notice, role@),
{
    match notice {
        Notice::Installed => "installed and started ".to_string().concat(
            service_name(role).as_str(),
        ),
        Notice::Uninstalled => "uninstalled ".to_string().concat(service_name(role).as_str()),
        Notice::State(state) => service_name(role).concat(": ").concat(state.name()),
    }
}

// ---------------------------------------------------------------------------
// Replies
// ---------------------------------------------------------------------------

/// The context of a failure at a stage; `None` where the stage asks for
/// nothing that can fail.
pub open spec fn failure_context<E>(goal: Goal, stage: Stage<E>) -> Option<Option<Context>> {
    match stage {
        Stage::ResolveBinary => Some(None),
        Stage::OpenManager => Some(Some(Context::OpenManager)),
        Stage::CreateService => Some(Some(Context::CreateService)),
        Stage::SetRecovery => Some(Some(Context::SetRecovery)),
        Stage::EnableRecovery => Some(Some(Context::EnableRecovery)),
        Stage::StartCreated => Some(Some(Context::StartCreated)),
        Stage::OpenService => Some(
            Some(
                if goal == Goal::Status {
                    Context::OpenServiceForStatus
                } else {
                    Context::OpenService
                },
            ),
        ),
        Stage::QueryBeforeStop => Some(None),
        Stage::SendStop => Some(Some(Context::StopService)),
        Stage::PollState { .. } => Some(Some(Context::QueryWhileStopping)),
        Stage::Delete => Some(Some(Context::DeleteService)),
        Stage::StartService => Some(Some(Context::StartService)),
        Stage::QueryStatus => Some(Some(Context::QueryStatus)),
        _ => None,
    }
}

/// Whether, at this stage, a service has been created but not yet brought up.
pub open spec fn half_created<E>(stage: Stage<E>) -> bool {
    stage is SetRecovery || stage is EnableRecovery || stage is StartCreated
}

/// Where a failure leads: to the end, but by way of a removal where a service
/// has been half created. A failed removal is only warned about.
pub open spec fn after_failure<E>(goal: Goal, stage: Stage<E>, e: E) -> Stage<E> {
    match failure_context(goal, stage) {
        Some(context) => {
            let error = ServiceError::Failed { context, source: e };
            if half_created(stage) {
                Stage::RollBack { error }
            } else {
                Stage::Finished { outcome: Err(error) }
            }
        },
        None => match stage {
            Stage::RollBack { error } => Stage::WarnRollBack { error, cause: e },
            _ => stage,
        },
    }
}

/// Where it leads that a request was carried out. A stage that waits for
/// something else stays.
pub open spec fn after_done<E>(goal: Goal, stage: Stage<E>) -> Stage<E> {
    match stage {
        Stage::WarnBinary => Stage::CheckConfig,
        Stage::WarnConfig => Stage::OpenManager,
        Stage::OpenManager => if goal == Goal::Install {
            Stage::CreateService
        } else {
            Stage::OpenService
        },
        Stage::CreateService => Stage::SetRecovery,
        Stage::SetRecovery => Stage::EnableRecovery,
        Stage::EnableRecovery => Stage::StartCreated,
        Stage::StartCreated => Stage::Announce { notice: Notice::Installed },
        Stage::RollBack { error } => Stage::Finished { outcome: Err(error) },
        Stage::WarnRollBack { error, .. } => Stage::Finished { outcome: Err(error) },
        Stage::OpenService => match goal {
            Goal::Start => Stage::StartService,
            Goal::Status => Stage::QueryStatus,
            _ => Stage::QueryBeforeStop,
        },
        Stage::SendStop => Stage::StartClock,
        Stage::PollSleep { started } => Stage::PollState { started },
        Stage::Delete => Stage::Announce { notice: Notice::Uninstalled },
        Stage::StartService => Stage::Finished { outcome: Ok(()) },
        Stage::Announce { .. } => Stage::Finished { outcome: Ok(()) },
        _ => stage,
    }
}

/// Where it leads that the service has stopped.
pub open spec fn after_stop<E>(goal: Goal) -> (Goal, Stage<E>) {
    match goal {
        Goal::Uninstall => (Goal::Uninstall, Stage::Delete),
        Goal::Restart => (Goal::Start, Stage::OpenManager),
        _ => (goal, Stage::Finished { outcome: Ok(()) }),
    }
}

/// Where a reported state leads. A service that is already stopping is sent no
/// second stop control.
pub open spec fn after_state<E>(
    goal: Goal,
    stage: Stage<E>,
    state: ServiceState,
) -> (Goal, Stage<E>) {
    match stage {
        Stage::QueryBeforeStop => if state == ServiceState::Stopped {
            after_stop(goal)
        } else if state == ServiceState::StopPending {
            (goal, Stage::StartClock)
        } else {
            (goal, Stage::SendStop)
        },
        Stage::PollState { started } => if state == ServiceState::Stopped {
            after_stop(goal)
        } else {
            (goal, Stage::PollClock { started, last: state })
        },
        Stage::QueryStatus => (goal, Stage::Announce { notice: Notice::State(state) }),
        _ => (goal, stage),
    }
}

/// Whether, at `now`, a wait that began at `started` is over.
pub open spec fn time_is_up(timeout: Timeout, started: u128, now: u128) -> bool {
    now >= started + timeout.secs * 1_000_000_000 + timeout.nanos
}

/// Where a reading of the clock leads.
pub open spec fn after_clock<E>(timeout: Timeout, stage: Stage<E>, now: u128) -> Stage<E> {
    match stage {
        Stage::StartClock => Stage::PollState { started: now },
        Stage::PollClock { started, last } => if time_is_up(timeout, started, now) {
            Stage::Finished {
                outcome: Err(
                    ServiceError::Refused(
                        Refusal::StopTimeout { seconds: timeout.secs, last },
                    ),
                ),
            }
        } else {
            Stage::PollSleep { started }
        },
        _ => stage,
    }
}

/// Where the directories that only an administrator can write to lead: to a
/// warning, where a file is outside of all of them.
pub open spec fn after_variables<E>(
    s: SessionView<E>,
    values: Seq<Option<Seq<u16>>>,
) -> Stage<E> {
    let roots = location::present(values);
    match s.stage {
        Stage::CheckBinary => if location::under_any(s.binary, roots) {
            Stage::CheckConfig
        } else {
            Stage::WarnBinary
        },
        Stage::CheckConfig => if location::under_any(s.config, roots) {
            Stage::OpenManager
        } else {
            Stage::WarnConfig
        },
        _ => s.stage,
    }
}

/// The session after a reply. A reply that does not answer the request changes
/// nothing: the same request is made again.
pub open spec fn advance<E>(s: SessionView<E>, reply: ReplyView<E>) -> SessionView<E> {
    match reply {
        ReplyView::Done => SessionView { stage: after_done(s.goal, s.stage), ..s },
        ReplyView::Failed(e) => SessionView { stage: after_failure(s.goal, s.stage, e), ..s },
        ReplyView::State(state) => {
            let (goal, stage) = after_state(s.goal, s.stage, state);
            SessionView { goal, stage, ..s }
        },
        ReplyView::Clock(now) => SessionView {
            stage: after_clock(s.timeout, s.stage, now),
            ..s
        },
        ReplyView::Binary(binary) => match s.stage {
            Stage::ResolveBinary => SessionView { binary, stage: Stage::CheckBinary, ..s },
            _ => s,
        },
        ReplyView::Variables(values) => SessionView { stage: after_variables(s, values), ..s },
    }
}

fn done<E>(goal: Goal, stage: Stage<E>) -> (next: Stage<E>)
    ensures
        next == after_done(goal, stage),
{
    match stage {
        Stage::OpenService => match goal {
            Goal::Start => Stage::StartService,
            Goal::Status => Stage::QueryStatus,
            _ => Stage::QueryBeforeStop,
        },
        Stage::OpenManager => if goal == Goal::Install {
            Stage::CreateService
        } else {
            Stage::OpenService
        },
        Stage::CreateService => Stage::SetRecovery,
        Stage::WarnBinary => Stage::CheckConfig,
        Stage::WarnConfig => Stage::OpenManager,
        Stage::SendStop => Stage::StartClock,
        Stage::PollSleep { started } => Stage::PollState { started },
        Stage::Delete => Stage::Announce { notice: Notice::Uninstalled },
        Stage::StartService => Stage::Finished { outcome: Ok(()) },
        Stage::Announce { .. } => Stage::Finished { outcome: Ok(()) },
        Stage::RollBack { error } => Stage::Finished { outcome: Err(error) },
        Stage::WarnRollBack { error, .. } => Stage::Finished { outcome: Err(error) },
        stage => configure_and_start(stage),
    }
}

/// Brings a created service up: the recovery actions, then that they also hold
/// for a stop with an exit code, then the start.
fn configure_and_start<E>(stage: Stage<E>) -> (next: Stage<E>)
    ensures
        next == (match stage {
            Stage::SetRecovery => Stage::EnableRecovery,
            Stage::EnableRecovery => Stage::StartCreated,
            Stage::StartCreated => Stage::Announce { notice: Notice::Installed },
            _ => stage,
        }),
{
    match stage {
        Stage::SetRecovery => Stage::EnableRecovery,
        Stage::EnableRecovery => Stage::StartCreated,
        Stage::StartCreated => Stage::Announce { notice: Notice::Installed },
        stage => stage,
    }
}

fn end<E>(context: Option<Context>, e: E) -> (next: Stage<E>)
    ensures
        next == (Stage::<E>::Finished {
            outcome: Err(ServiceError::Failed { context, source: e }),
        }),
{
    Stage::Finished { outcome: Err(ServiceError::Failed { context, source: e }) }
}

/// Undoes the creation of a service that could not be brought up.
fn rollback_install<E>(context: Context, e: E) -> (next: Stage<E>)
    ensures
        next == (Stage::<E>::RollBack {
            error: ServiceError::Failed { context: Some(context), source: e },
        }),
{
    Stage::RollBack { error: ServiceError::Failed { context: Some(context), source: e } }
}

fn failed<E>(goal: Goal, stage: Stage<E>, e: E) -> (next: Stage<E>)
    ensures
        next == after_failure(goal, stage, e),
{
    match stage {
        Stage::ResolveBinary => end(None, e),
        Stage::OpenManager => end(Some(Context::OpenManager), e),
        Stage::CreateService => end(Some(Context::CreateService), e),
        Stage::SetRecovery => rollback_install(Context::SetRecovery, e),
        Stage::EnableRecovery => rollback_install(Context::EnableRecovery, e),
        Stage::StartCreated => rollback_install(Context::StartCreated, e),
        Stage::RollBack { error } => Stage::WarnRollBack { error, cause: e },
        Stage::OpenService => if goal == Goal::Status {
            end(Some(Context::OpenServiceForStatus), e)
        } else {
            end(Some(Context::OpenService), e)
        },
        Stage::QueryBeforeStop => end(None, e),
        Stage::SendStop => end(Some(Context::StopService), e),
        Stage::PollState { .. } => end(Some(Context::QueryWhileStopping), e),
        Stage::Delete => end(Some(Context::DeleteService), e),
        Stage::StartService => end(Some(Context::StartService), e),
        Stage::QueryStatus => end(Some(Context::QueryStatus), e),
        stage => stage,
    }
}

fn stopped<E>(goal: Goal) -> (next: (Goal, Stage<E>))
    ensures
        next == after_stop::<E>(goal),
{
    match goal {
        Goal::Uninstall => (Goal::Uninstall, Stage::Delete),
        Goal::Restart => (Goal::Start, Stage::OpenManager),
        goal => (goal, Stage::Finished { outcome: Ok(()) }),
    }
}

/// Sees to it that the service stops. The stop control is only delivered, so
/// the SCM has to be asked until it reports the service stopped; a service
/// already draining rejects a second stop control.
fn ensure_stopped<E>(goal: Goal, state: ServiceState) -> (next: (Goal, Stage<E>))
    ensures
        next == after_state(goal, Stage::<E>::QueryBeforeStop, state),
{
    if state == ServiceState::Stopped {
        return stopped(goal);
    }
    if state != ServiceState::StopPending {
        return (goal, Stage::SendStop);
    }
    (goal, Stage::StartClock)
}

/// Looks at a stopping service once more.
fn look_again<E>(goal: Goal, started: u128, state: ServiceState) -> (next: (
    Goal,
    Stage<E>,
))
    ensures
        next == after_state(goal, Stage::<E>::PollState { started }, state),
{
    if state == ServiceState::Stopped {
        return stopped(goal);
    }
    (goal, Stage::PollClock { started, last: state })
}

/// Gives up on a stopping service when its time is up.
fn keep_waiting<E>(
    timeout: Timeout,
    started: u128,
    last: ServiceState,
    now: u128,
) -> (next: Stage<E>)
    ensures
        next == after_clock(timeout, Stage::<E>::PollClock { started, last }, now),
{
    if now >= started && now - started >= timeout.secs as u128 * 1_000_000_000
        + timeout.nanos as u128 {
        let refusal = Refusal::StopTimeout { seconds: timeout.secs, last };
        return Stage::Finished { outcome: Err(ServiceError::Refused(refusal)) };
    }
    Stage::PollSleep { started }
}

impl<E> Session<E> {
    /// What is to be done next; nothing once the operation is finished.
    pub fn request(&self) -> (request: Option<Request<'_, E>>)
        ensures
            request is Some <==> requested(self@) is Some,
            request matches Some(r) ==> Some(r@) == requested(self@),
    {
        let role: &str = self.role.as_str();
        Some(
            match &self.stage {
                Stage::ResolveBinary => Request::ResolveBinary,
                Stage::CheckBinary => Request::ReadVariables(admin_only_root_variables()),
                Stage::WarnBinary => Request::Warn(write_binary_warning(&self.binary)),
                Stage::CheckConfig => Request::ReadVariables(admin_only_root_variables()),
                Stage::WarnConfig => Request::Warn(write_config_warning(&self.config)),
                Stage::OpenManager => Request::OpenManager(manager(self.goal)),
                Stage::CreateService => Request::CreateService(
                    entry(role, &self.binary, &self.config),
                    access(self.goal),
                ),
                Stage::SetRecovery => Request::UpdateFailureActions(
                    failure_actions(&RestartPolicy::default()),
                ),
                Stage::EnableRecovery => Request::SetFailureActionsOnNonCrashFailures(
                    RestartPolicy::default().on_failure,
                ),
                Stage::StartCreated => Request::StartService,
                Stage::RollBack { .. } => Request::DeleteService,
                Stage::WarnRollBack { cause, .. } => Request::WarnCause(
                    "warning: could not remove the partly created service ".to_string().concat(
                        service_name(role).as_str(),
                    ).concat(": "),
                    cause,
                ),
                Stage::OpenService => Request::OpenService(service_name(role), access(self.goal)),
                Stage::QueryBeforeStop => Request::QueryStatus,
                Stage::SendStop => Request::StopService,
                Stage::StartClock => Request::ReadClock,
                Stage::PollState { .. } => Request::QueryStatus,
                Stage::PollClock { .. } => Request::ReadClock,
                Stage::PollSleep { .. } => Request::Sleep(STOP_POLL_INTERVAL_MILLIS),
                Stage::Delete => Request::DeleteService,
                Stage::StartService => Request::StartService,
                Stage::QueryStatus => Request::QueryStatus,
                Stage::Announce { notice } => Request::Print(line(*notice, role)),
                Stage::Finished { .. } => { return None; },
            },
        )
    }

    /// The session after a reply.
    pub fn step(self, reply: Reply<E>) -> (next: Session<E>)
        ensures
            next@ == advance(self@, reply@),
    {
        let Session { role, goal, config, binary, timeout, stage } = self;
        match reply {
            Reply::Done => Session { role, goal, config, binary, timeout, stage: done(goal, stage) },
            Reply::Failed(e) => Session {
                role,
                goal,
                config,
                binary,
                timeout,
                stage: failed(goal, stage, e),
            },
            Reply::State(state) => {
                let (goal, stage) = match stage {
                    Stage::QueryBeforeStop => ensure_stopped(goal, state),
                    Stage::PollState { started } => look_again(goal, started, state),
                    Stage::QueryStatus => (goal, Stage::Announce { notice: Notice::State(state) }),
                    stage => (goal, stage),
                };
                Session { role, goal, config, binary, timeout, stage }
            },
            Reply::Clock(now) => {
                let stage = match stage {
                    Stage::StartClock => Stage::PollState { started: now },
                    Stage::PollClock { started, last } => keep_waiting(timeout, started, last, now),
                    stage => stage,
                };
                Session { role, goal, config, binary, timeout, stage }
            },
            Reply::Binary(path) => match stage {
                Stage::ResolveBinary => Session {
                    role,
                    goal,
                    config,
                    binary: path,
                    timeout,
                    stage: Stage::CheckBinary,
                },
                stage => Session { role, goal, config, binary, timeout, stage },
            },
            Reply::Variables(values) => {
                let stage = match stage {
                    Stage::CheckBinary => match warn_unless_binary_is_admin_only(
                        &binary,
                        values.as_slice(),
                    ) {
                        None => Stage::CheckConfig,
                        Some(_) => Stage::WarnBinary,
                    },
                    Stage::CheckConfig => match warn_unless_config_is_admin_only(
                        &config,
                        values.as_slice(),
                    ) {
                        None => Stage::OpenManager,
                        Some(_) => Stage::WarnConfig,
                    },
                    stage => stage,
                };
                Session { role, goal, config, binary, timeout, stage }
            },
        }
    }

    /// The outcome of the operation, once it is finished.
    pub fn outcome(self) -> (outcome: Option<Result<(), ServiceError<E>>>)
        ensures
            outcome == (match self@.stage {
                Stage::Finished { outcome } => Some(outcome),
                _ => None,
            }),
            outcome == concluded(self@),
    {
        match self.stage {
            Stage::Finished { outcome } => Some(outcome),
            _ => None,
        }
    }
}

// ---------------------------------------------------------------------------
// Operations
// ---------------------------------------------------------------------------

/// A session that has not asked for anything yet.
pub open spec fn opening<E>(goal: Goal, role: Seq<char>, config: Seq<u16>) -> SessionView<E> {
    SessionView {
        role,
        goal,
        config,
        binary: seq![],
        timeout: stop_poll_timeout(),
        stage: if goal == Goal::Install {
            Stage::ResolveBinary
        } else {
            Stage::OpenManager
        },
    }
}

/// What opening an operation gives: the user scope is refused, before anything
/// is asked for; the system scope gives the opening session.
pub open spec fn opens<E>(
    opened: Result<Session<E>, ServiceError<E>>,
    scope: ServiceScope,
    start: SessionView<E>,
) -> bool {
    match opened {
        Ok(session) => scope == ServiceScope::System && session@ == start,
        Err(error) => scope == ServiceScope::User && error == ServiceError::<E>::Refused(
            Refusal::PerUserService,
        ),
    }
}

fn open<E>(goal: Goal, role: &str, scope: ServiceScope) -> (opened: Result<
    Session<E>,
    ServiceError<E>,
>)
    requires
        goal != Goal::Install,
    ensures
        opens(opened, scope, opening(goal, role@, seq![])),
{
    match require_system_scope(scope) {
        Err(refusal) => Err(ServiceError::Refused(refusal)),
        Ok(()) => Ok(
            Session {
                role: role.to_string(),
                goal,
                config: WideText::from_units(Vec::new()),
                binary: WideText::from_units(Vec::new()),
                timeout: Timeout { secs: STOP_POLL_TIMEOUT_SECS, nanos: 0 },
                stage: Stage::OpenManager,
            },
        ),
    }
}

/// Installs the service of `role`, to run with this configuration, and starts
/// it.
pub fn install<E>(role: &str, scope: ServiceScope, config: &WideText) -> (opened: Result<
    Session<E>,
    ServiceError<E>,
>)
    ensures
        opens(opened, scope, opening(Goal::Install, role@, config@)),
{
    match require_system_scope(scope) {
        Err(refusal) => Err(ServiceError::Refused(refusal)),
        Ok(()) => Ok(
            Session {
                role: role.to_string(),
                goal: Goal::Install,
                config: config.copy(),
                binary: WideText::from_units(Vec::new()),
                timeout: Timeout { secs: STOP_POLL_TIMEOUT_SECS, nanos: 0 },
                stage: Stage::ResolveBinary,
            },
        ),
    }
}

/// Stops the service of `role` and removes it.
pub fn uninstall<E>(role: &str, scope: ServiceScope) -> (opened: Result<
    Session<E>,
    ServiceError<E>,
>)
    ensures
        opens(opened, scope, opening(Goal::Uninstall, role@, seq![])),
{
    open(Goal::Uninstall, role, scope)
}

/// Starts the service of `role`.
pub fn start<E>(role: &str, scope: ServiceScope) -> (opened: Result<Session<E>, ServiceError<E>>)
    ensures
        opens(opened, scope, opening(Goal::Start, role@, seq![])),
{
    open(Goal::Start, role, scope)
}

/// Stops the service of `role` and waits until it has stopped.
pub fn stop<E>(role: &str, scope: ServiceScope) -> (opened: Result<Session<E>, ServiceError<E>>)
    ensures
        opens(opened, scope, opening(Goal::Stop, role@, seq![])),
{
    open(Goal::Stop, role, scope)
}

/// A session that waits for the opened service to stop.
pub open spec fn waiting<E>(role: Seq<char>, timeout: Timeout) -> SessionView<E> {
    SessionView {
        role,
        goal: Goal::Stop,
        config: seq![],
        binary: seq![],
        timeout,
        stage: Stage::StartClock,
    }
}

/// Waits until the opened service of `role`, which is stopping, has stopped, or
/// the time is up.
pub fn wait_until_stopped<E>(role: &str, timeout: Timeout) -> (session: Session<E>)
    ensures
        session@ == waiting::<E>(role@, timeout),
{
    Session {
        role: role.to_string(),
        goal: Goal::Stop,
        config: WideText::from_units(Vec::new()),
        binary: WideText::from_units(Vec::new()),
        timeout,
        stage: Stage::StartClock,
    }
}

/// Stops the service of `role`, and starts it once it has stopped.
pub fn restart<E>(role: &str, scope: ServiceScope) -> (opened: Result<Session<E>, ServiceError<E>>)
    ensures
        opens(opened, scope, opening(Goal::Restart, role@, seq![])),
{
    match stop(role, scope) {
        Err(error) => Err(error),
        Ok(session) => Ok(Session { goal: Goal::Restart, ..session }),
    }
}

/// Reports the state of the service of `role`.
pub fn status<E>(role: &str, scope: ServiceScope) -> (opened: Result<Session<E>, ServiceError<E>>)
    ensures
        opens(opened, scope, opening(Goal::Status, role@, seq![])),
{
    open(Goal::Status, role, scope)
}

} // verus!
