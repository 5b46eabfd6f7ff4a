//! The running service: what it reports to the SCM, what it does about the
//! controls it is sent, and how it comes to an end.
use vstd::prelude::*;

use crate::error::{Context, Refusal, ServiceError};
use crate::names;
use crate::names::{service_name, StatusRole};
use crate::status;
use crate::status::{
    service_failure_exit, service_status, ServiceControlAccept, ServiceExitCode, ServiceState,
    ServiceStatus,
};
use crate::wide::WideText;

verus! {

/// How long the SCM is asked to wait for a starting service, in seconds.
pub const START_WAIT_HINT_SECS: u64 = 30;

/// How long the SCM is asked to wait for a stopping service, in seconds.
pub const STOP_WAIT_HINT_SECS: u64 = 10;

/// How often a stopping service reports, in seconds.
pub const STOP_PROGRESS_INTERVAL_SECS: u64 = 2;

// ---------------------------------------------------------------------------
// The process
// ---------------------------------------------------------------------------

/// Which service this process is.
#[derive(Debug)]
pub struct ServiceArgs {
    pub role: StatusRole,
    pub config: WideText,
}

impl View for ServiceArgs {
    type V = (StatusRole, Seq<u16>);

    open spec fn view(&self) -> (StatusRole, Seq<u16>) {
        (self.role, self.config@)
    }
}

/// What is noted about which service this process is.
pub open spec fn noted(slot: Option<ServiceArgs>) -> Option<(StatusRole, Seq<u16>)> {
    match slot {
        Some(args) => Some(args@),
        None => None,
    }
}

/// What is noted once it was said again which service this process is: what was
/// noted first.
pub open spec fn after_noting(
    before: Option<(StatusRole, Seq<u16>)>,
    role: StatusRole,
    config: Seq<u16>,
) -> Option<(StatusRole, Seq<u16>)> {
    if before is Some {
        before
    } else {
        Some((role, config))
    }
}

/// What saying which service this process is gives: the name under which it
/// connects, the first time.
pub open spec fn name_noted(
    before: Option<(StatusRole, Seq<u16>)>,
    role: StatusRole,
) -> Result<Seq<char>, Refusal> {
    if before is Some {
        Err(Refusal::ArgumentsAlreadySet)
    } else {
        Ok(names::service_name_of(names::role_word(role)))
    }
}

/// Notes which service this process is, and gives the name under which it
/// connects to the dispatcher. This can be done once.
pub fn run_as_service(slot: &mut Option<ServiceArgs>, role: StatusRole, config: &WideText) -> (name:
    Result<String, Refusal>)
    ensures
        match *old(slot) {
            Some(_) => {
                &&& name == Err::<String, Refusal>(Refusal::ArgumentsAlreadySet)
                &&& *final(slot) == *old(slot)
            },
            None => {
                &&& name matches Ok(n) && n@ == names::service_name_of(names::role_word(role))
                &&& *final(slot) matches Some(args) && args@ == (role, config@)
            },
        },
        noted(*final(slot)) == after_noting(noted(*old(slot)), role, config@),
        match name {
            Ok(n) => name_noted(noted(*old(slot)), role) == Ok::<Seq<char>, Refusal>(n@),
            Err(refusal) => name_noted(noted(*old(slot)), role) == Err::<Seq<char>, Refusal>(
                refusal,
            ),
        },
{
    if slot.is_some() {
        return Err(Refusal::ArgumentsAlreadySet);
    }
    *slot = Some(ServiceArgs { role, config: config.copy() });
    Ok(service_name(role.name()))
}

/// How the process ends, given how the dispatcher returned and which failure
/// the service left behind.
pub open spec fn process_outcome<E>(
    dispatched: Result<(), E>,
    failure: Option<ServiceError<E>>,
) -> Result<(), ServiceError<E>> {
    match dispatched {
        Err(e) => Err(
            ServiceError::Failed { context: Some(Context::ConnectDispatcher), source: e },
        ),
        Ok(()) => match failure {
            Some(error) => Err(error),
            None => Ok(()),
        },
    }
}

/// Which failure of the service is still kept once the dispatcher has returned:
/// the process that ends with it takes it.
pub open spec fn still_kept<E>(
    dispatched: Result<(), E>,
    failure: Option<ServiceError<E>>,
) -> Option<ServiceError<E>> {
    match dispatched {
        Ok(()) => None,
        Err(_) => failure,
    }
}

/// The outcome of running as a service, once the dispatcher has returned. It
/// returns when the service has, so the failure of the service is the failure
/// of the process.
pub fn dispatcher_returned<E>(
    dispatched: Result<(), E>,
    failure: &mut Option<ServiceError<E>>,
) -> (outcome: Result<(), ServiceError<E>>)
    ensures
        outcome == process_outcome(dispatched, *old(failure)),
        *final(failure) == (if dispatched is Ok {
            None
        } else {
            *old(failure)
        }),
        *final(failure) == still_kept(dispatched, *old(failure)),
{
    match dispatched {
        Err(e) => Err(
            ServiceError::Failed { context: Some(Context::ConnectDispatcher), source: e },
        ),
        Ok(()) => match failure.take() {
            Some(error) => Err(error),
            None => Ok(()),
        },
    }
}

/// The failure that a service leaves behind for the process.
pub open spec fn left_behind<E>(
    outcome: Result<(), ServiceError<E>>,
    failure: Option<ServiceError<E>>,
) -> Option<ServiceError<E>> {
    match outcome {
        Err(error) => Some(error),
        Ok(()) => failure,
    }
}

/// Keeps the failure of the service for the process to end with.
pub fn service_main<E>(
    outcome: Result<(), ServiceError<E>>,
    failure: &mut Option<ServiceError<E>>,
)
    ensures
        *final(failure) == left_behind(outcome, *old(failure)),
{
    if let Err(error) = outcome {
        *failure = Some(error);
    }
}

// ---------------------------------------------------------------------------
// The service
// ---------------------------------------------------------------------------

/// How far the service has come.
#[derive(Debug)]
pub enum RunStage<E> {
    Register,
    ReportStarting,
    StartRuntime,
    ReportRunning,
    RunRole,
    ReportStopped { outcome: Result<(), ServiceError<E>> },
    Finished { outcome: Result<(), ServiceError<E>> },
}

/// One life of the service.
#[derive(Debug)]
pub struct ServiceRun<E> {
    role: StatusRole,
    config: WideText,
    stage: RunStage<E>,
}

/// The contents of a life of the service.
pub struct RunView<E> {
    pub role: StatusRole,
    pub config: Seq<u16>,
    pub stage: RunStage<E>,
}

impl<E> View for ServiceRun<E> {
    type V = RunView<E>;

    closed spec fn view(&self) -> RunView<E> {
        RunView { role: self.role, config: self.config@, stage: self.stage }
    }
}

/// What a driver is asked to do for the service. Each request is answered by
/// whether it worked.
#[derive(Debug)]
pub enum RunRequest<'a> {
    /// Register the handler for controls under this name.
    RegisterHandler(String),
    /// Report this status.
    Report(ServiceStatus),
    /// Start the runtime.
    StartRuntime,
    /// Run the role until it ends by itself or is told to stop.
    RunRole(StatusRole, &'a WideText),
    /// Say that the service has drained and report this last status, without
    /// letting anybody report in between.
    ReportStopped(ServiceStatus),
}

/// The contents of a request.
pub enum RunRequestView {
    RegisterHandler(Seq<char>),
    Report(ServiceStatus),
    StartRuntime,
    RunRole(StatusRole, Seq<u16>),
    ReportStopped(ServiceStatus),
}

impl<'a> View for RunRequest<'a> {
    type V = RunRequestView;

    open spec fn view(&self) -> RunRequestView {
        match self {
            RunRequest::RegisterHandler(name) => RunRequestView::RegisterHandler(name@),
            RunRequest::Report(status) => RunRequestView::Report(*status),
            RunRequest::StartRuntime => RunRequestView::StartRuntime,
            RunRequest::RunRole(role, config) => RunRequestView::RunRole(*role, config@),
            RunRequest::ReportStopped(status) => RunRequestView::ReportStopped(*status),
        }
    }
}

/// No control is taken.
pub open spec fn no_controls() -> ServiceControlAccept {
    ServiceControlAccept { stop: false, shutdown: false }
}

/// The status of a starting service.
pub open spec fn starting_status() -> ServiceStatus {
    status::status_of(ServiceState::StartPending, no_controls(), START_WAIT_HINT_SECS)
}

/// The status of a running service: it can be stopped, and is told when the
/// system shuts down.
pub open spec fn running_status() -> ServiceStatus {
    status::status_of(
        ServiceState::Running,
        ServiceControlAccept { stop: true, shutdown: true },
        0,
    )
}

/// The status of a stopping service.
pub open spec fn stopping_status() -> ServiceStatus {
    status::status_of(ServiceState::StopPending, no_controls(), STOP_WAIT_HINT_SECS)
}

/// The last status of a service: its exit code tells whether it failed.
pub open spec fn stopped_status(failed: bool) -> ServiceStatus {
    ServiceStatus {
        exit_code: if failed {
            ServiceExitCode::ServiceSpecific(1)
        } else {
            ServiceExitCode::Win32(0)
        },
        ..status::status_of(ServiceState::Stopped, no_controls(), 0)
    }
}

/// What the service asks for: `None` once it is finished.
pub open spec fn run_requested<E>(s: RunView<E>) -> Option<RunRequestView> {
    match s.stage {
        RunStage::Register => Some(
            RunRequestView::RegisterHandler(names::service_name_of(names::role_word(s.role))),
        ),
        RunStage::ReportStarting => Some(RunRequestView::Report(starting_status())),
        RunStage::StartRuntime => Some(RunRequestView::StartRuntime),
        RunStage::ReportRunning => Some(RunRequestView::Report(running_status())),
        RunStage::RunRole => Some(RunRequestView::RunRole(s.role, s.config)),
        RunStage::ReportStopped { outcome } => Some(
            RunRequestView::ReportStopped(stopped_status(outcome is Err)),
        ),
        RunStage::Finished { .. } => None,
    }
}

/// Where the part of the service's life that has to end in a report leads: any
/// failure, as well as the end of the role, leads to the report that the
/// service has stopped.
pub open spec fn after_running<E>(stage: RunStage<E>, reply: Result<(), E>) -> RunStage<E> {
    match reply {
        Err(e) => {
            let context = if stage is StartRuntime {
                Some(Context::StartRuntime)
            } else {
                None
            };
            RunStage::ReportStopped { outcome: Err(ServiceError::Failed { context, source: e }) }
        },
        Ok(()) => match stage {
            RunStage::ReportStarting => RunStage::StartRuntime,
            RunStage::StartRuntime => RunStage::ReportRunning,
            RunStage::ReportRunning => RunStage::RunRole,
            _ => RunStage::ReportStopped { outcome: Ok(()) },
        },
    }
}

/// Where a reply leads. Without a handler there is nobody to report to, so the
/// service ends at once; whether the last report arrives makes no difference.
pub open spec fn after_run<E>(stage: RunStage<E>, reply: Result<(), E>) -> RunStage<E> {
    match stage {
        RunStage::Register => match reply {
            Ok(()) => RunStage::ReportStarting,
            Err(e) => RunStage::Finished {
                outcome: Err(
                    ServiceError::Failed { context: Some(Context::RegisterHandler), source: e },
                ),
            },
        },
        RunStage::ReportStopped { outcome } => RunStage::Finished { outcome },
        RunStage::Finished { .. } => stage,
        _ => after_running(stage, reply),
    }
}

/// The service after a reply.
pub open spec fn run_advance<E>(s: RunView<E>, reply: Result<(), E>) -> RunView<E> {
    RunView { stage: after_run(s.stage, reply), ..s }
}

/// What the service begins with, if this process was told which one it is.
pub open spec fn begun<E>(args: Option<(StatusRole, Seq<u16>)>) -> Result<
    RunView<E>,
    ServiceError<E>,
> {
    match args {
        None => Err(ServiceError::Refused(Refusal::ArgumentsMissing)),
        Some((role, config)) => Ok(RunView { role, config, stage: RunStage::Register }),
    }
}

/// The outcome of the service, once it is finished.
pub open spec fn run_concluded<E>(s: RunView<E>) -> Option<Result<(), ServiceError<E>>> {
    match s.stage {
        RunStage::Finished { outcome } => Some(outcome),
        _ => None,
    }
}

/// The service begins, if this process was told which one it is.
pub fn service_body<E>(args: Option<&ServiceArgs>) -> (run: Result<
    ServiceRun<E>,
    ServiceError<E>,
>)
    ensures
        match args {
            None => run == Err::<ServiceRun<E>, ServiceError<E>>(
                ServiceError::Refused(Refusal::ArgumentsMissing),
            ),
            Some(args) => run matches Ok(r) && r@ == (RunView::<E> {
                role: args@.0,
                config: args@.1,
                stage: RunStage::Register,
            }),
        },
        match run {
            Ok(r) => begun::<E>(
                match args {
                    Some(args) => Some(args@),
                    None => None,
                },
            ) == Ok::<RunView<E>, ServiceError<E>>(r@),
            Err(error) => args is None && begun::<E>(None) == Err::<RunView<E>, ServiceError<E>>(
                error,
            ),
        },
{
    match args {
        None => Err(ServiceError::Refused(Refusal::ArgumentsMissing)),
        Some(args) => Ok(
            ServiceRun { role: args.role, config: args.config.copy(), stage: RunStage::Register },
        ),
    }
}

/// Starts the service up, runs its role, and sees to it that every way out ends
/// in the one report that it has stopped.
fn run_until_stopped<E>(stage: RunStage<E>, reply: Result<(), E>) -> (next: RunStage<E>)
    ensures
        next == after_running(stage, reply),
{
    match reply {
        Ok(()) => match stage {
            RunStage::ReportStarting => RunStage::StartRuntime,
            RunStage::StartRuntime => RunStage::ReportRunning,
            RunStage::ReportRunning => RunStage::RunRole,
            _ => RunStage::ReportStopped { outcome: Ok(()) },
        },
        Err(e) => {
            let context = match stage {
                RunStage::StartRuntime => Some(Context::StartRuntime),
                _ => None,
            };
            RunStage::ReportStopped { outcome: Err(ServiceError::Failed { context, source: e }) }
        },
    }
}

impl<E> ServiceRun<E> {
    /// What is to be done next; nothing once the service is finished.
    pub fn request(&self) -> (request: Option<RunRequest<'_>>)
        ensures
            request is Some <==> run_requested(self@) is Some,
            request matches Some(r) ==> Some(r@) == run_requested(self@),
    {
        let empty = ServiceControlAccept::empty();
        match &self.stage {
            RunStage::Register => Some(
                RunRequest::RegisterHandler(service_name(self.role.name())),
            ),
            RunStage::ReportStarting => Some(
                RunRequest::Report(
                    service_status(ServiceState::StartPending, empty, START_WAIT_HINT_SECS),
                ),
            ),
            RunStage::StartRuntime => Some(RunRequest::StartRuntime),
            RunStage::ReportRunning => Some(
                RunRequest::Report(
                    service_status(
                        ServiceState::Running,
                        ServiceControlAccept { stop: true, shutdown: true },
                        0,
                    ),
                ),
            ),
            RunStage::RunRole => Some(RunRequest::RunRole(self.role, &self.config)),
            RunStage::ReportStopped { outcome } => {
                let mut last = service_status(ServiceState::Stopped, empty, 0);
                if outcome.is_err() {
                    last.exit_code = service_failure_exit();
                }
                Some(RunRequest::ReportStopped(last))
            },
            RunStage::Finished { .. } => None,
        }
    }

    /// The service after a reply.
    pub fn step(self, reply: Result<(), E>) -> (next: ServiceRun<E>)
        ensures
            next@ == run_advance(self@, reply),
    {
        let ServiceRun { role, config, stage } = self;
        let stage = match stage {
            RunStage::Register => match reply {
                Ok(()) => RunStage::ReportStarting,
                Err(e) => RunStage::Finished {
                    outcome: Err(
                        ServiceError::Failed { context: Some(Context::RegisterHandler), source: e },
                    ),
                },
            },
            RunStage::ReportStopped { outcome } => RunStage::Finished { outcome },
            RunStage::Finished { outcome } => RunStage::Finished { outcome },
            stage => run_until_stopped(stage, reply),
        };
        ServiceRun { role, config, stage }
    }

    /// The outcome of the service, once it is finished.
    pub fn outcome(self) -> (outcome: Option<Result<(), ServiceError<E>>>)
        ensures
            outcome == (match self@.stage {
                RunStage::Finished { outcome } => Some(outcome),
                _ => None,
            }),
            outcome == run_concluded(self@),
    {
        match self.stage {
            RunStage::Finished { outcome } => Some(outcome),
            _ => None,
        }
    }
}

// ---------------------------------------------------------------------------
// Controls
// ---------------------------------------------------------------------------

/// A control that the SCM sends.
#[derive(Clone, Copy, Debug, PartialEq, Eq, Structural)]
pub enum ServiceControl {
    Stop,
    Shutdown,
    Interrogate,
    Other,
}

/// What the SCM is answered.
#[derive(Clone, Copy, Debug, PartialEq, Eq, Structural)]
pub enum ServiceControlHandlerResult {
    NoError,
    NotImplemented,
}

/// What is done about a control.
#[derive(Clone, Copy, Debug, PartialEq, Eq, Structural)]
pub struct ControlResponse {
    /// Tell the role to stop.
    pub signal: bool,
    /// Report this status, and from then on how the stop is going.
    pub report: Option<ServiceStatus>,
    /// Answer this.
    pub result: ServiceControlHandlerResult,
}

/// Whether a control asks the service to stop.
pub open spec fn asks_to_stop(control: ServiceControl) -> bool {
    control == ServiceControl::Stop || control == ServiceControl::Shutdown
}

/// What is done about a control. `armed` says that the role has not been told
/// to stop yet, `reachable` that statuses can be reported.
pub open spec fn response_to(
    control: ServiceControl,
    armed: bool,
    reachable: bool,
) -> ControlResponse {
    let signal = asks_to_stop(control) && armed;
    ControlResponse {
        signal,
        report: if signal && reachable {
            Some(stopping_status())
        } else {
            None
        },
        result: if control == ServiceControl::Other {
            ServiceControlHandlerResult::NotImplemented
        } else {
            ServiceControlHandlerResult::NoError
        },
    }
}

/// Whether a control handler may report a status: it knows where to, and the
/// service has not drained.
pub open spec fn can_report(known: bool, drained: bool) -> bool {
    known && !drained
}

/// Whether a control handler may report a status. `known` says that it knows
/// where to, `drained` that the service is at its last report or beyond. Nothing
/// may drain the service between this question and the report.
pub fn reachable(known: bool, drained: bool) -> (reachable: bool)
    ensures
        reachable == can_report(known, drained),
{
    known && !drained
}

/// Whether, after a control, the role can still be told to stop.
pub open spec fn stays_armed(control: ServiceControl, armed: bool) -> bool {
    armed && !asks_to_stop(control)
}

/// The one stop signal that a role is sent.
#[derive(Debug)]
pub struct StopSignal {
    armed: bool,
}

impl View for StopSignal {
    type V = bool;

    closed spec fn view(&self) -> bool {
        self.armed
    }
}

impl StopSignal {
    /// A signal that has not been given yet.
    pub fn new() -> (signal: StopSignal)
        ensures
            signal@,
    {
        StopSignal { armed: true }
    }

    /// Decides about a control, and gives the signal away where it asks the
    /// service to stop.
    pub fn handle_control(&mut self, control: ServiceControl, reachable: bool) -> (response:
        ControlResponse)
        ensures
            response == response_to(control, old(self)@, reachable),
            final(self)@ == stays_armed(control, old(self)@),
            response.signal <==> old(self)@ && (control == ServiceControl::Stop || control
                == ServiceControl::Shutdown),
            response.report is Some <==> response.signal && reachable,
            response.report matches Some(status) ==> status.current_state
                == ServiceState::StopPending && status.controls_accepted == no_controls()
                && status.wait_hint_secs == 10 && status.checkpoint == 0,
    {
        match control {
            ServiceControl::Stop | ServiceControl::Shutdown => {
                let signal: bool = self.armed;
                self.armed = false;
                let report = if signal && reachable {
                    Some(
                        service_status(
                            ServiceState::StopPending,
                            ServiceControlAccept::empty(),
                            STOP_WAIT_HINT_SECS,
                        ),
                    )
                } else {
                    None
                };
                ControlResponse { signal, report, result: ServiceControlHandlerResult::NoError }
            },
            ServiceControl::Interrogate => ControlResponse {
                signal: false,
                report: None,
                result: ServiceControlHandlerResult::NoError,
            },
            ServiceControl::Other => ControlResponse {
                signal: false,
                report: None,
                result: ServiceControlHandlerResult::NotImplemented,
            },
        }
    }
}

// ---------------------------------------------------------------------------
// Progress
// ---------------------------------------------------------------------------

/// How the stop of a service is going.
#[derive(Debug)]
pub struct StopProgress {
    checkpoint: u32,
}

impl View for StopProgress {
    type V = nat;

    closed spec fn view(&self) -> nat {
        self.checkpoint as nat
    }
}

/// The status of a stopping service at a checkpoint.
pub open spec fn progress_status(checkpoint: nat) -> ServiceStatus {
    ServiceStatus { checkpoint: checkpoint as u32, ..stopping_status() }
}

/// The report on a stop: none once the service has drained.
pub open spec fn progress_report(checkpoint: nat, drained: bool) -> Option<ServiceStatus> {
    if drained {
        None
    } else {
        Some(progress_status(checkpoint))
    }
}

/// The checkpoint that lies ahead after a report.
pub open spec fn next_checkpoint(checkpoint: nat, drained: bool) -> nat {
    if drained {
        checkpoint
    } else {
        checkpoint + 1
    }
}

impl StopProgress {
    /// The first checkpoint lies ahead.
    pub fn new() -> (progress: StopProgress)
        ensures
            progress@ == 1,
    {
        StopProgress { checkpoint: 1 }
    }

    /// The checkpoint that lies ahead.
    pub fn checkpoint(&self) -> (checkpoint: u32)
        ensures
            checkpoint == self@,
    {
        self.checkpoint
    }

    /// The next report on a stop; none once the service has drained. The SCM
    /// reads a checkpoint that stops advancing as a hung service, so each report
    /// carries the next one.
    pub fn report_stop_progress(&mut self, drained: bool) -> (report: Option<ServiceStatus>)
        requires
            drained || old(self)@ < u32::MAX,
        ensures
            report == progress_report(old(self)@, drained),
            final(self)@ == next_checkpoint(old(self)@, drained),
    {
        if drained {
            return None;
        }
        let mut report = service_status(
            ServiceState::StopPending,
            ServiceControlAccept::empty(),
            STOP_WAIT_HINT_SECS,
        );
        report.checkpoint = self.checkpoint;
        self.checkpoint = self.checkpoint + 1;
        Some(report)
    }
}

} // verus!
