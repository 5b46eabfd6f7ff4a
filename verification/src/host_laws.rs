//! What holds of every life of the service.
use vstd::prelude::*;

use crate::error::{Context, ServiceError};
use crate::host;
use crate::host::{RunStage, ServiceControl};
use crate::names::StatusRole;
use crate::status::{
    ServiceControlAccept, ServiceExitCode, ServiceState, ServiceStatus, ServiceType,
};

verus! {

// ---------------------------------------------------------------------------
// The process
// ---------------------------------------------------------------------------

/// The process ends as its service did: with the same failure, or cleanly.
pub proof fn law_process_ends_as_its_service<E>(outcome: Result<(), ServiceError<E>>)
    ensures
        host::process_outcome(Ok::<(), E>(()), host::left_behind(outcome, None)) == outcome,
{
    if let Ok(unit) = outcome {
        assert(unit == ());
    }
}

// ---------------------------------------------------------------------------
// The service
// ---------------------------------------------------------------------------

/// The service of `role` before anything was asked for.
pub open spec fn beginning<E>(role: StatusRole, config: Seq<u16>) -> host::RunView<E> {
    host::RunView { role, config, stage: RunStage::Register }
}

/// The service after the first `i` of `replies`.
pub open spec fn life<E>(
    s: host::RunView<E>,
    replies: Seq<Result<(), E>>,
    i: int,
) -> host::RunView<E>
    decreases i,
{
    if i <= 0 {
        s
    } else {
        host::run_advance(life(s, replies, i - 1), replies[i - 1])
    }
}

/// Whether the service has drained and its last status is being reported.
pub open spec fn reports_stopped<E>(
    s: host::RunView<E>,
    replies: Seq<Result<(), E>>,
    i: int,
    outcome: Result<(), ServiceError<E>>,
) -> bool {
    &&& 0 <= i <= replies.len()
    &&& life(s, replies, i).stage == (RunStage::<E>::ReportStopped { outcome })
    &&& host::run_requested(life(s, replies, i)) == Some(
        host::RunRequestView::ReportStopped(host::stopped_status(outcome is Err)),
    )
}

/// How far the service has come.
pub open spec fn life_rank<E>(stage: RunStage<E>) -> nat {
    match stage {
        RunStage::Register => 0,
        RunStage::ReportStarting => 1,
        RunStage::StartRuntime => 2,
        RunStage::ReportRunning => 3,
        RunStage::RunRole => 4,
        RunStage::ReportStopped { .. } => 5,
        RunStage::Finished { .. } => 6,
    }
}

proof fn lemma_life_goes_on<E>(
    s: host::RunView<E>,
    replies: Seq<Result<(), E>>,
    i: int,
    j: int,
)
    requires
        0 <= i < j,
    ensures
        life(s, replies, i).stage is Finished ==> life(s, replies, j) == life(s, replies, i),
        !(life(s, replies, i).stage is Finished) ==> life_rank(life(s, replies, i).stage)
            < life_rank(life(s, replies, j).stage),
    decreases j - i,
{
    if i + 1 < j {
        lemma_life_goes_on(s, replies, i, j - 1);
    }
}

/// Every way out of a service that could register ends in the report that it
/// has stopped: whatever the outcome, it was reported before. Only where the
/// handler could not be registered is there nobody to report to.
pub proof fn law_every_outcome_is_reported<E>(
    role: StatusRole,
    config: Seq<u16>,
    replies: Seq<Result<(), E>>,
    outcome: Result<(), ServiceError<E>>,
)
    requires
        life(beginning::<E>(role, config), replies, replies.len() as int).stage == (
        RunStage::<E>::Finished { outcome }),
    ensures
        match replies[0] {
            Ok(()) => exists|i: int|
                reports_stopped(beginning::<E>(role, config), replies, i, outcome),
            Err(e) => outcome == Err::<(), ServiceError<E>>(
                ServiceError::Failed { context: Some(Context::RegisterHandler), source: e },
            ),
        },
{
    lemma_outcome_reported(beginning::<E>(role, config), replies, replies.len() as int, outcome);
}

proof fn lemma_outcome_reported<E>(
    s: host::RunView<E>,
    replies: Seq<Result<(), E>>,
    n: int,
    outcome: Result<(), ServiceError<E>>,
)
    requires
        s.stage is Register,
        0 <= n <= replies.len(),
        life(s, replies, n).stage == (RunStage::<E>::Finished { outcome }),
    ensures
        match replies[0] {
            Ok(()) => exists|i: int| reports_stopped(s, replies, i, outcome),
            Err(e) => outcome == Err::<(), ServiceError<E>>(
                ServiceError::Failed { context: Some(Context::RegisterHandler), source: e },
            ),
        },
    decreases n,
{
    assert(n > 0);
    let before = life(s, replies, n - 1);
    assert(life(s, replies, 1) == host::run_advance(life(s, replies, 0), replies[0]));
    match before.stage {
        RunStage::Finished { .. } => {
            lemma_outcome_reported(s, replies, n - 1, outcome);
        },
        RunStage::ReportStopped { .. } => {
            assert(reports_stopped(s, replies, n - 1, outcome));
            if replies[0] is Err {
                if n - 1 > 1 {
                    lemma_life_goes_on(s, replies, 1, n - 1);
                }
            }
        },
        RunStage::Register => {
            if n - 1 > 0 {
                lemma_life_goes_on(s, replies, 0, n - 1);
            }
        },
        _ => {},
    }
}

/// The last report is made once.
pub proof fn law_stopped_is_reported_once<E>(
    s: host::RunView<E>,
    replies: Seq<Result<(), E>>,
    i: int,
    j: int,
)
    requires
        0 <= i,
        0 <= j,
        life(s, replies, i).stage is ReportStopped,
        life(s, replies, j).stage is ReportStopped,
    ensures
        i == j,
{
    if i < j {
        lemma_life_goes_on(s, replies, i, j);
    } else if j < i {
        lemma_life_goes_on(s, replies, j, i);
    }
}

/// A failed run never reads as a clean stop, and a clean one never as a
/// failure: the exit code is `Win32(0)` exactly where the outcome is success.
/// Whether the last report arrives does not change the outcome.
pub proof fn law_exit_code_tells_failure<E>(s: host::RunView<E>, reply: Result<(), E>)
    requires
        s.stage is ReportStopped,
    ensures
        ({
            let outcome = s.stage->ReportStopped_outcome;
            &&& host::run_requested(s) matches Some(host::RunRequestView::ReportStopped(status))
                && status.current_state == ServiceState::Stopped && (status.exit_code
                == ServiceExitCode::Win32(0) <==> outcome is Ok)
            &&& host::run_advance(s, reply).stage == (RunStage::<E>::Finished { outcome })
        }),
{
}

/// A service that is told nothing but good reports that it is starting, that it
/// is running, and that it has stopped cleanly, in this order, and its role
/// runs only in between the last two.
pub proof fn law_life_in_order<E>(
    role: StatusRole,
    config: Seq<u16>,
    replies: Seq<Result<(), E>>,
)
    requires
        replies.len() == 6,
        forall|i: int| 0 <= i < 6 ==> #[trigger] replies[i] == Ok::<(), E>(()),
    ensures
        ({
            let s = beginning::<E>(role, config);
            let requests = Seq::new(6, |i: int| host::run_requested(life(s, replies, i)));
            &&& requests == seq![
                Some(
                    host::RunRequestView::RegisterHandler(
                        crate::names::service_name_of(crate::names::role_word(role)),
                    ),
                ),
                Some(host::RunRequestView::Report(host::starting_status())),
                Some(host::RunRequestView::StartRuntime),
                Some(host::RunRequestView::Report(host::running_status())),
                Some(host::RunRequestView::RunRole(role, config)),
                Some(host::RunRequestView::ReportStopped(host::stopped_status(false))),
            ]
            &&& life(s, replies, 6).stage == (RunStage::<E>::Finished { outcome: Ok(()) })
        }),
{
    reveal_with_fuel(life, 7);
}

/// The role runs only after the service has been reported running, and the
/// runtime is there.
pub proof fn law_role_runs_after_running_is_reported<E>(
    s: host::RunView<E>,
    reply: Result<(), E>,
)
    requires
        host::run_advance(s, reply).stage is RunRole,
    ensures
        host::run_requested(s) == Some(host::RunRequestView::Report(host::running_status())),
        reply is Ok,
{
}

// ---------------------------------------------------------------------------
// Controls
// ---------------------------------------------------------------------------

/// Whether the role can still be told to stop after the first `i` of
/// `controls`.
pub open spec fn armed_after(controls: Seq<ServiceControl>, i: int) -> bool
    decreases i,
{
    if i <= 0 {
        true
    } else {
        host::stays_armed(controls[i - 1], armed_after(controls, i - 1))
    }
}

proof fn lemma_armed(controls: Seq<ServiceControl>, i: int)
    requires
        0 <= i <= controls.len(),
    ensures
        armed_after(controls, i) <==> forall|j: int|
            0 <= j < i ==> !host::asks_to_stop(#[trigger] controls[j]),
    decreases i,
{
    if i > 0 {
        lemma_armed(controls, i - 1);
    }
}

/// The role is told to stop by the first control that asks for it, and by no
/// other; so it is told at most once, however often it is asked for.
pub proof fn law_role_is_told_to_stop_once(
    controls: Seq<ServiceControl>,
    reachable: bool,
    i: int,
)
    requires
        0 <= i < controls.len(),
    ensures
        host::response_to(controls[i], armed_after(controls, i), reachable).signal <==> (
        host::asks_to_stop(controls[i]) && forall|j: int|
            0 <= j < i ==> !host::asks_to_stop(#[trigger] controls[j])),
        host::response_to(controls[i], armed_after(controls, i), reachable).report is Some
            ==> host::response_to(controls[i], armed_after(controls, i), reachable).signal,
{
    lemma_armed(controls, i);
}

// ---------------------------------------------------------------------------
// Progress
// ---------------------------------------------------------------------------

/// The checkpoint that lies ahead after the first `i` of `polls`, each of which
/// says whether the service has drained.
pub open spec fn checkpoint_at(polls: Seq<bool>, i: int) -> nat
    decreases i,
{
    if i <= 0 {
        1
    } else {
        host::next_checkpoint(checkpoint_at(polls, i - 1), polls[i - 1])
    }
}

proof fn lemma_checkpoint_at(polls: Seq<bool>, i: int)
    requires
        0 <= i <= polls.len(),
        forall|k: int| 0 <= k < i ==> !#[trigger] polls[k],
    ensures
        checkpoint_at(polls, i) == i + 1,
    decreases i,
{
    if i > 0 {
        lemma_checkpoint_at(polls, i - 1);
    }
}

/// As long as the service has not drained, each poll is answered with a report,
/// and the checkpoints advance one by one: report number `n` carries checkpoint
/// `n`. The first poll that finds the service drained ends the reports; if that
/// is the very first, there are none.
pub proof fn law_checkpoints_advance(polls: Seq<bool>, i: int)
    requires
        0 <= i < polls.len() < u32::MAX,
        forall|k: int| 0 <= k < i ==> !#[trigger] polls[k],
    ensures
        host::progress_report(checkpoint_at(polls, i), polls[i]) == (if polls[i] {
            None
        } else {
            Some(host::progress_status((i + 1) as nat))
        }),
        host::progress_status((i + 1) as nat).checkpoint == i + 1,
        host::progress_status((i + 1) as nat).current_state == ServiceState::StopPending,
{
    lemma_checkpoint_at(polls, i);
}

// ---------------------------------------------------------------------------
// All that is reported
// ---------------------------------------------------------------------------

/// Whose turn it is to report, while nobody else can.
pub enum Turn<E> {
    /// The service does what it does next, and gets this reply.
    Service(Result<(), E>),
    /// A control arrives; the handler may know where to report to.
    Control(ServiceControl, bool),
    /// It is time to report how the stop is going.
    Progress,
}

/// A service, its control handler and the reports on its stop.
pub struct Party<E> {
    pub run: host::RunView<E>,
    pub armed: bool,
    pub drained: bool,
    pub checkpoint: nat,
}

/// All three before anything has happened.
pub open spec fn gathered<E>(role: StatusRole, config: Seq<u16>) -> Party<E> {
    Party { run: beginning(role, config), armed: true, drained: false, checkpoint: 1 }
}

/// What is reported in a turn.
pub open spec fn reported<E>(p: Party<E>, turn: Turn<E>) -> Option<ServiceStatus> {
    match turn {
        Turn::Service(_) => match host::run_requested(p.run) {
            Some(host::RunRequestView::Report(status)) => Some(status),
            Some(host::RunRequestView::ReportStopped(status)) => Some(status),
            _ => None,
        },
        Turn::Control(control, known) => host::response_to(
            control,
            p.armed,
            host::can_report(known, p.drained),
        ).report,
        Turn::Progress => host::progress_report(p.checkpoint, p.drained),
    }
}

/// All three after a turn. The service has drained from its last report on.
pub open spec fn after_turn<E>(p: Party<E>, turn: Turn<E>) -> Party<E> {
    match turn {
        Turn::Service(reply) => Party {
            run: host::run_advance(p.run, reply),
            drained: p.drained || host::run_requested(p.run) matches Some(
                host::RunRequestView::ReportStopped(_),
            ),
            ..p
        },
        Turn::Control(control, _) => Party { armed: host::stays_armed(control, p.armed), ..p },
        Turn::Progress => Party {
            checkpoint: host::next_checkpoint(p.checkpoint, p.drained),
            ..p
        },
    }
}

/// All three after the first `i` of `turns`.
pub open spec fn party_at<E>(p: Party<E>, turns: Seq<Turn<E>>, i: int) -> Party<E>
    decreases i,
{
    if i <= 0 {
        p
    } else {
        after_turn(party_at(p, turns, i - 1), turns[i - 1])
    }
}

proof fn lemma_drained_is_finished<E>(p: Party<E>, turns: Seq<Turn<E>>, i: int, j: int)
    requires
        0 <= i <= j,
        p.drained ==> p.run.stage is Finished,
    ensures
        party_at(p, turns, j).drained ==> party_at(p, turns, j).run.stage is Finished,
        party_at(p, turns, i).drained ==> party_at(p, turns, j).drained,
    decreases j,
{
    if j > 0 {
        if i < j {
            lemma_drained_is_finished(p, turns, i, j - 1);
        } else {
            lemma_drained_is_finished(p, turns, j - 1, j - 1);
        }
    }
}

/// That the service has stopped is the last thing that is ever reported of it,
/// whoever's turn it is afterwards. In particular no report that it is stopping
/// lands behind it, neither on the progress of the stop nor from the control
/// handler.
pub proof fn law_nothing_is_reported_after_stopped<E>(
    role: StatusRole,
    config: Seq<u16>,
    turns: Seq<Turn<E>>,
    i: int,
    j: int,
)
    requires
        0 <= i < j < turns.len(),
        reported(party_at(gathered(role, config), turns, i), turns[i]) matches Some(status)
            && status.current_state == ServiceState::Stopped,
    ensures
        reported(party_at(gathered(role, config), turns, j), turns[j]) is None,
{
    let p = gathered(role, config);
    assert(party_at(p, turns, i + 1) == after_turn(party_at(p, turns, i), turns[i]));
    assert(party_at(p, turns, i + 1).drained);
    lemma_drained_is_finished(p, turns, i + 1, j);
}

/// Only the service itself reports that it has stopped, and only as its last
/// status.
pub proof fn law_only_the_service_reports_stopped<E>(p: Party<E>, turn: Turn<E>)
    requires
        reported(p, turn) matches Some(status) && status.current_state == ServiceState::Stopped,
    ensures
        turn is Service,
        p.run.stage is ReportStopped,
        after_turn(p, turn).drained,
{
}

/// A control that arrives once the service has drained is answered, but no
/// status is reported on it.
pub proof fn law_no_report_from_a_late_control(
    control: ServiceControl,
    armed: bool,
    known: bool,
)
    ensures
        host::response_to(control, armed, host::can_report(known, true)).report is None,
        host::response_to(control, armed, host::can_report(known, true)).result
            == host::response_to(control, armed, host::can_report(known, false)).result,
        host::response_to(control, armed, host::can_report(known, true)).signal
            == host::response_to(control, armed, host::can_report(known, false)).signal,
{
}

// ---------------------------------------------------------------------------
// What is said, field by field
// ---------------------------------------------------------------------------

/// How long the SCM is asked to wait, and how often a stopping service reports:
/// it reports several times within the time that it asks for.
pub proof fn law_reporting_times()
    ensures
        host::START_WAIT_HINT_SECS == 30,
        host::STOP_WAIT_HINT_SECS == 10,
        host::STOP_PROGRESS_INTERVAL_SECS == 2,
        0 < 2 * host::STOP_PROGRESS_INTERVAL_SECS < host::STOP_WAIT_HINT_SECS,
{
}

/// Whether a status has these fields, and otherwise says that its service lives
/// in a process of its own, which it does not name.
pub open spec fn says(
    status: ServiceStatus,
    state: ServiceState,
    controls: bool,
    exit_code: ServiceExitCode,
    checkpoint: int,
    wait_hint_secs: int,
) -> bool {
    &&& status.service_type == ServiceType::OwnProcess
    &&& status.current_state == state
    &&& status.controls_accepted == (ServiceControlAccept { stop: controls, shutdown: controls })
    &&& status.exit_code == exit_code
    &&& status.checkpoint == checkpoint
    &&& status.wait_hint_secs == wait_hint_secs
    &&& status.process_id is None
}

/// A control is answered by what it asks and by what has happened before, and
/// by nothing else. Each control that asks to stop, be it a stop or a shutdown,
/// gives the signal where it has not been given yet. Exactly where it gives the
/// signal and statuses can be reported, the SCM is told that the service is
/// stopping: no controls, ten seconds, no checkpoint yet. Only controls that
/// nobody knows are turned down.
pub proof fn law_a_stop_is_reported(control: ServiceControl, armed: bool, reachable: bool)
    ensures
        ({
            let asked = control == ServiceControl::Stop || control == ServiceControl::Shutdown;
            let response = host::response_to(control, armed, reachable);
            &&& response.signal <==> asked && armed
            &&& response.report is Some <==> response.signal && reachable
            &&& response.report matches Some(status) ==> says(
                status,
                ServiceState::StopPending,
                false,
                ServiceExitCode::Win32(0),
                0,
                10,
            )
            &&& response.result == (if control == ServiceControl::Other {
                host::ServiceControlHandlerResult::NotImplemented
            } else {
                host::ServiceControlHandlerResult::NoError
            })
            &&& host::stays_armed(control, armed) <==> armed && !asked
        }),
{
}

/// A stop and a shutdown are the same to a service, whenever they come.
pub proof fn law_stop_and_shutdown_are_alike(armed: bool, reachable: bool)
    ensures
        host::response_to(ServiceControl::Stop, armed, reachable) == host::response_to(
            ServiceControl::Shutdown,
            armed,
            reachable,
        ),
        host::stays_armed(ServiceControl::Stop, armed) == host::stays_armed(
            ServiceControl::Shutdown,
            armed,
        ),
{
}

/// A handler can report where it knows where to and the service has not
/// drained; either alone is not enough.
pub proof fn law_reports_need_a_known_live_service(known: bool, drained: bool)
    ensures
        host::can_report(known, drained) <==> known && !drained,
        host::can_report(true, false),
{
}

/// A poll of a service that has drained is answered with nothing, and any other
/// with the status of a stopping service at the checkpoint that lies ahead; then
/// the next checkpoint lies ahead.
pub proof fn law_progress_is_reported_until_drained(checkpoint: nat)
    requires
        checkpoint <= u32::MAX,
    ensures
        host::progress_report(checkpoint, true) is None,
        host::next_checkpoint(checkpoint, true) == checkpoint,
        host::progress_report(checkpoint, false) matches Some(status) && says(
            status,
            ServiceState::StopPending,
            false,
            ServiceExitCode::Win32(0),
            checkpoint as int,
            10,
        ),
        host::next_checkpoint(checkpoint, false) == checkpoint + 1,
{
}

/// The status reports of a service over its life, field by field. A service
/// that can be told to stop says so only while it runs; only a failed one exits
/// with a code other than that of success.
pub proof fn law_statuses_field_by_field(failed: bool)
    ensures
        says(
            host::starting_status(),
            ServiceState::StartPending,
            false,
            ServiceExitCode::Win32(0),
            0,
            30,
        ),
        says(
            host::running_status(),
            ServiceState::Running,
            true,
            ServiceExitCode::Win32(0),
            0,
            0,
        ),
        says(
            host::stopping_status(),
            ServiceState::StopPending,
            false,
            ServiceExitCode::Win32(0),
            0,
            10,
        ),
        says(
            host::stopped_status(failed),
            ServiceState::Stopped,
            false,
            if failed {
                ServiceExitCode::ServiceSpecific(1)
            } else {
                ServiceExitCode::Win32(0)
            },
            0,
            0,
        ),
{
}

// ---------------------------------------------------------------------------
// A life, step by step
// ---------------------------------------------------------------------------

/// The end of a service in which a step failed.
pub open spec fn ends_failing<E>(context: Option<Context>, source: E) -> Result<
    (),
    ServiceError<E>,
> {
    Err(ServiceError::Failed { context, source })
}

/// Whether the last report comes next: with the exit code that the outcome asks
/// for, and after it, whether it arrives or not, the end with that outcome.
pub open spec fn stops_with<E>(
    s: host::RunView<E>,
    outcome: Result<(), ServiceError<E>>,
    lost: E,
) -> bool {
    &&& host::run_requested(s) matches Some(host::RunRequestView::ReportStopped(status)) && says(
        status,
        ServiceState::Stopped,
        false,
        if outcome is Err {
            ServiceExitCode::ServiceSpecific(1)
        } else {
            ServiceExitCode::Win32(0)
        },
        0,
        0,
    )
    &&& over(host::run_advance(s, Ok(())), outcome)
    &&& over(host::run_advance(s, Err(lost)), outcome)
}

/// Whether the service is finished with this outcome, for good.
pub open spec fn over<E>(s: host::RunView<E>, outcome: Result<(), ServiceError<E>>) -> bool {
    &&& s.stage == (RunStage::<E>::Finished { outcome })
    &&& host::run_concluded(s) == Some(outcome)
    &&& host::run_requested(s) is None
}

/// A life of the service, step by step, and where each step leads if it fails
/// with `e`. It registers under the name of its role; reports that it starts;
/// starts the runtime; reports that it runs; runs its role with its
/// configuration; and reports that it has stopped. From the first report on,
/// any failure, and the end of the role, lead straight to the last report, which
/// tells the failure by its exit code; the failure is handed on unchanged.
pub proof fn law_life_step_by_step<E>(role: StatusRole, config: Seq<u16>, e: E, lost: E)
    ensures
        ({
            let word = match role {
                StatusRole::Serve => "serve"@,
                StatusRole::Access => "access"@,
            };
            let done = Ok::<(), E>(());
            let failed = Err::<(), E>(e);
            let s0 = beginning::<E>(role, config);
            let s1 = host::run_advance(s0, done);
            let s2 = host::run_advance(s1, done);
            let s3 = host::run_advance(s2, done);
            let s4 = host::run_advance(s3, done);
            let s5 = host::run_advance(s4, done);
            &&& host::run_requested(s0) == Some(
                host::RunRequestView::RegisterHandler("iroh-tunnel-"@ + word),
            )
            &&& over(
                host::run_advance(s0, failed),
                ends_failing(Some(Context::RegisterHandler), e),
            )
            &&& host::run_requested(s1) matches Some(host::RunRequestView::Report(status)) && says(
                status,
                ServiceState::StartPending,
                false,
                ServiceExitCode::Win32(0),
                0,
                30,
            )
            &&& stops_with(host::run_advance(s1, failed), ends_failing(None, e), lost)
            &&& host::run_requested(s2) == Some(host::RunRequestView::StartRuntime)
            &&& stops_with(
                host::run_advance(s2, failed),
                ends_failing(Some(Context::StartRuntime), e),
                lost,
            )
            &&& host::run_requested(s3) matches Some(host::RunRequestView::Report(status)) && says(
                status,
                ServiceState::Running,
                true,
                ServiceExitCode::Win32(0),
                0,
                0,
            )
            &&& stops_with(host::run_advance(s3, failed), ends_failing(None, e), lost)
            &&& host::run_requested(s4) == Some(host::RunRequestView::RunRole(role, config))
            &&& stops_with(host::run_advance(s4, failed), ends_failing(None, e), lost)
            &&& stops_with(s5, Ok(()), lost)
        }),
{
}

/// A finished service stays as it is, whatever it is told.
pub proof fn law_a_finished_service_stays_finished<E>(
    s: host::RunView<E>,
    reply: Result<(), E>,
)
    requires
        s.stage is Finished,
    ensures
        host::run_advance(s, reply) == s,
{
}

/// A service that fails while it starts or runs is never taken for one that
/// succeeded: whatever the replies, if one of them before the last report is a
/// failure, the outcome is that failure.
pub proof fn law_first_failure_of_a_life_is_its_outcome<E>(
    role: StatusRole,
    config: Seq<u16>,
    replies: Seq<Result<(), E>>,
    i: int,
    n: int,
)
    requires
        0 <= i < n <= replies.len(),
        i < 5,
        replies[i] is Err,
        forall|k: int| 0 <= k < i ==> (#[trigger] replies[k]) is Ok,
        life(beginning::<E>(role, config), replies, n).stage is Finished,
    ensures
        life(beginning::<E>(role, config), replies, n).stage->Finished_outcome matches Err(
            ServiceError::Failed { source, .. },
        ) && source == replies[i]->Err_0,
{
    let s0 = beginning::<E>(role, config);
    reveal_with_fuel(life, 7);
    let s = life(s0, replies, i + 1);
    assert(life_rank(life(s0, replies, i).stage) == i) by {
        assert(i >= 1 ==> replies[0] is Ok);
        assert(i >= 2 ==> replies[1] is Ok);
        assert(i >= 3 ==> replies[2] is Ok);
        assert(i >= 4 ==> replies[3] is Ok);
    }
    if n > i + 1 {
        lemma_life_goes_on(s0, replies, i + 1, n);
        assert(life(s0, replies, i + 2) == host::run_advance(s, replies[i + 1]));
        if n > i + 2 {
            lemma_life_goes_on(s0, replies, i + 2, n);
        }
    }
}

// ---------------------------------------------------------------------------
// The process, case by case
// ---------------------------------------------------------------------------

/// A process that could not connect to the dispatcher fails with that; else it
/// ends with the failure that its service left behind, if it left one. A service
/// leaves its own failure behind, and a clean one leaves what was there.
pub proof fn law_process_outcome_case_by_case<E>(
    e: E,
    error: ServiceError<E>,
    failure: Option<ServiceError<E>>,
)
    ensures
        host::process_outcome(Err::<(), E>(e), failure) == ends_failing(
            Some(Context::ConnectDispatcher),
            e,
        ),
        host::process_outcome(Ok::<(), E>(()), Some(error)) == Err::<(), ServiceError<E>>(error),
        host::process_outcome(Ok::<(), E>(()), None) == Ok::<(), ServiceError<E>>(()),
        host::left_behind(Err::<(), ServiceError<E>>(error), failure) == Some(error),
        host::left_behind(Ok::<(), ServiceError<E>>(()), failure) == failure,
{
}

/// A process that has ended with the failure of its service has taken it; one
/// that never reached its service leaves what was kept.
pub proof fn law_a_failure_is_taken_once<E>(e: E, failure: Option<ServiceError<E>>)
    ensures
        host::still_kept(Ok::<(), E>(()), failure) is None,
        host::process_outcome(
            Ok::<(), E>(()),
            host::still_kept(Ok::<(), E>(()), failure),
        ) is Ok,
        host::still_kept(Err::<(), E>(e), failure) == failure,
{
}

/// Which service a process is can be said once: the first word is noted and
/// answered with the name of that service, and any later one is refused and
/// changes nothing.
pub proof fn law_arguments_are_noted_once(
    role: StatusRole,
    config: Seq<u16>,
    other: StatusRole,
    other_config: Seq<u16>,
)
    ensures
        ({
            let first = host::after_noting(None, role, config);
            &&& first == Some((role, config))
            &&& host::name_noted(None, role) == Ok::<Seq<char>, crate::error::Refusal>(
                "iroh-tunnel-"@ + (match role {
                    StatusRole::Serve => "serve"@,
                    StatusRole::Access => "access"@,
                }),
            )
            &&& host::after_noting(first, other, other_config) == first
            &&& host::name_noted(first, other) == Err::<Seq<char>, crate::error::Refusal>(
                crate::error::Refusal::ArgumentsAlreadySet,
            )
        }),
{
}

/// A service that was noted begins as just that one, and registers under the
/// name that was given when it was noted. One that was never noted is refused.
pub proof fn law_a_noted_service_begins<E>(role: StatusRole, config: Seq<u16>)
    ensures
        host::begun::<E>(host::after_noting(None, role, config)) matches Ok(s) && {
            &&& s == beginning::<E>(role, config)
            &&& host::run_requested(s) matches Some(host::RunRequestView::RegisterHandler(name))
                && host::name_noted(None, role) == Ok::<Seq<char>, crate::error::Refusal>(name)
        },
        host::begun::<E>(None) == Err::<host::RunView<E>, ServiceError<E>>(
            ServiceError::Refused(crate::error::Refusal::ArgumentsMissing),
        ),
{
}

/// The contents of a noted service are those of its arguments.
pub proof fn law_noted_arguments_are_seen_in_full(args: host::ServiceArgs)
    ensures
        host::noted(Some(args)) == Some((args.role, args.config@)),
        host::noted(None) is None,
{
}

/// The contents of a request are those of what it carries, and those of the
/// arguments of a process are its role and its configuration.
pub proof fn law_life_requests_are_seen_in_full<'a>(
    request: host::RunRequest<'a>,
    args: host::ServiceArgs,
)
    ensures
        match request {
            host::RunRequest::RegisterHandler(name) => request@
                == host::RunRequestView::RegisterHandler(name@),
            host::RunRequest::Report(status) => request@ == host::RunRequestView::Report(status),
            host::RunRequest::StartRuntime => request@ == host::RunRequestView::StartRuntime,
            host::RunRequest::RunRole(role, config) => request@ == host::RunRequestView::RunRole(
                role,
                config@,
            ),
            host::RunRequest::ReportStopped(status) => request@
                == host::RunRequestView::ReportStopped(status),
        },
        args@ == (args.role, args.config@),
{
}

} // verus!
