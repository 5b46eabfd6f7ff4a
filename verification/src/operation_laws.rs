//! What each operation does, step by step: what it asks for, in whose name and
//! with which rights, where each step leads if it works, and what the operator
//! is told if it fails.
use vstd::prelude::*;

use crate::control;
use crate::control::{Goal, Stage};
use crate::error::{Context, Refusal, ServiceError};
use crate::location;
use crate::policy;
use crate::policy::{ServiceAction, ServiceActionType, ServiceFailureResetPeriod, ServiceScope};
use crate::request;
use crate::request::{
    ServiceAccess, ServiceErrorControl, ServiceManagerAccess, ServiceStartType,
};
use crate::status;
use crate::status::{ServiceState, ServiceType};
use crate::wide;

verus! {

// ---------------------------------------------------------------------------
// Requests and replies
// ---------------------------------------------------------------------------

/// Whether an operation is over, with this outcome.
pub open spec fn ends<E>(
    s: control::SessionView<E>,
    outcome: Result<(), ServiceError<E>>,
) -> bool {
    &&& s.stage == (Stage::<E>::Finished { outcome })
    &&& control::concluded(s) == Some(outcome)
    &&& control::requested(s) is None
}

/// Whether an operation is over because a step failed with `e`.
pub open spec fn fails<E>(s: control::SessionView<E>, context: Option<Context>, e: E) -> bool {
    ends(s, Err(ServiceError::Failed { context, source: e }))
}

/// Whether this is what the operation asks for.
pub open spec fn asks<E>(s: control::SessionView<E>, request: request::RequestView<E>) -> bool {
    control::requested(s) == Some(request)
}

/// The session once the request is carried out.
pub open spec fn done<E>(s: control::SessionView<E>) -> control::SessionView<E> {
    control::advance(s, request::ReplyView::Done)
}

/// The session once the request has failed.
pub open spec fn failed<E>(s: control::SessionView<E>, e: E) -> control::SessionView<E> {
    control::advance(s, request::ReplyView::Failed(e))
}

/// The session once the SCM has reported a state.
pub open spec fn seen<E>(s: control::SessionView<E>, state: ServiceState) -> control::SessionView<
    E,
> {
    control::advance(s, request::ReplyView::State(state))
}

/// The session once the clock is read.
pub open spec fn clocked<E>(s: control::SessionView<E>, now: u128) -> control::SessionView<E> {
    control::advance(s, request::ReplyView::Clock(now))
}

/// Whether a reply answers a request. Writing a line, reading a variable or the
/// clock and sleeping cannot fail.
pub open spec fn answers<E>(
    asked: Option<request::RequestView<E>>,
    reply: request::ReplyView<E>,
) -> bool {
    match asked {
        None => false,
        Some(request::RequestView::ResolveBinary) => reply is Binary || reply is Failed,
        Some(request::RequestView::ReadVariables(_)) => reply is Variables,
        Some(request::RequestView::ReadClock) => reply is Clock,
        Some(request::RequestView::QueryStatus) => reply is State || reply is Failed,
        Some(request::RequestView::Warn(_)) => reply is Done,
        Some(request::RequestView::WarnCause(_, _)) => reply is Done,
        Some(request::RequestView::Print(_)) => reply is Done,
        Some(request::RequestView::Sleep(_)) => reply is Done,
        Some(_) => reply is Done || reply is Failed,
    }
}

/// A reply that answers the request takes the operation on; any other reply
/// changes nothing at all.
pub proof fn law_only_answers_count<E>(s: control::SessionView<E>, reply: request::ReplyView<E>)
    ensures
        !answers(control::requested(s), reply) ==> control::advance(s, reply) == s,
        answers(control::requested(s), reply) ==> control::advance(s, reply).stage != s.stage,
{
}

/// An operation has an outcome exactly when it asks for nothing more.
pub proof fn law_an_operation_asks_or_has_an_outcome<E>(s: control::SessionView<E>)
    ensures
        control::concluded(s) is Some <==> control::requested(s) is None,
{
}

/// What an operation is about does not change on the way: neither the role, nor
/// the configuration, nor how long a stop is waited for. The executable is the
/// one that was found, and the goal changes only from restarting to starting.
pub proof fn law_an_operation_keeps_its_subject<E>(
    s: control::SessionView<E>,
    reply: request::ReplyView<E>,
)
    ensures
        ({
            let next = control::advance(s, reply);
            &&& next.role == s.role
            &&& next.config == s.config
            &&& next.timeout == s.timeout
            &&& next.goal != s.goal ==> s.goal == Goal::Restart && next.goal == Goal::Start
            &&& next.binary == (if asks(s, request::RequestView::ResolveBinary) && reply is Binary {
                reply->Binary_0
            } else {
                s.binary
            })
        }),
{
}

/// The system scope opens the operation as it is; the user scope is refused
/// before anything is asked for.
pub proof fn law_only_the_system_scope_opens<E>(
    opened: Result<control::Session<E>, ServiceError<E>>,
    start: control::SessionView<E>,
)
    ensures
        control::opens(opened, ServiceScope::System, start) <==> (opened matches Ok(session)
            && session@ == start),
        control::opens(opened, ServiceScope::User, start) <==> opened == Err::<
            control::Session<E>,
            ServiceError<E>,
        >(ServiceError::Refused(Refusal::PerUserService)),
{
}

// ---------------------------------------------------------------------------
// Connecting
// ---------------------------------------------------------------------------

/// Rights on the SCM: to connect, and to create a service or not.
pub open spec fn manager_rights(create_service: bool) -> ServiceManagerAccess {
    ServiceManagerAccess { connect: true, create_service }
}

/// Whether the operation connects to the SCM, opens the service of its role with
/// these rights, and goes on from there in session `opened`. A failure on the
/// way ends it, and the operator learns which of the two it was.
pub open spec fn opens_service<E>(
    s: control::SessionView<E>,
    role: Seq<char>,
    rights: ServiceAccess,
    context: Context,
    opened: control::SessionView<E>,
    e: E,
) -> bool {
    &&& asks(s, request::RequestView::OpenManager(manager_rights(false)))
    &&& fails(failed(s, e), Some(Context::OpenManager), e)
    &&& asks(done(s), request::RequestView::OpenService("iroh-tunnel-"@ + role, rights))
    &&& fails(failed(done(s), e), Some(context), e)
    &&& done(done(s)) == opened
}

/// Whether the operation prints this line and has then succeeded.
pub open spec fn says_and_succeeds<E>(s: control::SessionView<E>, line: Seq<char>) -> bool {
    &&& asks(s, request::RequestView::Print(line))
    &&& ends(done(s), Ok(()))
}

// ---------------------------------------------------------------------------
// Starting
// ---------------------------------------------------------------------------

/// A start connects, opens the service with the right to start it and no other,
/// and starts it. It succeeds where all three work; each failure ends it with an
/// error that carries the failure and names the step.
pub proof fn law_start_step_by_step<E>(role: Seq<char>, config: Seq<u16>, e: E)
    ensures
        ({
            let s0 = control::opening::<E>(Goal::Start, role, config);
            let s2 = done(done(s0));
            &&& opens_service(
                s0,
                role,
                ServiceAccess {
                    query_status: false,
                    start: true,
                    stop: false,
                    change_config: false,
                    delete: false,
                },
                Context::OpenService,
                s2,
                e,
            )
            &&& asks(s2, request::RequestView::StartService)
            &&& fails(failed(s2, e), Some(Context::StartService), e)
            &&& ends(done(s2), Ok(()))
        }),
{
}

// ---------------------------------------------------------------------------
// Status
// ---------------------------------------------------------------------------

/// A status query connects, opens the service with the right to query it and no
/// other, asks for its state, and prints the service's name and the word for
/// that very state. Each failure ends it with an error that carries the failure
/// and names the step.
pub proof fn law_status_step_by_step<E>(
    role: Seq<char>,
    config: Seq<u16>,
    state: ServiceState,
    e: E,
)
    ensures
        ({
            let s0 = control::opening::<E>(Goal::Status, role, config);
            let s2 = done(done(s0));
            let word = match state {
                ServiceState::Stopped => "Stopped"@,
                ServiceState::StartPending => "StartPending"@,
                ServiceState::StopPending => "StopPending"@,
                ServiceState::Running => "Running"@,
                ServiceState::ContinuePending => "ContinuePending"@,
                ServiceState::PausePending => "PausePending"@,
                ServiceState::Paused => "Paused"@,
            };
            &&& opens_service(
                s0,
                role,
                ServiceAccess {
                    query_status: true,
                    start: false,
                    stop: false,
                    change_config: false,
                    delete: false,
                },
                Context::OpenServiceForStatus,
                s2,
                e,
            )
            &&& asks(s2, request::RequestView::QueryStatus)
            &&& fails(failed(s2, e), Some(Context::QueryStatus), e)
            &&& says_and_succeeds(seen(s2, state), "iroh-tunnel-"@ + role + ": "@ + word)
        }),
{
}

/// The line printed for a state belongs to that state alone: two different
/// states never give the same line, and neither do two different roles for the
/// same state.
pub proof fn law_status_lines_tell_states_apart(
    role: Seq<char>,
    other_role: Seq<char>,
    state: ServiceState,
    other: ServiceState,
)
    ensures
        control::notice_line(control::Notice::State(state), role) == "iroh-tunnel-"@ + role + ": "@
            + status::state_word(state),
        control::notice_line(control::Notice::State(state), role) == control::notice_line(
            control::Notice::State(other),
            role,
        ) ==> state == other,
        control::notice_line(control::Notice::State(state), role) == control::notice_line(
            control::Notice::State(state),
            other_role,
        ) ==> role == other_role,
{
    let head = "iroh-tunnel-"@ + role + ": "@;
    let line = control::notice_line(control::Notice::State(state), role);
    let second = control::notice_line(control::Notice::State(other), role);
    assert(line.skip(head.len() as int) =~= status::state_word(state));
    assert(second.skip(head.len() as int) =~= status::state_word(other));
    status::law_state_words_are_spelled_out(state, other);
    let third = control::notice_line(control::Notice::State(state), other_role);
    if line == third {
        let n = "iroh-tunnel-"@.len() as int;
        let tail = ": "@ + status::state_word(state);
        assert(line.len() == n + role.len() + tail.len());
        assert(third.len() == n + other_role.len() + tail.len());
        assert(line.subrange(n, n + role.len()) =~= role);
        assert(third.subrange(n, n + role.len()) =~= other_role);
    }
}

// ---------------------------------------------------------------------------
// Stopping
// ---------------------------------------------------------------------------

/// Whether the operation, once its service has stopped, does what it is for:
/// stopping has succeeded; uninstalling deletes the service, says so and has
/// succeeded, or fails because the deletion did; restarting begins to start.
pub open spec fn goes_on_stopped<E>(
    goal: Goal,
    role: Seq<char>,
    s: control::SessionView<E>,
    e: E,
) -> bool {
    match goal {
        Goal::Uninstall => {
            &&& asks(s, request::RequestView::DeleteService)
            &&& fails(failed(s, e), Some(Context::DeleteService), e)
            &&& says_and_succeeds(done(s), "uninstalled "@ + ("iroh-tunnel-"@ + role))
        },
        Goal::Restart => s == control::opening::<E>(Goal::Start, role, seq![]),
        _ => ends(s, Ok(())),
    }
}

/// Whether the time from `started` to `now` is at least this many seconds and
/// nanoseconds.
pub open spec fn elapsed(started: u128, now: u128, secs: u64, nanos: u32) -> bool {
    now - started >= secs * 1_000_000_000 + nanos
}

/// Whether the operation, about to read the clock at `started`, waits for its
/// service to stop. It asks for the state until that is `Stopped`; after any
/// other state it reads the clock and, when the time is up, gives up with that
/// state, else sleeps for a tenth of a second and asks again, in the very same
/// session. A state that cannot be queried ends it.
pub open spec fn waits<E>(
    s: control::SessionView<E>,
    goal: Goal,
    role: Seq<char>,
    timeout: control::Timeout,
    started: u128,
    state: ServiceState,
    now: u128,
    e: E,
) -> bool {
    let look = clocked(s, started);
    let looked = seen(look, state);
    let read = clocked(looked, now);
    &&& asks(s, request::RequestView::ReadClock)
    &&& asks(look, request::RequestView::QueryStatus)
    &&& fails(failed(look, e), Some(Context::QueryWhileStopping), e)
    &&& state == ServiceState::Stopped ==> goes_on_stopped(goal, role, looked, e)
    &&& state != ServiceState::Stopped ==> {
        &&& asks(looked, request::RequestView::ReadClock)
        &&& elapsed(started, now, timeout.secs, timeout.nanos) ==> ends(
            read,
            Err(
                ServiceError::Refused(
                    Refusal::StopTimeout { seconds: timeout.secs, last: state },
                ),
            ),
        )
        &&& !elapsed(started, now, timeout.secs, timeout.nanos) ==> {
            &&& asks(read, request::RequestView::Sleep(100))
            &&& done(read) == look
        }
    }
}

/// Stopping, uninstalling and restarting connect, open the service with the
/// rights to query and to stop it (uninstalling also with that to delete it, and
/// none with any other), and ask for its state. A stopped service is left alone,
/// one that is stopping is waited for, and any other is sent one stop control
/// and then waited for, for a minute at most. Each failure ends the operation
/// with an error that carries the failure and names the step.
pub proof fn law_stop_step_by_step<E>(
    goal: Goal,
    role: Seq<char>,
    found: ServiceState,
    started: u128,
    state: ServiceState,
    now: u128,
    e: E,
)
    requires
        goal == Goal::Stop || goal == Goal::Uninstall || goal == Goal::Restart,
    ensures
        ({
            let minute = control::Timeout { secs: 60, nanos: 0 };
            let s0 = control::opening::<E>(goal, role, seq![]);
            let s2 = done(done(s0));
            let s3 = seen(s2, found);
            &&& opens_service(
                s0,
                role,
                ServiceAccess {
                    query_status: true,
                    start: false,
                    stop: true,
                    change_config: false,
                    delete: goal == Goal::Uninstall,
                },
                Context::OpenService,
                s2,
                e,
            )
            &&& asks(s2, request::RequestView::QueryStatus)
            &&& fails(failed(s2, e), None, e)
            &&& match found {
                ServiceState::Stopped => goes_on_stopped(goal, role, s3, e),
                ServiceState::StopPending => waits(s3, goal, role, minute, started, state, now, e),
                _ => {
                    &&& asks(s3, request::RequestView::StopService)
                    &&& fails(failed(s3, e), Some(Context::StopService), e)
                    &&& waits(done(s3), goal, role, minute, started, state, now, e)
                },
            }
        }),
{
}

/// A wait by itself waits for as long as it is told to.
pub proof fn law_wait_step_by_step<E>(
    role: Seq<char>,
    timeout: control::Timeout,
    started: u128,
    state: ServiceState,
    now: u128,
    e: E,
)
    ensures
        waits(
            control::waiting::<E>(role, timeout),
            Goal::Stop,
            role,
            timeout,
            started,
            state,
            now,
            e,
        ),
{
}

/// A restart asks for just what a stop asks for, with the same rights, until the
/// service has stopped.
pub proof fn law_restart_asks_as_stop_does<E>(s: control::SessionView<E>)
    ensures
        control::requested(control::SessionView { goal: Goal::Restart, ..s }) == control::requested(
            control::SessionView { goal: Goal::Stop, ..s },
        ),
{
}

/// Time is up exactly when the whole timeout has gone by.
pub proof fn law_time_is_up_when_it_has_gone_by(
    timeout: control::Timeout,
    started: u128,
    now: u128,
)
    ensures
        control::time_is_up(timeout, started, now) <==> elapsed(
            started,
            now,
            timeout.secs,
            timeout.nanos,
        ),
{
}

// ---------------------------------------------------------------------------
// Installing
// ---------------------------------------------------------------------------

/// The installation of the service of `role`, with its executable found and both
/// files looked at.
pub open spec fn looked_at<E>(role: Seq<char>, config: Seq<u16>, binary: Seq<u16>) -> control::SessionView<
    E,
> {
    control::SessionView {
        role,
        goal: Goal::Install,
        config,
        binary,
        timeout: control::Timeout { secs: 60, nanos: 0 },
        stage: Stage::OpenManager,
    }
}

/// Whether the operation reads the variables and, with these values, goes on to
/// `next`: at once where the file at `path` is protected, else by way of this
/// warning.
pub open spec fn warns_unless_protected<E>(
    s: control::SessionView<E>,
    path: Seq<u16>,
    values: Seq<Option<Seq<u16>>>,
    warning: Seq<char>,
    next: control::SessionView<E>,
) -> bool {
    let after = control::advance(s, request::ReplyView::Variables(values));
    &&& asks(
        s,
        request::RequestView::ReadVariables(
            seq!["ProgramFiles"@, "ProgramFiles(x86)"@, "SystemRoot"@],
        ),
    )
    &&& location::protected(path, values) ==> after == next
    &&& !location::protected(path, values) ==> asks(after, request::RequestView::Warn(warning))
        && done(after) == next
}

/// An installation first finds its executable; that this fails ends it. Then it
/// looks at the executable, and warns about it exactly where it lies under none
/// of the protected directories, whatever the configuration's path. Then it
/// looks at the configuration, and warns about that exactly where it lies under
/// none of them, whatever the executable's path. However that went, it goes on
/// the same.
pub proof fn law_install_looks_at_both_files<E>(
    role: Seq<char>,
    config: Seq<u16>,
    binary: Seq<u16>,
    values: Seq<Option<Seq<u16>>>,
    more: Seq<Option<Seq<u16>>>,
    e: E,
)
    ensures
        ({
            let s0 = control::opening::<E>(Goal::Install, role, config);
            let first = control::advance(s0, request::ReplyView::Binary(binary));
            let looked = control::advance(first, request::ReplyView::Variables(values));
            let second = if location::protected(binary, values) {
                looked
            } else {
                done(looked)
            };
            &&& asks(s0, request::RequestView::ResolveBinary)
            &&& fails(failed(s0, e), None, e)
            &&& warns_unless_protected(
                first,
                binary,
                values,
                "warning: "@ + wide::decode(binary)
                    + " is outside Program Files and the Windows directory, so it may be replaceable by a non-administrator; the service runs as LocalSystem, so that would hand out SYSTEM. Copy the binary somewhere only administrators can write and install from there."@,
                second,
            )
            &&& warns_unless_protected(
                second,
                config,
                more,
                "warning: "@ + wide::decode(config)
                    + " is outside Program Files and the Windows directory, so it may be writable by a non-administrator; the service re-reads it as LocalSystem on every start, so that would let a non-administrator choose what a SYSTEM process exposes. Move the config somewhere only administrators can write and install with --config pointing there."@,
                looked_at(role, config, binary),
            )
        }),
{
    location::law_any_set_variable_protects(binary, values);
    location::law_any_set_variable_protects(config, more);
}

/// Whether the operation undoes the creation of its service and then ends with
/// the failure `e`: that the removal fails, too, is only warned about.
pub open spec fn rolls_back<E>(
    s: control::SessionView<E>,
    role: Seq<char>,
    context: Context,
    e: E,
    cause: E,
) -> bool {
    &&& asks(s, request::RequestView::DeleteService)
    &&& fails(done(s), Some(context), e)
    &&& asks(
        failed(s, cause),
        request::RequestView::WarnCause(
            "warning: could not remove the partly created service "@ + ("iroh-tunnel-"@ + role)
                + ": "@,
            cause,
        ),
    )
    &&& fails(done(failed(s, cause)), Some(context), e)
}

/// The recovery that a service is installed with: three restarts, five seconds
/// after each failure, with a day without failures forgiven.
pub open spec fn three_restarts() -> policy::FailureActionsView {
    let restart = ServiceAction { action_type: ServiceActionType::Restart, delay_secs: 5 };
    policy::FailureActionsView {
        reset_period: ServiceFailureResetPeriod::AfterSecs(86_400),
        reboot_msg: None,
        command: None,
        actions: Some(seq![restart, restart, restart]),
    }
}

/// The entry of the service of `role`: in a process of its own, started at boot,
/// as LocalSystem, with the executable that was found, launched with the role
/// and the configuration.
pub open spec fn full_entry(
    role: Seq<char>,
    binary: Seq<u16>,
    config: Seq<u16>,
) -> request::ServiceInfoView {
    request::ServiceInfoView {
        name: "iroh-tunnel-"@ + role,
        display_name: "Iroh Tunnel ("@ + role + ")"@,
        service_type: ServiceType::OwnProcess,
        start_type: ServiceStartType::AutoStart,
        error_control: ServiceErrorControl::Normal,
        executable_path: binary,
        launch_arguments: seq![
            wide::encode(role),
            wide::encode("run"@),
            wide::encode("--config"@),
            config,
            wide::encode("--service"@),
        ],
        dependencies: seq![],
        account_name: None,
        account_password: None,
    }
}

/// With both files looked at, an installation connects, creates the service,
/// sets its recovery, has that hold for a stop with an exit code, too, starts
/// the service, says so and has succeeded. A failure before the service is
/// created ends it; one after that ends it, too, but only once the removal of
/// the service was asked for. The error carries the failure and names the step.
pub proof fn law_install_step_by_step<E>(
    role: Seq<char>,
    config: Seq<u16>,
    binary: Seq<u16>,
    e: E,
    cause: E,
)
    ensures
        ({
            let s0 = looked_at::<E>(role, config, binary);
            let s1 = done(s0);
            let s2 = done(s1);
            let s3 = done(s2);
            let s4 = done(s3);
            &&& asks(s0, request::RequestView::OpenManager(manager_rights(true)))
            &&& fails(failed(s0, e), Some(Context::OpenManager), e)
            &&& asks(
                s1,
                request::RequestView::CreateService(
                    full_entry(role, binary, config),
                    ServiceAccess {
                        query_status: false,
                        start: true,
                        stop: false,
                        change_config: true,
                        delete: true,
                    },
                ),
            )
            &&& fails(failed(s1, e), Some(Context::CreateService), e)
            &&& asks(s2, request::RequestView::UpdateFailureActions(three_restarts()))
            &&& rolls_back(failed(s2, e), role, Context::SetRecovery, e, cause)
            &&& asks(s3, request::RequestView::SetFailureActionsOnNonCrashFailures(true))
            &&& rolls_back(failed(s3, e), role, Context::EnableRecovery, e, cause)
            &&& asks(s4, request::RequestView::StartService)
            &&& rolls_back(failed(s4, e), role, Context::StartCreated, e, cause)
            &&& says_and_succeeds(
                done(s4),
                "installed and started "@ + ("iroh-tunnel-"@ + role),
            )
        }),
{
    let actions = policy::failure_actions_of(policy::default_policy()).actions->Some_0;
    assert(actions =~= three_restarts().actions->Some_0);
}

} // verus!
