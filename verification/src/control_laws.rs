//! What holds of every operation, whatever the replies.
use vstd::prelude::*;

use crate::control;
use crate::control::{Goal, Notice, Stage};
use crate::error::{Refusal, ServiceError};
use crate::location;
use crate::request;
use crate::status::ServiceState;

verus! {

/// The session after all of `replies`.
pub open spec fn run<E>(
    s: control::SessionView<E>,
    replies: Seq<request::ReplyView<E>>,
) -> control::SessionView<E>
    decreases replies.len(),
{
    if replies.len() == 0 {
        s
    } else {
        control::advance(run(s, replies.drop_last()), replies.last())
    }
}

/// The session after the first `i` of `replies`.
pub open spec fn at<E>(
    s: control::SessionView<E>,
    replies: Seq<request::ReplyView<E>>,
    i: int,
) -> control::SessionView<E> {
    run(s, replies.take(i))
}

/// What comes after a reply does not change what came before.
proof fn lemma_at<E>(s: control::SessionView<E>, replies: Seq<request::ReplyView<E>>)
    ensures
        at(s, replies, 0) == s,
        at(s, replies, replies.len() as int) == run(s, replies),
        forall|i: int|
            0 <= i < replies.len() ==> #[trigger] at(s, replies, i + 1) == control::advance(
                at(s, replies, i),
                replies[i],
            ),
        replies.len() > 0 ==> forall|i: int|
            0 <= i < replies.len() ==> #[trigger] at(s, replies.drop_last(), i) == at(s, replies, i),
{
    assert(replies.take(0) =~= seq![]);
    assert(replies.take(replies.len() as int) =~= replies);
    assert forall|i: int| 0 <= i < replies.len() implies #[trigger] at(s, replies, i + 1)
        == control::advance(at(s, replies, i), replies[i]) by {
        assert(replies.take(i + 1).drop_last() =~= replies.take(i));
        assert(replies.take(i + 1).last() == replies[i]);
    }
    if replies.len() > 0 {
        assert forall|i: int| 0 <= i < replies.len() implies #[trigger] at(
            s,
            replies.drop_last(),
            i,
        ) == at(s, replies, i) by {
            assert(replies.drop_last().take(i) =~= replies.take(i));
        }
    }
}

/// One reply, one step.
proof fn lemma_step<E>(s: control::SessionView<E>, replies: Seq<request::ReplyView<E>>, i: int)
    requires
        0 <= i < replies.len(),
    ensures
        at(s, replies, i + 1) == control::advance(at(s, replies, i), replies[i]),
{
    lemma_at(s, replies);
}

// ---------------------------------------------------------------------------
// Rights
// ---------------------------------------------------------------------------

/// The stages through which a goal is reached.
pub open spec fn belongs<E>(goal: Goal, stage: Stage<E>) -> bool {
    match stage {
        Stage::OpenManager => true,
        Stage::Finished { .. } => true,
        Stage::OpenService => goal != Goal::Install,
        Stage::StartService => goal == Goal::Start,
        Stage::QueryStatus => goal == Goal::Status,
        Stage::Delete => goal == Goal::Uninstall,
        Stage::Announce { notice } => match notice {
            Notice::Installed => goal == Goal::Install,
            Notice::Uninstalled => goal == Goal::Uninstall,
            Notice::State(_) => goal == Goal::Status,
        },
        Stage::QueryBeforeStop
        | Stage::SendStop
        | Stage::StartClock
        | Stage::PollState { .. }
        | Stage::PollClock { .. }
        | Stage::PollSleep { .. } => goal == Goal::Uninstall || goal == Goal::Stop || goal
            == Goal::Restart,
        _ => goal == Goal::Install,
    }
}

/// Whether the rights that a session has asked for cover its request.
pub open spec fn covered<E>(s: control::SessionView<E>) -> bool {
    let rights = control::service_access(s.goal);
    match control::requested(s) {
        Some(request::RequestView::OpenManager(access)) => access.connect,
        Some(request::RequestView::CreateService(_, access)) => {
            &&& control::manager_access(s.goal).create_service
            &&& access == rights
        },
        Some(request::RequestView::OpenService(_, access)) => access == rights,
        Some(request::RequestView::UpdateFailureActions(_)) => rights.change_config && rights.start,
        Some(request::RequestView::SetFailureActionsOnNonCrashFailures(_)) => rights.change_config,
        Some(request::RequestView::StartService) => rights.start,
        Some(request::RequestView::StopService) => rights.stop,
        Some(request::RequestView::DeleteService) => rights.delete,
        Some(request::RequestView::QueryStatus) => rights.query_status,
        _ => true,
    }
}

/// A session that has asked for nothing yet: an operation at its beginning, or
/// a wait at its own.
pub open spec fn fresh<E>(s: control::SessionView<E>) -> bool {
    &&& s.stage is ResolveBinary || s.stage is OpenManager || s.stage is StartClock
    &&& belongs(s.goal, s.stage)
}

/// Every operation, and every wait, begins fresh. An operation waits for a minute
/// at most, a wait by itself for as long as it is told to.
pub proof fn law_every_session_begins_fresh<E>(
    goal: Goal,
    role: Seq<char>,
    config: Seq<u16>,
    timeout: control::Timeout,
)
    ensures
        fresh(control::opening::<E>(goal, role, config)),
        fresh(control::waiting::<E>(role, timeout)),
        control::opening::<E>(goal, role, config).timeout == (control::Timeout {
            secs: 60,
            nanos: 0,
        }),
        control::waiting::<E>(role, timeout).timeout == timeout,
{
}

proof fn lemma_belongs_from<E>(
    s: control::SessionView<E>,
    replies: Seq<request::ReplyView<E>>,
)
    requires
        fresh(s),
    ensures
        belongs(run(s, replies).goal, run(s, replies).stage),
        run(s, replies).goal == s.goal || s.goal == Goal::Restart && run(s, replies).goal
            == Goal::Start,
        run(s, replies).timeout == s.timeout,
        match run(s, replies).stage {
            Stage::RollBack { error } => error is Failed,
            Stage::WarnRollBack { error, .. } => error is Failed,
            _ => true,
        },
    decreases replies.len(),
{
    if replies.len() > 0 {
        lemma_belongs_from(s, replies.drop_last());
    }
}

proof fn lemma_belongs<E>(
    goal: Goal,
    role: Seq<char>,
    config: Seq<u16>,
    replies: Seq<request::ReplyView<E>>,
)
    ensures
        ({
            let s = run(control::opening(goal, role, config), replies);
            &&& belongs(s.goal, s.stage)
            &&& s.goal == goal || goal == Goal::Restart && s.goal == Goal::Start
        }),
{
    lemma_belongs_from(control::opening(goal, role, config), replies);
}

/// Every request is covered by the rights with which the service was opened,
/// and an operation asks for other rights only by connecting anew.
pub proof fn law_rights_cover_every_request<E>(
    goal: Goal,
    role: Seq<char>,
    config: Seq<u16>,
    replies: Seq<request::ReplyView<E>>,
    reply: request::ReplyView<E>,
)
    ensures
        ({
            let s = run(control::opening(goal, role, config), replies);
            let next = control::advance(s, reply);
            &&& covered(s)
            &&& next.goal != s.goal ==> next.stage == Stage::<E>::OpenManager
        }),
{
    lemma_belongs(goal, role, config, replies);
}

/// An operation concerns one service from beginning to end: whatever is
/// created or opened has the name that belongs to the role.
pub proof fn law_one_service_per_operation<E>(
    goal: Goal,
    role: Seq<char>,
    config: Seq<u16>,
    replies: Seq<request::ReplyView<E>>,
)
    ensures
        ({
            let s = run(control::opening(goal, role, config), replies);
            &&& s.role == role
            &&& s.config == config
            &&& s.timeout == control::stop_poll_timeout()
            &&& control::requested(s) matches Some(request::RequestView::OpenService(name, _))
                ==> name == crate::names::service_name_of(role)
            &&& control::requested(s) matches Some(request::RequestView::CreateService(info, _))
                ==> info == control::service_info(role, s.binary, config)
        }),
    decreases replies.len(),
{
    if replies.len() > 0 {
        law_one_service_per_operation(goal, role, config, replies.drop_last());
    }
}

// ---------------------------------------------------------------------------
// Progress
// ---------------------------------------------------------------------------

/// Whether a stage is part of the wait for a stopping service.
pub open spec fn polling<E>(stage: Stage<E>) -> bool {
    stage is PollState || stage is PollClock || stage is PollSleep
}

/// How far a session has come.
pub open spec fn rank<E>(s: control::SessionView<E>) -> nat {
    let within: nat = match s.stage {
        Stage::ResolveBinary => 0,
        Stage::CheckBinary => 1,
        Stage::WarnBinary => 2,
        Stage::CheckConfig => 3,
        Stage::WarnConfig => 4,
        Stage::OpenManager => 5,
        Stage::CreateService => 6,
        Stage::SetRecovery => 7,
        Stage::EnableRecovery => 8,
        Stage::StartCreated => 9,
        Stage::RollBack { .. } => 10,
        Stage::WarnRollBack { .. } => 11,
        Stage::OpenService => 12,
        Stage::QueryBeforeStop => 13,
        Stage::SendStop => 14,
        Stage::StartClock => 15,
        Stage::PollState { .. } => 16,
        Stage::PollClock { .. } => 16,
        Stage::PollSleep { .. } => 16,
        Stage::Delete => 17,
        Stage::StartService => 18,
        Stage::QueryStatus => 19,
        Stage::Announce { .. } => 20,
        Stage::Finished { .. } => 21,
    };
    if s.goal == Goal::Restart {
        within
    } else {
        within + 22
    }
}

/// A reply takes a session forward or leaves it as it is; only the wait for a
/// stopping service goes round.
proof fn lemma_forward<E>(s: control::SessionView<E>, reply: request::ReplyView<E>)
    ensures
        ({
            let next = control::advance(s, reply);
            ||| rank(next) > rank(s)
            ||| next == s
            ||| rank(next) == rank(s) && polling(s.stage) && polling(next.stage)
        }),
{
}

proof fn lemma_rank_grows<E>(
    s: control::SessionView<E>,
    replies: Seq<request::ReplyView<E>>,
    i: int,
    j: int,
)
    requires
        0 <= i <= j <= replies.len(),
    ensures
        rank(at(s, replies, i)) <= rank(at(s, replies, j)),
    decreases j - i,
{
    if i < j {
        lemma_rank_grows(s, replies, i, j - 1);
        lemma_at(s, replies);
        assert(at(s, replies, (j - 1) + 1) == at(s, replies, j));
        lemma_forward(at(s, replies, j - 1), replies[j - 1]);
    }
}

/// Nothing but the wait for a stopping service is done twice: where a session
/// comes back to a stage outside that wait, it never left it. In particular at
/// most one stop control is sent, and a service is created at most once.
pub proof fn law_no_step_is_repeated<E>(
    s: control::SessionView<E>,
    replies: Seq<request::ReplyView<E>>,
    i: int,
    k: int,
    j: int,
)
    requires
        0 <= i <= k <= j <= replies.len(),
        at(s, replies, i).goal == at(s, replies, j).goal,
        at(s, replies, i).stage == at(s, replies, j).stage,
        !polling(at(s, replies, i).stage),
    ensures
        at(s, replies, k) == at(s, replies, i),
    decreases k - i,
{
    if i < k {
        law_no_step_is_repeated(s, replies, i, k - 1, j);
        lemma_at(s, replies);
        assert(at(s, replies, (k - 1) + 1) == at(s, replies, k));
        lemma_rank_grows(s, replies, k, j);
        lemma_forward(at(s, replies, k - 1), replies[k - 1]);
    }
}

/// A finished operation stays finished, with the same outcome.
pub proof fn law_an_outcome_is_final<E>(
    s: control::SessionView<E>,
    replies: Seq<request::ReplyView<E>>,
)
    requires
        s.stage is Finished,
    ensures
        run(s, replies) == s,
        control::requested(s) is None,
    decreases replies.len(),
{
    if replies.len() > 0 {
        law_an_outcome_is_final(s, replies.drop_last());
    }
}

// ---------------------------------------------------------------------------
// Stopping
// ---------------------------------------------------------------------------

/// Whether reply `i` is the SCM's word that the service has stopped.
pub open spec fn reports_stopped<E>(
    s: control::SessionView<E>,
    replies: Seq<request::ReplyView<E>>,
    i: int,
) -> bool {
    &&& 0 <= i < replies.len()
    &&& control::requested(at(s, replies, i)) == Some(request::RequestView::<E>::QueryStatus)
    &&& replies[i] == request::ReplyView::<E>::State(ServiceState::Stopped)
}

/// Whether a session has left the stopping of its service behind.
pub open spec fn past_stop<E>(s: control::SessionView<E>) -> bool {
    ||| s.goal == Goal::Start
    ||| s.stage is Delete
    ||| s.stage is Announce
    ||| s.stage == (Stage::<E>::Finished { outcome: Ok(()) })
}

/// `Stopped` is waited for: uninstalling deletes the service, restarting turns
/// to the start, and each of these operations and stopping succeeds, only after
/// the SCM itself has reported the service stopped.
pub proof fn law_stopped_is_waited_for<E>(
    goal: Goal,
    role: Seq<char>,
    replies: Seq<request::ReplyView<E>>,
)
    requires
        goal == Goal::Uninstall || goal == Goal::Stop || goal == Goal::Restart,
        past_stop(run(control::opening(goal, role, seq![]), replies)),
    ensures
        exists|i: int| reports_stopped(control::opening(goal, role, seq![]), replies, i),
    decreases replies.len(),
{
    let s0 = control::opening::<E>(goal, role, seq![]);
    if replies.len() > 0 {
        let before = replies.drop_last();
        let n = replies.len() - 1;
        let s = run(s0, before);
        lemma_at(s0, replies);
        lemma_at(s0, before);
        lemma_belongs(goal, role, seq![], before);
        assert(at(s0, replies, n) == s);
        if past_stop(s) {
            law_stopped_is_waited_for(goal, role, before);
            let i = choose|i: int| reports_stopped(s0, before, i);
            assert(at(s0, before, i) == at(s0, replies, i));
            assert(reports_stopped(s0, replies, i));
        } else {
            assert(reports_stopped(s0, replies, n));
        }
    }
}

/// The stop control goes only to a service that the SCM has just reported to be
/// neither stopped nor stopping.
pub proof fn law_a_draining_service_is_not_stopped_again<E>(
    s: control::SessionView<E>,
    reply: request::ReplyView<E>,
)
    requires
        !(s.stage is SendStop),
        control::advance(s, reply).stage is SendStop,
    ensures
        control::requested(s) == Some(request::RequestView::<E>::QueryStatus),
        reply matches request::ReplyView::State(state) && state != ServiceState::Stopped && state
            != ServiceState::StopPending,
{
}

/// Whether reply `i` is the reading of the clock at which a wait begins.
pub open spec fn begins_wait<E>(
    s: control::SessionView<E>,
    replies: Seq<request::ReplyView<E>>,
    i: int,
    started: u128,
) -> bool {
    &&& 0 <= i < replies.len()
    &&& at(s, replies, i).stage is StartClock
    &&& replies[i] == request::ReplyView::<E>::Clock(started)
}

/// Whether reply `j` is a reading of the clock that ends the wait begun with
/// reply `i`.
pub open spec fn ends_wait<E>(
    s: control::SessionView<E>,
    replies: Seq<request::ReplyView<E>>,
    i: int,
    j: int,
) -> bool {
    &&& 0 <= i < j < replies.len()
    &&& replies[i] matches request::ReplyView::Clock(started)
    &&& begins_wait(s, replies, i, started)
    &&& replies[j] matches request::ReplyView::Clock(now)
    &&& control::time_is_up(s.timeout, started, now)
}

proof fn lemma_wait_began<E>(
    s: control::SessionView<E>,
    replies: Seq<request::ReplyView<E>>,
    started: u128,
)
    requires
        fresh(s),
        match run(s, replies).stage {
            Stage::PollState { started: t } => t == started,
            Stage::PollClock { started: t, .. } => t == started,
            Stage::PollSleep { started: t } => t == started,
            _ => false,
        },
    ensures
        exists|i: int| begins_wait(s, replies, i, started),
        run(s, replies).stage matches Stage::PollClock { last, .. } ==> last
            != ServiceState::Stopped,
    decreases replies.len(),
{
    if replies.len() > 0 {
        let before = replies.drop_last();
        let n = replies.len() - 1;
        lemma_at(s, replies);
        lemma_at(s, before);
        assert(at(s, replies, n) == run(s, before));
        if polling(run(s, before).stage) {
            lemma_wait_began(s, before, started);
            let i = choose|i: int| begins_wait(s, before, i, started);
            assert(at(s, before, i) == at(s, replies, i));
            assert(begins_wait(s, replies, i, started));
        } else {
            assert(begins_wait(s, replies, n, started));
        }
    }
}

/// A service is given up on only when its time is up, counted from after the
/// stop control, and only while it is not stopped. The operator is told the
/// time in whole seconds, and the state.
pub proof fn law_no_wait_is_cut_short<E>(
    s: control::SessionView<E>,
    replies: Seq<request::ReplyView<E>>,
    seconds: u64,
    last: ServiceState,
)
    requires
        fresh(s),
        run(s, replies).stage == (Stage::<E>::Finished {
            outcome: Err(ServiceError::Refused(Refusal::StopTimeout { seconds, last })),
        }),
    ensures
        seconds == s.timeout.secs,
        last != ServiceState::Stopped,
        exists|i: int, j: int| ends_wait(s, replies, i, j),
    decreases replies.len(),
{
    if replies.len() > 0 {
        let before = replies.drop_last();
        let n = replies.len() - 1;
        lemma_at(s, replies);
        lemma_belongs_from(s, before);
        match run(s, before).stage {
            Stage::Finished { .. } => {
                law_no_wait_is_cut_short(s, before, seconds, last);
                let (i, j) = choose|i: int, j: int| ends_wait(s, before, i, j);
                assert(at(s, before, i) == at(s, replies, i));
                assert(ends_wait(s, replies, i, j));
            },
            Stage::PollClock { started, .. } => {
                lemma_wait_began(s, before, started);
                let i = choose|i: int| begins_wait(s, before, i, started);
                assert(at(s, before, i) == at(s, replies, i));
                assert(ends_wait(s, replies, i, n));
            },
            _ => {},
        }
    }
}

/// A wait does end: as soon as the clock is read at or behind the deadline, a
/// service that is still not stopped is given up on, with the state it was
/// last seen in. Before that it is looked at again after a sleep.
pub proof fn law_a_wait_ends<E>(
    s: control::SessionView<E>,
    started: u128,
    state: ServiceState,
    now: u128,
)
    requires
        s.stage == (Stage::<E>::PollState { started }),
        state != ServiceState::Stopped,
    ensures
        run(s, seq![request::ReplyView::State(state), request::ReplyView::Clock(now)]).stage == (
        if control::time_is_up(s.timeout, started, now) {
            timed_out::<E>(s.timeout, state)
        } else {
            Stage::<E>::PollSleep { started }
        }),
{
    let replies = seq![request::ReplyView::<E>::State(state), request::ReplyView::Clock(now)];
    lemma_at(s, replies);
    lemma_step(s, replies, 0);
    lemma_step(s, replies, 1);
}

/// The end of a wait whose time is up.
pub open spec fn timed_out<E>(timeout: control::Timeout, last: ServiceState) -> Stage<E> {
    Stage::Finished {
        outcome: Err(
            ServiceError::Refused(Refusal::StopTimeout { seconds: timeout.secs, last }),
        ),
    }
}

/// What is answered to looks at a service: each time its state, then the
/// clock, then that the sleep is over.
pub open spec fn look_replies<E>(looks: Seq<(ServiceState, u128)>) -> Seq<request::ReplyView<E>>
    decreases looks.len(),
{
    if looks.len() == 0 {
        seq![]
    } else {
        look_replies::<E>(looks.drop_last()) + seq![
            request::ReplyView::State(looks.last().0),
            request::ReplyView::Clock(looks.last().1),
            request::ReplyView::Done,
        ]
    }
}

proof fn lemma_wait_goes_round<E>(
    s: control::SessionView<E>,
    started: u128,
    looks: Seq<(ServiceState, u128)>,
)
    requires
        s.stage == (Stage::<E>::PollState { started }),
        forall|k: int|
            0 <= k < looks.len() ==> (#[trigger] looks[k]).0 != ServiceState::Stopped
                && !control::time_is_up(s.timeout, started, looks[k].1),
    ensures
        run(s, look_replies::<E>(looks)) == s,
    decreases looks.len(),
{
    if looks.len() > 0 {
        let before = looks.drop_last();
        assert forall|k: int| 0 <= k < before.len() implies (#[trigger] before[k]).0
            != ServiceState::Stopped && !control::time_is_up(s.timeout, started, before[k].1) by {
            assert(before[k] == looks[k]);
        }
        lemma_wait_goes_round(s, started, before);
        assert(looks.last() == looks[looks.len() - 1]);
        let round = seq![
            request::ReplyView::<E>::State(looks.last().0),
            request::ReplyView::Clock(looks.last().1),
            request::ReplyView::Done,
        ];
        lemma_run_on(s, look_replies::<E>(before), round);
        lemma_at(s, round);
        lemma_step(s, round, 0);
        lemma_step(s, round, 1);
        lemma_step(s, round, 2);
    }
}

/// A service that is never seen stopped is waited for exactly until the time is
/// up, however long that is: after looks at which it was not up, and one at
/// which it was, the wait ends, and the operator is told the time and the state
/// at the last look.
pub proof fn law_a_wait_takes_its_time<E>(
    role: Seq<char>,
    timeout: control::Timeout,
    started: u128,
    looks: Seq<(ServiceState, u128)>,
    last: ServiceState,
    now: u128,
)
    requires
        forall|k: int|
            0 <= k < looks.len() ==> (#[trigger] looks[k]).0 != ServiceState::Stopped
                && !control::time_is_up(timeout, started, looks[k].1),
        last != ServiceState::Stopped,
        control::time_is_up(timeout, started, now),
    ensures
        ({
            let s = control::waiting::<E>(role, timeout);
            let clock = seq![request::ReplyView::<E>::Clock(started)];
            let final_look = seq![
                request::ReplyView::<E>::State(last),
                request::ReplyView::Clock(now),
            ];
            &&& run(s, clock + look_replies::<E>(looks)).stage == (Stage::<E>::PollState {
                started,
            })
            &&& run(s, clock + look_replies::<E>(looks) + final_look).stage == timed_out::<E>(
                timeout,
                last,
            )
        }),
        crate::error::refusal_message(Refusal::StopTimeout { seconds: timeout.secs, last })
            == "service did not stop within "@ + crate::text::decimal(timeout.secs as nat)
            + "s (last reported state: "@ + crate::status::state_word(last) + ")"@,
{
    let s = control::waiting::<E>(role, timeout);
    let clock = seq![request::ReplyView::<E>::Clock(started)];
    let final_look = seq![request::ReplyView::<E>::State(last), request::ReplyView::Clock(now)];
    lemma_at(s, clock);
    lemma_step(s, clock, 0);
    let polling = run(s, clock);
    lemma_run_on(s, clock, look_replies::<E>(looks));
    lemma_wait_goes_round(polling, started, looks);
    lemma_run_on(s, clock + look_replies::<E>(looks), final_look);
    law_a_wait_ends(polling, started, last, now);
}

/// Without any time to wait, the service is looked at exactly once.
pub proof fn law_no_time_is_one_look<E>(
    role: Seq<char>,
    started: u128,
    state: ServiceState,
    now: u128,
)
    requires
        state != ServiceState::Stopped,
        started <= now,
    ensures
        ({
            let s = control::waiting::<E>(role, control::Timeout { secs: 0, nanos: 0 });
            let replies = seq![
                request::ReplyView::<E>::Clock(started),
                request::ReplyView::State(state),
                request::ReplyView::Clock(now),
            ];
            let requests = Seq::new(3, |i: int| control::requested(at(s, replies, i)));
            &&& requests == seq![
                Some(request::RequestView::<E>::ReadClock),
                Some(request::RequestView::QueryStatus),
                Some(request::RequestView::ReadClock),
            ]
            &&& run(s, replies).stage == timed_out::<E>(s.timeout, state)
        }),
{
    let s = control::waiting::<E>(role, control::Timeout { secs: 0, nanos: 0 });
    let replies = seq![
        request::ReplyView::<E>::Clock(started),
        request::ReplyView::State(state),
        request::ReplyView::Clock(now),
    ];
    lemma_at(s, replies);
    lemma_step(s, replies, 0);
    lemma_step(s, replies, 1);
    lemma_step(s, replies, 2);
}

// ---------------------------------------------------------------------------
// Restarting
// ---------------------------------------------------------------------------

/// To restart is to stop and then to start: the session does what stopping
/// does until the service has stopped, and from there what starting does. A
/// stop that fails is the end of it.
pub proof fn law_restart_is_stop_then_start<E>(
    role: Seq<char>,
    replies: Seq<request::ReplyView<E>>,
    more: Seq<request::ReplyView<E>>,
)
    ensures
        ({
            let stopping = run(control::opening::<E>(Goal::Stop, role, seq![]), replies);
            let restarting = run(control::opening::<E>(Goal::Restart, role, seq![]), replies);
            stopping.stage != (Stage::<E>::Finished { outcome: Ok(()) }) ==> restarting == (
            control::SessionView { goal: Goal::Restart, ..stopping })
        }),
        replies.len() > 0 ==> {
            let before = run(
                control::opening::<E>(Goal::Stop, role, seq![]),
                replies.drop_last(),
            );
            let stopping = run(control::opening::<E>(Goal::Stop, role, seq![]), replies);
            !(before.stage is Finished) && stopping.stage == (Stage::<E>::Finished {
                outcome: Ok(()),
            }) ==> run(control::opening::<E>(Goal::Restart, role, seq![]), replies + more) == run(
                control::opening::<E>(Goal::Start, role, seq![]),
                more,
            )
        },
    decreases replies.len(),
{
    if replies.len() > 0 {
        let before = replies.drop_last();
        law_restart_is_stop_then_start(role, before, seq![]);
        lemma_belongs::<E>(Goal::Stop, role, seq![], before);
        law_one_service_per_operation::<E>(Goal::Stop, role, seq![], before);
        lemma_binary_stays(role, before);
        lemma_run_on(control::opening::<E>(Goal::Restart, role, seq![]), replies, more);
    }
}

/// Only an installation finds out about an executable.
proof fn lemma_binary_stays<E>(role: Seq<char>, replies: Seq<request::ReplyView<E>>)
    ensures
        run(control::opening::<E>(Goal::Stop, role, seq![]), replies).binary == Seq::<u16>::empty(),
        run(control::opening::<E>(Goal::Stop, role, seq![]), replies).goal == Goal::Stop,
    decreases replies.len(),
{
    if replies.len() > 0 {
        lemma_binary_stays(role, replies.drop_last());
        lemma_belongs::<E>(Goal::Stop, role, seq![], replies.drop_last());
    }
}

proof fn lemma_run_on<E>(
    s: control::SessionView<E>,
    replies: Seq<request::ReplyView<E>>,
    more: Seq<request::ReplyView<E>>,
)
    ensures
        run(s, replies + more) == run(run(s, replies), more),
    decreases more.len(),
{
    if more.len() > 0 {
        lemma_run_on(s, replies, more.drop_last());
        assert((replies + more).drop_last() =~= replies + more.drop_last());
    } else {
        assert(replies + more =~= replies);
    }
}

// ---------------------------------------------------------------------------
// Installing
// ---------------------------------------------------------------------------

/// Whether reply `i` says that the service was created.
pub open spec fn reports_created<E>(
    s: control::SessionView<E>,
    replies: Seq<request::ReplyView<E>>,
    i: int,
) -> bool {
    &&& 0 <= i < replies.len()
    &&& at(s, replies, i).stage is CreateService
    &&& replies[i] == request::ReplyView::<E>::Done
}

/// Whether, before reply `i`, the removal of the service was asked for because
/// of `error`.
pub open spec fn asks_removal<E>(
    s: control::SessionView<E>,
    replies: Seq<request::ReplyView<E>>,
    i: int,
    error: ServiceError<E>,
) -> bool {
    &&& 0 <= i <= replies.len()
    &&& at(s, replies, i).stage == (Stage::<E>::RollBack { error })
    &&& control::requested(at(s, replies, i)) == Some(request::RequestView::<E>::DeleteService)
}

/// Whether, at this stage, the service is in the SCM's database or was.
pub open spec fn past_creation<E>(stage: Stage<E>) -> bool {
    control::half_created(stage) || stage is RollBack || stage is WarnRollBack || stage is Announce
}

/// What happened stays so, whatever comes after.
proof fn lemma_kept<E>(
    s: control::SessionView<E>,
    replies: Seq<request::ReplyView<E>>,
    i: int,
    error: ServiceError<E>,
)
    requires
        replies.len() > 0,
        i < replies.len(),
    ensures
        reports_created(s, replies.drop_last(), i) ==> reports_created(s, replies, i),
        i < replies.len() - 1 && reports_created(s, replies, i) ==> reports_created(
            s,
            replies.drop_last(),
            i,
        ),
        asks_removal(s, replies.drop_last(), i, error) ==> asks_removal(s, replies, i, error),
{
    if 0 <= i {
        assert(replies.drop_last().take(i) =~= replies.take(i));
    }
}

/// The session before the last reply.
proof fn lemma_before<E>(s: control::SessionView<E>, replies: Seq<request::ReplyView<E>>)
    requires
        replies.len() > 0,
    ensures
        at(s, replies, replies.len() - 1) == run(s, replies.drop_last()),
        at(s, replies, replies.len() as int) == run(s, replies),
{
    assert(replies.take(replies.len() - 1) =~= replies.drop_last());
    assert(replies.take(replies.len() as int) =~= replies);
}

/// An installation is past the creation of its service only where the creation
/// was reported, and then stays past it or ends.
proof fn lemma_creation<E>(
    role: Seq<char>,
    config: Seq<u16>,
    replies: Seq<request::ReplyView<E>>,
)
    ensures
        ({
            let s0 = control::opening::<E>(Goal::Install, role, config);
            let s = run(s0, replies);
            let created = exists|i: int| reports_created(s0, replies, i);
            &&& s.goal == Goal::Install
            &&& past_creation(s.stage) ==> created
            &&& created ==> past_creation(s.stage) || s.stage is Finished
        }),
    decreases replies.len(),
{
    let s0 = control::opening::<E>(Goal::Install, role, config);
    if replies.len() > 0 {
        let before = replies.drop_last();
        let n = replies.len() - 1;
        let p = run(s0, before);
        let none: ServiceError<E> = ServiceError::Refused(Refusal::PerUserService);
        lemma_creation(role, config, before);
        lemma_before(s0, replies);
        lemma_belongs(Goal::Install, role, config, before);
        if exists|i: int| reports_created(s0, before, i) {
            let i = choose|i: int| reports_created(s0, before, i);
            lemma_kept(s0, replies, i, none);
        } else if exists|i: int| reports_created(s0, replies, i) {
            let i = choose|i: int| reports_created(s0, replies, i);
            lemma_kept(s0, replies, i, none);
            assert(i == n);
        } else {
            assert(!reports_created(s0, replies, n));
        }
    }
}

/// An installation that removes its service, or failed with one, asked for the
/// removal.
proof fn lemma_removal<E>(
    role: Seq<char>,
    config: Seq<u16>,
    replies: Seq<request::ReplyView<E>>,
    error: ServiceError<E>,
)
    requires
        ({
            let s0 = control::opening::<E>(Goal::Install, role, config);
            match run(s0, replies).stage {
                Stage::RollBack { error: e } => e == error,
                Stage::WarnRollBack { error: e, .. } => e == error,
                Stage::Finished { outcome: Err(e) } => e == error && exists|i: int|
                    reports_created(s0, replies, i),
                _ => false,
            }
        }),
    ensures
        exists|i: int|
            asks_removal(control::opening::<E>(Goal::Install, role, config), replies, i, error),
    decreases replies.len(),
{
    let s0 = control::opening::<E>(Goal::Install, role, config);
    let s = run(s0, replies);
    let n = replies.len() as int;
    if replies.len() > 0 {
        lemma_before(s0, replies);
        if s.stage is RollBack {
            assert(asks_removal(s0, replies, n, error));
        } else {
            let before = replies.drop_last();
            let p = run(s0, before);
            lemma_creation(role, config, before);
            if s.stage is Finished {
                let i = choose|i: int| reports_created(s0, replies, i);
                lemma_kept(s0, replies, i, error);
            }
            if p.stage is RollBack {
                assert(asks_removal(s0, replies, n - 1, error));
            } else {
                lemma_removal(role, config, before, error);
                let i = choose|i: int| asks_removal(s0, before, i, error);
                lemma_kept(s0, replies, i, error);
            }
        }
    }
}

/// An installation that fails leaves no service behind unasked: if it fails
/// after the service was created, the removal of the service was asked for
/// first, and the error is the one that made it fail, whatever became of the
/// removal.
pub proof fn law_failed_install_is_rolled_back<E>(
    role: Seq<char>,
    config: Seq<u16>,
    replies: Seq<request::ReplyView<E>>,
    created: int,
    error: ServiceError<E>,
)
    requires
        reports_created(control::opening::<E>(Goal::Install, role, config), replies, created),
        run(control::opening::<E>(Goal::Install, role, config), replies).stage == (
        Stage::<E>::Finished { outcome: Err(error) }),
    ensures
        exists|i: int|
            asks_removal(control::opening::<E>(Goal::Install, role, config), replies, i, error),
{
    lemma_removal(role, config, replies, error);
}

/// Whether `asked` was what the session asked for before reply `i`, and the
/// reply says that it was done.
pub open spec fn granted<E>(
    s: control::SessionView<E>,
    replies: Seq<request::ReplyView<E>>,
    i: int,
    asked: request::RequestView<E>,
) -> bool {
    &&& 0 <= i < replies.len()
    &&& control::requested(at(s, replies, i)) == Some(asked)
    &&& replies[i] == request::ReplyView::<E>::Done
}

/// Whether the service was created, its recovery actions were set, recovery was
/// enabled, and only then the service was started, and started only once.
pub open spec fn installed_in_order<E>(
    s: control::SessionView<E>,
    replies: Seq<request::ReplyView<E>>,
    created: int,
    set: int,
    enabled: int,
    started: int,
) -> bool {
    let policy = crate::policy::default_policy();
    &&& created < set < enabled < started
    &&& reports_created(s, replies, created)
    &&& granted(
        s,
        replies,
        set,
        request::RequestView::UpdateFailureActions(crate::policy::failure_actions_of(policy)),
    )
    &&& granted(
        s,
        replies,
        enabled,
        request::RequestView::SetFailureActionsOnNonCrashFailures(policy.on_failure),
    )
    &&& granted(s, replies, started, request::RequestView::StartService)
    &&& forall|i: int|
        #[trigger] granted(s, replies, i, request::RequestView::StartService) ==> i == started
}

/// The reply that brought the session to the stage in which it is before reply
/// `n`.
proof fn lemma_entered<E>(
    s: control::SessionView<E>,
    replies: Seq<request::ReplyView<E>>,
    n: int,
) -> (i: int)
    requires
        0 <= n <= replies.len(),
        at(s, replies, n).stage != s.stage,
    ensures
        0 <= i < n,
        at(s, replies, i).stage != at(s, replies, n).stage,
        control::advance(at(s, replies, i), replies[i]).stage == at(s, replies, n).stage,
    decreases n,
{
    lemma_at(s, replies);
    assert(n > 0);
    lemma_step(s, replies, n - 1);
    if at(s, replies, n - 1).stage != at(s, replies, n).stage {
        n - 1
    } else {
        lemma_entered(s, replies, n - 1)
    }
}

/// What stands before each of the last steps of an installation.
proof fn lemma_install_step<E>(s: control::SessionView<E>, reply: request::ReplyView<E>)
    requires
        s.goal == Goal::Install,
        belongs(s.goal, s.stage),
    ensures
        ({
            let next = control::advance(s, reply).stage;
            next != s.stage ==> {
                &&& next == (Stage::<E>::Finished { outcome: Ok(()) }) ==> s.stage == (
                Stage::<E>::Announce { notice: Notice::Installed })
                &&& next is Announce ==> s.stage is StartCreated && reply is Done
                &&& next is StartCreated ==> s.stage is EnableRecovery && reply is Done
                &&& next is EnableRecovery ==> s.stage is SetRecovery && reply is Done
                &&& next is SetRecovery ==> s.stage is CreateService && reply is Done
            }
        }),
{
}

proof fn lemma_install_entered<E>(
    role: Seq<char>,
    config: Seq<u16>,
    replies: Seq<request::ReplyView<E>>,
    n: int,
) -> (i: int)
    requires
        0 <= n <= replies.len(),
        ({
            let stage = at(control::opening::<E>(Goal::Install, role, config), replies, n).stage;
            ||| stage == (Stage::<E>::Finished { outcome: Ok(()) })
            ||| stage is Announce
            ||| stage is StartCreated
            ||| stage is EnableRecovery
            ||| stage is SetRecovery
        }),
    ensures
        0 <= i < n,
        ({
            let s0 = control::opening::<E>(Goal::Install, role, config);
            let stage = at(s0, replies, i).stage;
            match at(s0, replies, n).stage {
                Stage::Finished { .. } => stage is Announce,
                Stage::Announce { .. } => stage is StartCreated && replies[i] is Done,
                Stage::StartCreated => stage is EnableRecovery && replies[i] is Done,
                Stage::EnableRecovery => stage is SetRecovery && replies[i] is Done,
                _ => stage is CreateService && replies[i] is Done,
            }
        }),
{
    let s0 = control::opening::<E>(Goal::Install, role, config);
    let i = lemma_entered(s0, replies, n);
    lemma_belongs(Goal::Install, role, config, replies.take(i));
    lemma_install_step(at(s0, replies, i), replies[i]);
    i
}

/// A created service is started at most once.
proof fn lemma_started_once<E>(
    role: Seq<char>,
    config: Seq<u16>,
    replies: Seq<request::ReplyView<E>>,
    i: int,
    j: int,
)
    requires
        granted(
            control::opening::<E>(Goal::Install, role, config),
            replies,
            i,
            request::RequestView::StartService,
        ),
        granted(
            control::opening::<E>(Goal::Install, role, config),
            replies,
            j,
            request::RequestView::StartService,
        ),
    ensures
        i >= j,
{
    let s0 = control::opening::<E>(Goal::Install, role, config);
    if i < j {
        lemma_belongs(Goal::Install, role, config, replies.take(i));
        lemma_belongs(Goal::Install, role, config, replies.take(j));
        assert(at(s0, replies, i).stage is StartCreated);
        assert(at(s0, replies, j).stage is StartCreated);
        lemma_step(s0, replies, i);
        lemma_rank_grows(s0, replies, i + 1, j);
    }
}

/// An installation that succeeds has created the service, set and enabled its
/// recovery, and then started it, once; and it never asked for its removal.
pub proof fn law_successful_install_keeps_its_service<E>(
    role: Seq<char>,
    config: Seq<u16>,
    replies: Seq<request::ReplyView<E>>,
)
    requires
        run(control::opening::<E>(Goal::Install, role, config), replies).stage == (
        Stage::<E>::Finished { outcome: Ok(()) }),
    ensures
        exists|created: int, set: int, enabled: int, started: int|
            installed_in_order(
                control::opening::<E>(Goal::Install, role, config),
                replies,
                created,
                set,
                enabled,
                started,
            ),
        forall|i: int|
            0 <= i <= replies.len() ==> control::requested(
                #[trigger] at(control::opening::<E>(Goal::Install, role, config), replies, i),
            ) != Some(request::RequestView::<E>::DeleteService),
{
    let s0 = control::opening::<E>(Goal::Install, role, config);
    lemma_at(s0, replies);
    let announced = lemma_install_entered(role, config, replies, replies.len() as int);
    let started = lemma_install_entered(role, config, replies, announced);
    let enabled = lemma_install_entered(role, config, replies, started);
    let set = lemma_install_entered(role, config, replies, enabled);
    let created = lemma_install_entered(role, config, replies, set);
    let start = request::RequestView::<E>::StartService;
    assert forall|i: int| #[trigger] granted(s0, replies, i, start) implies i == started by {
        lemma_started_once(role, config, replies, i, started);
        lemma_started_once(role, config, replies, started, i);
    }
    assert(installed_in_order(s0, replies, created, set, enabled, started));
    assert forall|i: int| 0 <= i <= replies.len() implies control::requested(
        #[trigger] at(s0, replies, i),
    ) != Some(request::RequestView::<E>::DeleteService) by {
        lemma_belongs(Goal::Install, role, config, replies.take(i));
        if control::requested(at(s0, replies, i)) == Some(
            request::RequestView::<E>::DeleteService,
        ) {
            assert(at(s0, replies, i).stage is RollBack);
            lemma_rolled_back_stays_failed(at(s0, replies, i), replies.skip(i));
            lemma_run_on(s0, replies.take(i), replies.skip(i));
            assert(replies.take(i) + replies.skip(i) =~= replies);
        }
    }
}

/// Once a removal is asked for, the operation can only fail.
proof fn lemma_rolled_back_stays_failed<E>(
    s: control::SessionView<E>,
    replies: Seq<request::ReplyView<E>>,
)
    requires
        s.stage is RollBack,
    ensures
        match run(s, replies).stage {
            Stage::RollBack { .. } => true,
            Stage::WarnRollBack { .. } => true,
            Stage::Finished { outcome } => outcome is Err,
            _ => false,
        },
    decreases replies.len(),
{
    if replies.len() > 0 {
        lemma_rolled_back_stays_failed(s, replies.drop_last());
    }
}

// ---------------------------------------------------------------------------
// Operations in which everything works
// ---------------------------------------------------------------------------

/// A start in which everything works asks for exactly this, in this order, and
/// is done.
pub proof fn law_start_in_order<E>(role: Seq<char>)
    ensures
        ({
            let s0 = control::opening::<E>(Goal::Start, role, seq![]);
            let replies = seq![
                request::ReplyView::<E>::Done,
                request::ReplyView::Done,
                request::ReplyView::Done,
            ];
            let requests = Seq::new(3, |i: int| control::requested(at(s0, replies, i)));
            &&& requests == seq![
                Some(request::RequestView::<E>::OpenManager(control::manager_access(Goal::Start))),
                Some(
                    request::RequestView::OpenService(
                        crate::names::service_name_of(role),
                        control::service_access(Goal::Start),
                    ),
                ),
                Some(request::RequestView::StartService),
            ]
            &&& run(s0, replies).stage == (Stage::<E>::Finished { outcome: Ok(()) })
        }),
{
    let s0 = control::opening::<E>(Goal::Start, role, seq![]);
    let replies = seq![
        request::ReplyView::<E>::Done,
        request::ReplyView::Done,
        request::ReplyView::Done,
    ];
    lemma_at(s0, replies);
    lemma_step(s0, replies, 0);
    lemma_step(s0, replies, 1);
    lemma_step(s0, replies, 2);
}

/// A status query in which everything works asks for exactly this, in this
/// order, prints the state that the SCM reported, and is done.
pub proof fn law_status_in_order<E>(role: Seq<char>, state: ServiceState)
    ensures
        ({
            let s0 = control::opening::<E>(Goal::Status, role, seq![]);
            let replies = seq![
                request::ReplyView::<E>::Done,
                request::ReplyView::Done,
                request::ReplyView::State(state),
                request::ReplyView::Done,
            ];
            let requests = Seq::new(4, |i: int| control::requested(at(s0, replies, i)));
            &&& requests == seq![
                Some(request::RequestView::<E>::OpenManager(control::manager_access(Goal::Status))),
                Some(
                    request::RequestView::OpenService(
                        crate::names::service_name_of(role),
                        control::service_access(Goal::Status),
                    ),
                ),
                Some(request::RequestView::QueryStatus),
                Some(request::RequestView::Print(control::notice_line(Notice::State(state), role))),
            ]
            &&& run(s0, replies).stage == (Stage::<E>::Finished { outcome: Ok(()) })
        }),
{
    let s0 = control::opening::<E>(Goal::Status, role, seq![]);
    let replies = seq![
        request::ReplyView::<E>::Done,
        request::ReplyView::Done,
        request::ReplyView::State(state),
        request::ReplyView::Done,
    ];
    lemma_at(s0, replies);
    lemma_step(s0, replies, 0);
    lemma_step(s0, replies, 1);
    lemma_step(s0, replies, 2);
    lemma_step(s0, replies, 3);
}

/// An uninstall in which everything works, of a service that is up and has
/// stopped at the first look, asks for exactly this, in this order, and is done.
pub proof fn law_uninstall_in_order<E>(role: Seq<char>, state: ServiceState, started: u128)
    requires
        state != ServiceState::Stopped,
        state != ServiceState::StopPending,
    ensures
        ({
            let s0 = control::opening::<E>(Goal::Uninstall, role, seq![]);
            let replies = seq![
                request::ReplyView::<E>::Done,
                request::ReplyView::Done,
                request::ReplyView::State(state),
                request::ReplyView::Done,
                request::ReplyView::Clock(started),
                request::ReplyView::State(ServiceState::Stopped),
                request::ReplyView::Done,
                request::ReplyView::Done,
            ];
            let requests = Seq::new(8, |i: int| control::requested(at(s0, replies, i)));
            &&& requests == seq![
                Some(request::RequestView::<E>::OpenManager(control::manager_access(Goal::Uninstall))),
                Some(
                    request::RequestView::OpenService(
                        crate::names::service_name_of(role),
                        control::service_access(Goal::Uninstall),
                    ),
                ),
                Some(request::RequestView::QueryStatus),
                Some(request::RequestView::StopService),
                Some(request::RequestView::ReadClock),
                Some(request::RequestView::QueryStatus),
                Some(request::RequestView::DeleteService),
                Some(request::RequestView::Print(control::notice_line(Notice::Uninstalled, role))),
            ]
            &&& run(s0, replies).stage == (Stage::<E>::Finished { outcome: Ok(()) })
        }),
{
    let s0 = control::opening::<E>(Goal::Uninstall, role, seq![]);
    let replies = seq![
        request::ReplyView::<E>::Done,
        request::ReplyView::Done,
        request::ReplyView::State(state),
        request::ReplyView::Done,
        request::ReplyView::Clock(started),
        request::ReplyView::State(ServiceState::Stopped),
        request::ReplyView::Done,
        request::ReplyView::Done,
    ];
    lemma_at(s0, replies);
    lemma_step(s0, replies, 0);
    lemma_step(s0, replies, 1);
    lemma_step(s0, replies, 2);
    lemma_step(s0, replies, 3);
    lemma_step(s0, replies, 4);
    lemma_step(s0, replies, 5);
    lemma_step(s0, replies, 6);
    lemma_step(s0, replies, 7);
}

/// An installation in which everything works, with both files where only an
/// administrator can write, asks for exactly this, in this order, and is done.
pub proof fn law_install_in_order<E>(
    role: Seq<char>,
    config: Seq<u16>,
    binary: Seq<u16>,
    values: Seq<Option<Seq<u16>>>,
)
    requires
        location::under_any(binary, location::present(values)),
        location::under_any(config, location::present(values)),
    ensures
        ({
            let s0 = control::opening::<E>(Goal::Install, role, config);
            let replies = seq![
                request::ReplyView::<E>::Binary(binary),
                request::ReplyView::Variables(values),
                request::ReplyView::Variables(values),
                request::ReplyView::Done,
                request::ReplyView::Done,
                request::ReplyView::Done,
                request::ReplyView::Done,
                request::ReplyView::Done,
                request::ReplyView::Done,
            ];
            let requests = Seq::new(9, |i: int| control::requested(at(s0, replies, i)));
            &&& requests == seq![
                Some(request::RequestView::<E>::ResolveBinary),
                Some(request::RequestView::ReadVariables(location::root_variables())),
                Some(request::RequestView::ReadVariables(location::root_variables())),
                Some(request::RequestView::OpenManager(control::manager_access(Goal::Install))),
                Some(
                    request::RequestView::CreateService(
                        control::service_info(role, binary, config),
                        control::service_access(Goal::Install),
                    ),
                ),
                Some(
                    request::RequestView::UpdateFailureActions(
                        crate::policy::failure_actions_of(crate::policy::default_policy()),
                    ),
                ),
                Some(request::RequestView::SetFailureActionsOnNonCrashFailures(true)),
                Some(request::RequestView::StartService),
                Some(
                    request::RequestView::Print(control::notice_line(Notice::Installed, role)),
                ),
            ]
            &&& run(s0, replies).stage == (Stage::<E>::Finished { outcome: Ok(()) })
        }),
{
    let s0 = control::opening::<E>(Goal::Install, role, config);
    let replies = seq![
        request::ReplyView::<E>::Binary(binary),
        request::ReplyView::Variables(values),
        request::ReplyView::Variables(values),
        request::ReplyView::Done,
        request::ReplyView::Done,
        request::ReplyView::Done,
        request::ReplyView::Done,
        request::ReplyView::Done,
        request::ReplyView::Done,
    ];
    lemma_at(s0, replies);
    lemma_step(s0, replies, 0);
    lemma_step(s0, replies, 1);
    lemma_step(s0, replies, 2);
    lemma_step(s0, replies, 3);
    lemma_step(s0, replies, 4);
    lemma_step(s0, replies, 5);
    lemma_step(s0, replies, 6);
    lemma_step(s0, replies, 7);
    lemma_step(s0, replies, 8);
}

// ---------------------------------------------------------------------------
// Success and failure
// ---------------------------------------------------------------------------

/// Where the last steps of starting, querying and uninstalling come from.
proof fn lemma_last_steps<E>(s: control::SessionView<E>, reply: request::ReplyView<E>)
    requires
        s.goal == Goal::Start || s.goal == Goal::Status || s.goal == Goal::Uninstall,
        belongs(s.goal, s.stage),
    ensures
        ({
            let next = control::advance(s, reply).stage;
            next != s.stage ==> {
                &&& next == (Stage::<E>::Finished { outcome: Ok(()) }) ==> reply is Done && (if s.goal
                    == Goal::Start {
                    s.stage is StartService
                } else {
                    s.stage is Announce
                })
                &&& next matches Stage::Announce { notice: Notice::State(state) } ==> s.stage
                    is QueryStatus && reply == request::ReplyView::<E>::State(state)
                &&& next == (Stage::<E>::Announce { notice: Notice::Uninstalled }) ==> s.stage
                    is Delete && reply is Done
                &&& next is Delete ==> reply == request::ReplyView::<E>::State(
                    ServiceState::Stopped,
                ) && control::requested(s) == Some(request::RequestView::<E>::QueryStatus)
                &&& next is StartService || next is QueryStatus ==> s.stage is OpenService
                    && reply is Done
                &&& next is OpenService ==> s.stage is OpenManager && reply is Done
            }
        }),
{
}

/// The reply that brought an operation to the stage in which it is before reply
/// `n`, with what is known of that step.
proof fn lemma_last_entered<E>(
    goal: Goal,
    role: Seq<char>,
    config: Seq<u16>,
    replies: Seq<request::ReplyView<E>>,
    n: int,
) -> (i: int)
    requires
        0 <= n <= replies.len(),
        goal == Goal::Start || goal == Goal::Status || goal == Goal::Uninstall,
        !(at(control::opening::<E>(goal, role, config), replies, n).stage is OpenManager),
    ensures
        0 <= i < n,
        ({
            let s0 = control::opening::<E>(goal, role, config);
            let s = at(s0, replies, i);
            &&& s.goal == goal
            &&& s.role == role
            &&& match at(s0, replies, n).stage {
                Stage::Finished { outcome: Ok(_) } => replies[i] is Done && (if goal
                    == Goal::Start {
                    s.stage is StartService
                } else {
                    s.stage is Announce
                }),
                Stage::Announce { notice: Notice::State(state) } => s.stage is QueryStatus
                    && replies[i] == request::ReplyView::<E>::State(state),
                Stage::Announce { notice: Notice::Uninstalled } => s.stage is Delete
                    && replies[i] is Done,
                Stage::Delete => replies[i] == request::ReplyView::<E>::State(ServiceState::Stopped)
                    && control::requested(s) == Some(request::RequestView::<E>::QueryStatus),
                Stage::StartService => s.stage is OpenService && replies[i] is Done,
                Stage::QueryStatus => s.stage is OpenService && replies[i] is Done,
                Stage::OpenService => s.stage is OpenManager && replies[i] is Done,
                _ => true,
            }
        }),
{
    let s0 = control::opening::<E>(goal, role, config);
    let i = lemma_entered(s0, replies, n);
    let s = at(s0, replies, i);
    lemma_belongs(goal, role, config, replies.take(i));
    law_one_service_per_operation(goal, role, config, replies.take(i));
    lemma_last_steps(s, replies[i]);
    if let Stage::Finished { outcome: Ok(unit) } = at(s0, replies, n).stage {
        assert(unit == ());
    }
    i
}

/// Whether the SCM was connected to and then the service of `role` opened with
/// these rights, both before reply `i`.
pub open spec fn opened_before<E>(
    s: control::SessionView<E>,
    replies: Seq<request::ReplyView<E>>,
    role: Seq<char>,
    rights: request::ServiceAccess,
    connected: int,
    opened: int,
    i: int,
) -> bool {
    &&& connected < opened < i
    &&& granted(
        s,
        replies,
        connected,
        request::RequestView::OpenManager(
            request::ServiceManagerAccess { connect: true, create_service: false },
        ),
    )
    &&& granted(
        s,
        replies,
        opened,
        request::RequestView::OpenService("iroh-tunnel-"@ + role, rights),
    )
}

/// Whether reply `i` says that the service was started, after it was opened with
/// the right to start it.
pub open spec fn started_in_order<E>(
    s: control::SessionView<E>,
    replies: Seq<request::ReplyView<E>>,
    role: Seq<char>,
    connected: int,
    opened: int,
    i: int,
) -> bool {
    &&& opened_before(
        s,
        replies,
        role,
        request::ServiceAccess {
            query_status: false,
            start: true,
            stop: false,
            change_config: false,
            delete: false,
        },
        connected,
        opened,
        i,
    )
    &&& granted(s, replies, i, request::RequestView::StartService)
}

/// A start succeeds only after the SCM was connected to, the service of the role
/// was opened with the right to start it, and the SCM has answered that it
/// started the service, in this order.
pub proof fn law_a_start_that_succeeds_has_started<E>(
    role: Seq<char>,
    config: Seq<u16>,
    replies: Seq<request::ReplyView<E>>,
)
    requires
        run(control::opening::<E>(Goal::Start, role, config), replies).stage == (
        Stage::<E>::Finished { outcome: Ok(()) }),
    ensures
        exists|connected: int, opened: int, i: int|
            started_in_order(
                control::opening::<E>(Goal::Start, role, config),
                replies,
                role,
                connected,
                opened,
                i,
            ),
{
    let s0 = control::opening::<E>(Goal::Start, role, config);
    lemma_at(s0, replies);
    let i = lemma_last_entered(Goal::Start, role, config, replies, replies.len() as int);
    let opened = lemma_last_entered(Goal::Start, role, config, replies, i);
    let connected = lemma_last_entered(Goal::Start, role, config, replies, opened);
    assert(started_in_order(s0, replies, role, connected, opened, i));
}

/// Whether reply `asked` is the state of the service, and reply `i` says that
/// the line with just that state was printed.
pub open spec fn printed_as_reported<E>(
    s: control::SessionView<E>,
    replies: Seq<request::ReplyView<E>>,
    role: Seq<char>,
    asked: int,
    i: int,
) -> bool {
    &&& 0 <= asked < i
    &&& control::requested(at(s, replies, asked)) == Some(request::RequestView::<E>::QueryStatus)
    &&& replies[asked] matches request::ReplyView::State(state)
    &&& granted(
        s,
        replies,
        i,
        request::RequestView::Print(
            "iroh-tunnel-"@ + role + ": "@ + crate::status::state_word(state),
        ),
    )
}

/// A status query succeeds only after the state that the SCM reported has been
/// printed, under the name of the service.
pub proof fn law_a_status_that_succeeds_has_printed<E>(
    role: Seq<char>,
    config: Seq<u16>,
    replies: Seq<request::ReplyView<E>>,
)
    requires
        run(control::opening::<E>(Goal::Status, role, config), replies).stage == (
        Stage::<E>::Finished { outcome: Ok(()) }),
    ensures
        exists|asked: int, i: int|
            printed_as_reported(
                control::opening::<E>(Goal::Status, role, config),
                replies,
                role,
                asked,
                i,
            ),
{
    let s0 = control::opening::<E>(Goal::Status, role, config);
    lemma_at(s0, replies);
    let i = lemma_last_entered(Goal::Status, role, config, replies, replies.len() as int);
    lemma_belongs(Goal::Status, role, config, replies.take(i));
    let asked = lemma_last_entered(Goal::Status, role, config, replies, i);
    assert(printed_as_reported(s0, replies, role, asked, i));
}

/// Whether reply `stopped` is the SCM's word that the service has stopped, and
/// reply `i` that it was deleted after that.
pub open spec fn deleted_once_stopped<E>(
    s: control::SessionView<E>,
    replies: Seq<request::ReplyView<E>>,
    stopped: int,
    i: int,
) -> bool {
    &&& stopped < i
    &&& reports_stopped(s, replies, stopped)
    &&& granted(s, replies, i, request::RequestView::DeleteService)
}

/// An uninstall succeeds only after the SCM has reported the service stopped and
/// then answered that it was deleted.
pub proof fn law_an_uninstall_that_succeeds_has_deleted<E>(
    role: Seq<char>,
    config: Seq<u16>,
    replies: Seq<request::ReplyView<E>>,
)
    requires
        run(control::opening::<E>(Goal::Uninstall, role, config), replies).stage == (
        Stage::<E>::Finished { outcome: Ok(()) }),
    ensures
        exists|stopped: int, i: int|
            deleted_once_stopped(
                control::opening::<E>(Goal::Uninstall, role, config),
                replies,
                stopped,
                i,
            ),
{
    let s0 = control::opening::<E>(Goal::Uninstall, role, config);
    lemma_at(s0, replies);
    let said = lemma_last_entered(Goal::Uninstall, role, config, replies, replies.len() as int);
    lemma_belongs(Goal::Uninstall, role, config, replies.take(said));
    let i = lemma_last_entered(Goal::Uninstall, role, config, replies, said);
    let stopped = lemma_last_entered(Goal::Uninstall, role, config, replies, i);
    assert(deleted_once_stopped(s0, replies, stopped, i));
}

/// Whether an operation carries the failure `e` to its end, or has ended with
/// it.
pub open spec fn carries<E>(stage: Stage<E>, e: E) -> bool {
    let error = match stage {
        Stage::RollBack { error } => Some(error),
        Stage::WarnRollBack { error, .. } => Some(error),
        Stage::Finished { outcome: Err(error) } => Some(error),
        _ => None,
    };
    error matches Some(ServiceError::Failed { source, .. }) && source == e
}

proof fn lemma_carried<E>(
    s: control::SessionView<E>,
    replies: Seq<request::ReplyView<E>>,
    e: E,
)
    requires
        carries(s.stage, e),
    ensures
        carries(run(s, replies).stage, e),
    decreases replies.len(),
{
    if replies.len() > 0 {
        lemma_carried(s, replies.drop_last(), e);
    }
}

/// The first failure is the outcome: where anything that can fail does, in any
/// operation, the operation cannot succeed any more, and however it ends, its
/// error carries that failure. Only what undoes an earlier failure may fail
/// without that.
pub proof fn law_first_failure_is_the_outcome<E>(
    s: control::SessionView<E>,
    e: E,
    more: Seq<request::ReplyView<E>>,
)
    requires
        ({
            ||| control::requested(s) matches Some(request::RequestView::ResolveBinary)
            ||| control::requested(s) matches Some(request::RequestView::OpenManager(_))
            ||| control::requested(s) matches Some(request::RequestView::CreateService(_, _))
            ||| control::requested(s) matches Some(request::RequestView::OpenService(_, _))
            ||| control::requested(s) matches Some(request::RequestView::UpdateFailureActions(_))
            ||| control::requested(s) matches Some(
                request::RequestView::SetFailureActionsOnNonCrashFailures(_),
            )
            ||| control::requested(s) matches Some(request::RequestView::StartService)
            ||| control::requested(s) matches Some(request::RequestView::StopService)
            ||| control::requested(s) matches Some(request::RequestView::QueryStatus)
            ||| control::requested(s) matches Some(request::RequestView::DeleteService)
                && !(s.stage is RollBack)
        }),
    ensures
        ({
            let end = run(control::advance(s, request::ReplyView::Failed(e)), more);
            &&& end.stage != (Stage::<E>::Finished { outcome: Ok(()) })
            &&& end.stage matches Stage::Finished { outcome } ==> outcome matches Err(
                ServiceError::Failed { source, .. },
            ) && source == e
        }),
{
    let s1 = control::advance(s, request::ReplyView::Failed(e));
    assert(carries(s1.stage, e));
    lemma_carried(s1, more, e);
}

} // verus!
