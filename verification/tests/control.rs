use iroh_tunnel_service::control::{
    install, restart, start, status, stop, uninstall, wait_until_stopped, Session, Timeout,
};
use iroh_tunnel_service::error::{Context, Refusal, ServiceError};
use iroh_tunnel_service::policy::{RestartPolicy, ServiceActionType, ServiceScope};
use iroh_tunnel_service::request::{Reply, Request};
use iroh_tunnel_service::status::ServiceState;
use iroh_tunnel_service::wide::WideText;

type Run = Session<&'static str>;

const SYSTEM: ServiceScope = ServiceScope::System;

fn feed(mut session: Run, replies: Vec<Reply<&'static str>>) -> Run {
    for reply in replies {
        session = session.step(reply);
    }
    session
}

/// A word for what is asked for, with what it carries.
fn asked(session: &Run) -> String {
    match session.request() {
        None => "nothing".to_string(),
        Some(request) => match request {
            Request::ResolveBinary => "resolve".to_string(),
            Request::ReadVariables(names) => format!("read {}", names.join(",")),
            Request::Warn(line) => format!("warn {}", line),
            Request::WarnCause(line, cause) => format!("warn {}{}", line, cause),
            Request::Print(line) => format!("print {}", line),
            Request::OpenManager(access) => {
                format!("manager {} {}", access.connect, access.create_service)
            }
            Request::CreateService(info, _) => format!("create {}", info.name),
            Request::OpenService(name, access) => format!(
                "open {} query={} start={} stop={} config={} delete={}",
                name,
                access.query_status,
                access.start,
                access.stop,
                access.change_config,
                access.delete
            ),
            Request::UpdateFailureActions(_) => "recovery".to_string(),
            Request::SetFailureActionsOnNonCrashFailures(on) => format!("non-crash {}", on),
            Request::StartService => "start".to_string(),
            Request::StopService => "stop".to_string(),
            Request::DeleteService => "delete".to_string(),
            Request::QueryStatus => "query".to_string(),
            Request::ReadClock => "clock".to_string(),
            Request::Sleep(millis) => format!("sleep {}", millis),
        },
    }
}

fn roots() -> Reply<&'static str> {
    Reply::Variables(vec![Some(WideText::new(r"C:\Program Files")), None, None])
}

fn installing() -> Run {
    install("serve", SYSTEM, &WideText::new(r"C:\Program Files\cfg.toml")).unwrap()
}

fn created() -> Run {
    feed(
        installing(),
        vec![
            Reply::Binary(WideText::new(r"C:\Program Files\t.exe")),
            roots(),
            roots(),
            Reply::Done,
            Reply::Done,
        ],
    )
}

fn fails_with(session: Run, context: Option<Context>, source: &str) {
    match session.outcome() {
        Some(Err(ServiceError::Failed {
            context: c,
            source: s,
        })) => {
            assert_eq!(c, context);
            assert_eq!(s, source);
        }
        other => panic!("unexpected outcome: {:?}", other),
    }
}

#[test]
fn the_user_scope_is_refused_by_every_operation() {
    let user = ServiceScope::User;
    let config = WideText::new("c");
    let opened: Vec<Result<Run, ServiceError<&str>>> = vec![
        install("serve", user, &config),
        uninstall("serve", user),
        start("serve", user),
        stop("serve", user),
        restart("serve", user),
        status("serve", user),
    ];
    for o in opened {
        assert!(matches!(
            o,
            Err(ServiceError::Refused(Refusal::PerUserService))
        ));
    }
}

#[test]
fn install_asks_in_order() {
    let mut session = installing();
    let mut words = Vec::new();
    for reply in [
        Reply::Binary(WideText::new(r"C:\Program Files\t.exe")),
        roots(),
        roots(),
        Reply::Done,
        Reply::Done,
        Reply::Done,
        Reply::Done,
        Reply::Done,
        Reply::Done,
    ] {
        words.push(asked(&session));
        session = session.step(reply);
    }
    assert_eq!(
        words,
        vec![
            "resolve",
            "read ProgramFiles,ProgramFiles(x86),SystemRoot",
            "read ProgramFiles,ProgramFiles(x86),SystemRoot",
            "manager true true",
            "create iroh-tunnel-serve",
            "recovery",
            "non-crash true",
            "start",
            "print installed and started iroh-tunnel-serve",
        ]
    );
    assert_eq!(asked(&session), "nothing");
    assert!(matches!(session.outcome(), Some(Ok(()))));
}

#[test]
fn install_enters_the_service_in_full() {
    let session = feed(
        installing(),
        vec![
            Reply::Binary(WideText::new(r"C:\Program Files\t.exe")),
            roots(),
            roots(),
            Reply::Done,
        ],
    );
    match session.request() {
        Some(Request::CreateService(info, access)) => {
            assert_eq!(info.name, "iroh-tunnel-serve");
            assert_eq!(info.display_name, "Iroh Tunnel (serve)");
            assert_eq!(
                info.executable_path.to_string_lossy(),
                r"C:\Program Files\t.exe"
            );
            assert_eq!(info.launch_arguments.len(), 5);
            assert_eq!(
                info.launch_arguments[3].to_string_lossy(),
                r"C:\Program Files\cfg.toml"
            );
            assert!(info.dependencies.is_empty());
            assert!(info.account_name.is_none());
            assert!(info.account_password.is_none());
            assert!(access.change_config && access.start && access.delete);
            assert!(!access.stop && !access.query_status);
        }
        other => panic!("not a creation: {:?}", other),
    }
    match session.step(Reply::Done).request() {
        Some(Request::UpdateFailureActions(settings)) => {
            let actions = settings.actions.unwrap();
            assert_eq!(actions.len(), 3);
            assert_eq!(actions[0].action_type, ServiceActionType::Restart);
            assert_eq!(actions[0].delay_secs, RestartPolicy::default().delay_secs);
        }
        other => panic!("not the recovery settings: {:?}", other),
    }
}

#[test]
fn install_warns_about_files_that_others_can_write() {
    let session = install("serve", SYSTEM, &WideText::new(r"D:\cfg.toml")).unwrap();
    let session = feed(
        session,
        vec![Reply::Binary(WideText::new(r"E:\t.exe")), roots()],
    );
    assert!(asked(&session).starts_with("warn warning: E:\\t.exe is outside"));
    let session = session.step(Reply::Done);
    assert!(asked(&session).starts_with("read "));
    let session = session.step(roots());
    assert!(asked(&session).starts_with("warn warning: D:\\cfg.toml is outside"));
    let session = session.step(Reply::Done);
    assert_eq!(asked(&session), "manager true true");
}

#[test]
fn install_fails_with_the_step_that_failed() {
    fails_with(installing().step(Reply::Failed("gone")), None, "gone");
    let ready = || {
        feed(
            installing(),
            vec![
                Reply::Binary(WideText::new(r"C:\Program Files\t.exe")),
                roots(),
                roots(),
            ],
        )
    };
    fails_with(
        ready().step(Reply::Failed("denied")),
        Some(Context::OpenManager),
        "denied",
    );
    fails_with(
        ready().step(Reply::Done).step(Reply::Failed("exists")),
        Some(Context::CreateService),
        "exists",
    );
}

#[test]
fn a_half_created_service_is_removed() {
    let contexts = [
        Context::SetRecovery,
        Context::EnableRecovery,
        Context::StartCreated,
    ];
    for (good, context) in contexts.iter().enumerate() {
        let mut session = created();
        for _ in 0..good {
            session = session.step(Reply::Done);
        }
        session = session.step(Reply::Failed("boom"));
        assert_eq!(asked(&session), "delete");
        fails_with(session.step(Reply::Done), Some(*context), "boom");
    }
}

#[test]
fn a_failed_removal_is_only_warned_about() {
    let session = feed(
        created(),
        vec![Reply::Failed("boom"), Reply::Failed("locked")],
    );
    assert_eq!(
        asked(&session),
        "warn warning: could not remove the partly created service iroh-tunnel-serve: locked"
    );
    fails_with(
        session.step(Reply::Done),
        Some(Context::SetRecovery),
        "boom",
    );
}

#[test]
fn uninstall_stops_and_deletes() {
    let mut session: Run = uninstall("access", SYSTEM).unwrap();
    let mut words = Vec::new();
    for reply in [
        Reply::Done,
        Reply::Done,
        Reply::State(ServiceState::Running),
        Reply::Done,
        Reply::Clock(5),
        Reply::State(ServiceState::StopPending),
        Reply::Clock(6),
        Reply::Done,
        Reply::State(ServiceState::Stopped),
        Reply::Done,
        Reply::Done,
    ] {
        words.push(asked(&session));
        session = session.step(reply);
    }
    assert_eq!(
        words,
        vec![
            "manager true false",
            "open iroh-tunnel-access query=true start=false stop=true config=false delete=true",
            "query",
            "stop",
            "clock",
            "query",
            "clock",
            "sleep 100",
            "query",
            "delete",
            "print uninstalled iroh-tunnel-access",
        ]
    );
    assert!(matches!(session.outcome(), Some(Ok(()))));
}

#[test]
fn uninstall_says_which_step_failed() {
    let opened = || feed(uninstall("serve", SYSTEM).unwrap(), vec![Reply::Done]);
    fails_with(
        opened().step(Reply::Failed("absent")),
        Some(Context::OpenService),
        "absent",
    );
    let asking = || opened().step(Reply::Done);
    fails_with(asking().step(Reply::Failed("lost")), None, "lost");
    fails_with(
        asking()
            .step(Reply::State(ServiceState::Paused))
            .step(Reply::Failed("busy")),
        Some(Context::StopService),
        "busy",
    );
    fails_with(
        asking()
            .step(Reply::State(ServiceState::StopPending))
            .step(Reply::Clock(0))
            .step(Reply::Failed("lost")),
        Some(Context::QueryWhileStopping),
        "lost",
    );
    fails_with(
        asking()
            .step(Reply::State(ServiceState::Stopped))
            .step(Reply::Failed("marked")),
        Some(Context::DeleteService),
        "marked",
    );
}

#[test]
fn a_draining_service_is_sent_no_second_stop() {
    let session = feed(
        stop("serve", SYSTEM).unwrap(),
        vec![
            Reply::Done,
            Reply::Done,
            Reply::State(ServiceState::StopPending),
        ],
    );
    assert_eq!(asked(&session), "clock");
}

#[test]
fn stopping_a_stopped_service_is_done_at_once() {
    let session = feed(
        stop("serve", SYSTEM).unwrap(),
        vec![
            Reply::Done,
            Reply::Done,
            Reply::State(ServiceState::Stopped),
        ],
    );
    assert!(matches!(session.outcome(), Some(Ok(()))));
}

#[test]
fn a_wait_is_given_up_at_the_deadline_and_not_before() {
    let began: u128 = 1_000;
    let waiting = || {
        feed(
            stop("serve", SYSTEM).unwrap(),
            vec![
                Reply::Done,
                Reply::Done,
                Reply::State(ServiceState::StopPending),
                Reply::Clock(began),
                Reply::State(ServiceState::StopPending),
            ],
        )
    };
    let early = waiting().step(Reply::Clock(began + 59_999_999_999));
    assert_eq!(asked(&early), "sleep 100");
    let backwards = waiting().step(Reply::Clock(0));
    assert_eq!(asked(&backwards), "sleep 100");
    let late = waiting().step(Reply::Clock(began + 60_000_000_000));
    assert!(matches!(
        late.outcome(),
        Some(Err(ServiceError::Refused(Refusal::StopTimeout {
            seconds: 60,
            last: ServiceState::StopPending
        })))
    ));
}

#[test]
fn a_wait_takes_as_long_as_it_is_told_to() {
    let timeout = Timeout {
        secs: 2,
        nanos: 500_000_000,
    };
    let began = 7;
    let mut session: Run = wait_until_stopped("serve", timeout);
    assert_eq!(asked(&session), "clock");
    session = session.step(Reply::Clock(began));
    for now in [began, began + 2_000_000_000, began + 2_499_999_999] {
        assert_eq!(asked(&session), "query");
        session = session.step(Reply::State(ServiceState::StopPending));
        assert_eq!(asked(&session), "clock");
        session = session.step(Reply::Clock(now));
        assert_eq!(asked(&session), "sleep 100");
        session = session.step(Reply::Done);
    }
    session = feed(
        session,
        vec![
            Reply::State(ServiceState::Running),
            Reply::Clock(began + 2_500_000_000),
        ],
    );
    match session.outcome() {
        Some(Err(ServiceError::Refused(refusal))) => assert_eq!(
            refusal.message(),
            "service did not stop within 2s (last reported state: Running)"
        ),
        other => panic!("unexpected outcome: {:?}", other),
    }
}

#[test]
fn no_time_is_one_look() {
    let none = Timeout { secs: 0, nanos: 0 };
    let mut session: Run = wait_until_stopped("serve", none);
    let mut words = Vec::new();
    for reply in [
        Reply::Clock(5),
        Reply::State(ServiceState::StopPending),
        Reply::Clock(5),
    ] {
        words.push(asked(&session));
        session = session.step(reply);
    }
    assert_eq!(words, ["clock", "query", "clock"]);
    assert_eq!(asked(&session), "nothing");
    assert!(matches!(
        session.outcome(),
        Some(Err(ServiceError::Refused(Refusal::StopTimeout {
            seconds: 0,
            last: ServiceState::StopPending,
        })))
    ));

    let stopped: Run = feed(
        wait_until_stopped("serve", none),
        vec![Reply::Clock(5), Reply::State(ServiceState::Stopped)],
    );
    assert!(matches!(stopped.outcome(), Some(Ok(()))));
}

#[test]
fn start_opens_and_starts() {
    let session: Run = start("serve", SYSTEM).unwrap();
    assert_eq!(asked(&session), "manager true false");
    let session = session.step(Reply::Done);
    assert_eq!(
        asked(&session),
        "open iroh-tunnel-serve query=false start=true stop=false config=false delete=false"
    );
    let session = session.step(Reply::Done);
    assert_eq!(asked(&session), "start");
    assert!(matches!(session.step(Reply::Done).outcome(), Some(Ok(()))));
    let failing = feed(
        start("serve", SYSTEM).unwrap(),
        vec![Reply::Done, Reply::Done, Reply::Failed("disabled")],
    );
    fails_with(failing, Some(Context::StartService), "disabled");
}

#[test]
fn restart_starts_once_the_service_has_stopped() {
    let session = feed(
        restart("serve", SYSTEM).unwrap(),
        vec![
            Reply::Done,
            Reply::Done,
            Reply::State(ServiceState::Running),
            Reply::Done,
            Reply::Clock(0),
            Reply::State(ServiceState::Stopped),
        ],
    );
    assert_eq!(asked(&session), "manager true false");
    let session = session.step(Reply::Done);
    assert_eq!(
        asked(&session),
        "open iroh-tunnel-serve query=false start=true stop=false config=false delete=false"
    );
    let session = feed(session, vec![Reply::Done, Reply::Done]);
    assert!(matches!(session.outcome(), Some(Ok(()))));
}

#[test]
fn restart_ends_with_a_failed_stop() {
    let session = feed(
        restart("serve", SYSTEM).unwrap(),
        vec![
            Reply::Done,
            Reply::Done,
            Reply::State(ServiceState::Running),
            Reply::Failed("busy"),
        ],
    );
    fails_with(session, Some(Context::StopService), "busy");
}

#[test]
fn status_prints_the_state() {
    let opened = || feed(status("serve", SYSTEM).unwrap(), vec![Reply::Done]);
    assert_eq!(
        asked(&opened()),
        "open iroh-tunnel-serve query=true start=false stop=false config=false delete=false"
    );
    fails_with(
        opened().step(Reply::Failed("absent")),
        Some(Context::OpenServiceForStatus),
        "absent",
    );
    let session = opened().step(Reply::Done);
    assert_eq!(asked(&session), "query");
    fails_with(
        opened().step(Reply::Done).step(Reply::Failed("lost")),
        Some(Context::QueryStatus),
        "lost",
    );
    let session = session.step(Reply::State(ServiceState::StartPending));
    assert_eq!(asked(&session), "print iroh-tunnel-serve: StartPending");
    assert!(matches!(session.step(Reply::Done).outcome(), Some(Ok(()))));
}

#[test]
fn a_reply_that_answers_nothing_changes_nothing() {
    let session: Run = start("serve", SYSTEM).unwrap();
    let session = feed(
        session,
        vec![
            Reply::Clock(3),
            Reply::State(ServiceState::Stopped),
            roots(),
            Reply::Binary(WideText::new("x")),
        ],
    );
    assert_eq!(asked(&session), "manager true false");
    let session = installing().step(Reply::Done);
    assert_eq!(asked(&session), "resolve");
}

#[test]
fn an_outcome_is_final() {
    let session = installing().step(Reply::Failed("gone"));
    fails_with(
        feed(session, vec![Reply::Done, Reply::Failed("again")]),
        None,
        "gone",
    );
    assert!(installing().outcome().is_none());
}
