use iroh_tunnel_service::error::{Context, Refusal, ServiceError};
use iroh_tunnel_service::host::{
    dispatcher_returned, reachable, run_as_service, service_body, service_main, RunRequest, ServiceArgs,
    ServiceControl, ServiceControlHandlerResult, ServiceRun, StopProgress, StopSignal,
};
use iroh_tunnel_service::names::StatusRole;
use iroh_tunnel_service::status::{ServiceExitCode, ServiceState, ServiceStatus};
use iroh_tunnel_service::wide::WideText;

fn args() -> ServiceArgs {
    ServiceArgs {
        role: StatusRole::Access,
        config: WideText::new("cfg.toml"),
    }
}

fn begin() -> ServiceRun<&'static str> {
    service_body(Some(&args())).unwrap()
}

fn reported(run: &ServiceRun<&'static str>) -> ServiceStatus {
    match run.request() {
        Some(RunRequest::Report(status)) => status,
        Some(RunRequest::ReportStopped(status)) => status,
        other => panic!("not a report: {:?}", other),
    }
}

#[test]
fn arguments_are_noted_once() {
    let mut slot = None;
    let config = WideText::new("a.toml");
    assert_eq!(
        run_as_service(&mut slot, StatusRole::Serve, &config).unwrap(),
        "iroh-tunnel-serve"
    );
    assert_eq!(
        run_as_service(&mut slot, StatusRole::Access, &WideText::new("b.toml")).unwrap_err(),
        Refusal::ArgumentsAlreadySet
    );
    let noted = slot.unwrap();
    assert_eq!(noted.role, StatusRole::Serve);
    assert_eq!(noted.config, config);
}

#[test]
fn a_body_without_arguments_is_refused() {
    let body: Result<ServiceRun<u8>, ServiceError<u8>> = service_body(None);
    assert!(matches!(
        body,
        Err(ServiceError::Refused(Refusal::ArgumentsMissing))
    ));
}

#[test]
fn the_failure_of_the_service_is_the_failure_of_the_process() {
    let mut failure: Option<ServiceError<&str>> = None;
    service_main(Ok(()), &mut failure);
    assert!(failure.is_none());
    assert!(dispatcher_returned(Ok(()), &mut failure).is_ok());

    service_main(
        Err(ServiceError::Failed {
            context: None,
            source: "boom",
        }),
        &mut failure,
    );
    assert!(matches!(
        dispatcher_returned(Err("no dispatcher"), &mut failure),
        Err(ServiceError::Failed {
            context: Some(Context::ConnectDispatcher),
            source: "no dispatcher"
        })
    ));
    assert!(failure.is_some());
    assert!(matches!(
        dispatcher_returned(Ok(()), &mut failure),
        Err(ServiceError::Failed {
            context: None,
            source: "boom"
        })
    ));
    assert!(failure.is_none());
}

#[test]
fn a_clean_life_reports_in_order() {
    let run = begin();
    assert!(matches!(
        run.request(),
        Some(RunRequest::RegisterHandler(name)) if name == "iroh-tunnel-access"
    ));
    let run = run.step(Ok(()));
    let starting = reported(&run);
    assert_eq!(starting.current_state, ServiceState::StartPending);
    assert_eq!(starting.wait_hint_secs, 30);
    assert!(!starting.controls_accepted.stop && !starting.controls_accepted.shutdown);
    let run = run.step(Ok(()));
    assert!(matches!(run.request(), Some(RunRequest::StartRuntime)));
    let run = run.step(Ok(()));
    let running = reported(&run);
    assert_eq!(running.current_state, ServiceState::Running);
    assert_eq!(running.wait_hint_secs, 0);
    assert!(running.controls_accepted.stop && running.controls_accepted.shutdown);
    let run = run.step(Ok(()));
    match run.request() {
        Some(RunRequest::RunRole(role, config)) => {
            assert_eq!(role, StatusRole::Access);
            assert_eq!(config.to_string_lossy(), "cfg.toml");
        }
        other => panic!("not the role: {:?}", other),
    }
    let run = run.step(Ok(()));
    let stopped = reported(&run);
    assert_eq!(stopped.current_state, ServiceState::Stopped);
    assert_eq!(stopped.exit_code, ServiceExitCode::Win32(0));
    assert_eq!(stopped.checkpoint, 0);
    let run = run.step(Ok(()));
    assert!(run.request().is_none());
    assert!(matches!(run.outcome(), Some(Ok(()))));
}

#[test]
fn every_failure_on_the_way_is_reported_as_one() {
    let contexts = [None, Some(Context::StartRuntime), None, None];
    for (good, context) in contexts.iter().enumerate() {
        let mut run = begin().step(Ok(()));
        for _ in 0..good {
            run = run.step(Ok(()));
        }
        run = run.step(Err("boom"));
        let stopped = reported(&run);
        assert_eq!(stopped.current_state, ServiceState::Stopped);
        assert_eq!(stopped.exit_code, ServiceExitCode::ServiceSpecific(1));
        run = run.step(Err("not delivered"));
        match run.outcome() {
            Some(Err(ServiceError::Failed {
                context: c,
                source: "boom",
            })) => assert_eq!(c, *context),
            other => panic!("unexpected outcome: {:?}", other),
        }
    }
}

#[test]
fn without_a_handler_nothing_is_reported() {
    let run = begin().step(Err("refused"));
    assert!(run.request().is_none());
    assert!(matches!(
        run.step(Ok(())).outcome(),
        Some(Err(ServiceError::Failed {
            context: Some(Context::RegisterHandler),
            source: "refused"
        }))
    ));
    assert!(begin().outcome().is_none());
}

#[test]
fn the_role_is_told_to_stop_once() {
    let mut signal = StopSignal::new();
    let other = signal.handle_control(ServiceControl::Other, true);
    assert!(!other.signal);
    assert_eq!(other.result, ServiceControlHandlerResult::NotImplemented);
    let asked = signal.handle_control(ServiceControl::Interrogate, true);
    assert!(!asked.signal);
    assert_eq!(asked.report, None);
    assert_eq!(asked.result, ServiceControlHandlerResult::NoError);

    let first = signal.handle_control(ServiceControl::Shutdown, true);
    assert!(first.signal);
    let report = first.report.unwrap();
    assert_eq!(report.current_state, ServiceState::StopPending);
    assert_eq!(report.wait_hint_secs, 10);
    assert_eq!(report.checkpoint, 0);
    assert_eq!(first.result, ServiceControlHandlerResult::NoError);

    let second = signal.handle_control(ServiceControl::Stop, true);
    assert!(!second.signal);
    assert_eq!(second.report, None);
    assert_eq!(second.result, ServiceControlHandlerResult::NoError);
}

#[test]
fn an_early_stop_signals_without_a_report() {
    let mut signal = StopSignal::new();
    let early = signal.handle_control(ServiceControl::Stop, false);
    assert!(early.signal);
    assert_eq!(early.report, None);
}

#[test]
fn a_control_after_the_last_report_signals_without_a_report() {
    assert!(reachable(true, false));
    for (known, drained) in [(true, true), (false, false), (false, true)] {
        assert!(!reachable(known, drained));
        let mut signal = StopSignal::new();
        let late = signal.handle_control(ServiceControl::Stop, reachable(known, drained));
        assert!(late.signal);
        assert_eq!(late.report, None);
        assert_eq!(late.result, ServiceControlHandlerResult::NoError);
    }
}

#[test]
fn a_service_that_has_drained_reports_no_progress() {
    let mut progress = StopProgress::new();
    assert_eq!(progress.report_stop_progress(true), None);
    assert_eq!(progress.checkpoint(), 1);
}

#[test]
fn checkpoints_advance_until_the_service_has_drained() {
    let mut progress = StopProgress::new();
    for expected in 1..4 {
        assert_eq!(progress.checkpoint(), expected);
        let report = progress.report_stop_progress(false).unwrap();
        assert_eq!(report.checkpoint, expected);
        assert_eq!(report.current_state, ServiceState::StopPending);
        assert_eq!(report.wait_hint_secs, 10);
    }
    assert_eq!(progress.report_stop_progress(true), None);
    assert_eq!(progress.checkpoint(), 4);
}
