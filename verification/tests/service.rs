use std::time::Duration;

use iroh_tunnel_service::error::{control_context, Context, Refusal, ServiceError};
use iroh_tunnel_service::location::is_under_any;
use iroh_tunnel_service::names::{display_name, launch_arguments, service_name, StatusRole};
use iroh_tunnel_service::policy::{
    failure_actions, require_system_scope, RestartPolicy, ServiceActionType,
    ServiceFailureResetPeriod, ServiceScope,
};
use iroh_tunnel_service::status::{
    service_failure_exit, service_status, ServiceControlAccept, ServiceExitCode, ServiceState,
    ServiceType,
};
use iroh_tunnel_service::text::write_decimal;
use iroh_tunnel_service::wide::WideText;

fn accept_stop() -> ServiceControlAccept {
    ServiceControlAccept {
        stop: true,
        shutdown: false,
    }
}

#[test]
fn service_and_display_names_are_role_scoped() {
    assert_eq!(service_name("serve"), "iroh-tunnel-serve");
    assert_eq!(display_name("access"), "Iroh Tunnel (access)");
}

#[test]
fn launch_arguments_carry_role_config_and_service_flag() {
    let args = launch_arguments("serve", &WideText::new(r"C:\cfg\serve.toml"));
    let args: Vec<_> = args.iter().map(|a| a.to_string_lossy()).collect();
    assert_eq!(
        args,
        vec![
            "serve",
            "run",
            "--config",
            r"C:\cfg\serve.toml",
            "--service"
        ]
    );
}

#[test]
fn launch_arguments_end_with_the_service_flag() {
    let args = launch_arguments("access", &WideText::new("cfg.toml"));
    assert_eq!(args.last().unwrap().to_string_lossy(), "--service");
}

#[test]
fn launch_arguments_keep_a_path_that_is_no_text() {
    let config = WideText::from_units(vec![0x43, 0x3A, 0xD800, 0x78]);
    let args = launch_arguments("serve", &config);
    assert_eq!(args[3].units(), &vec![0x43, 0x3A, 0xD800, 0x78]);
    assert_eq!(args[3].to_string_lossy(), "C:\u{FFFD}x");
}

#[test]
fn default_policy_maps_to_three_restart_actions() {
    let actions = failure_actions(&RestartPolicy::default()).actions.unwrap();
    assert_eq!(actions.len(), 3);
    for a in &actions {
        assert_eq!(a.action_type, ServiceActionType::Restart);
        assert_eq!(
            Duration::from_secs(a.delay_secs),
            Duration::from_secs(RestartPolicy::default().delay_secs)
        );
    }
}

#[test]
fn disabled_policy_maps_to_no_action() {
    let policy = RestartPolicy {
        on_failure: false,
        delay_secs: 5,
    };
    let actions = failure_actions(&policy).actions.unwrap();
    for a in &actions {
        assert_eq!(a.action_type, ServiceActionType::Nothing);
    }
}

#[test]
fn recovery_settings_in_full() {
    let on = failure_actions(&RestartPolicy {
        on_failure: true,
        delay_secs: 17,
    });
    assert_eq!(on.reset_period, ServiceFailureResetPeriod::AfterSecs(86_400));
    assert!(on.reboot_msg.is_none());
    assert!(on.command.is_none());
    assert_eq!(on.actions.unwrap()[2].delay_secs, 17);

    let off = failure_actions(&RestartPolicy {
        on_failure: false,
        delay_secs: 17,
    });
    let off = off.actions.unwrap();
    assert_eq!(off.len(), 3);
    assert_eq!(off[0].delay_secs, 0);
}

#[test]
fn admin_only_match_is_case_insensitive_and_component_aligned() {
    let roots = vec![WideText::new(r"C:\Program Files")];
    assert!(is_under_any(
        &WideText::new(r"c:\program files\iroh-tunnel\iroh-tunnel.exe"),
        &roots
    ));
    assert!(!is_under_any(
        &WideText::new(r"C:\Program Files Evil\iroh-tunnel.exe"),
        &roots
    ));
}

#[test]
fn build_trees_and_profiles_are_not_admin_only() {
    let roots = vec![
        WideText::new(r"C:\Program Files"),
        WideText::new(r"C:\Windows"),
    ];
    assert!(!is_under_any(
        &WideText::new(r"E:\rust-target\release\iroh-tunnel.exe"),
        &roots
    ));
    assert!(!is_under_any(
        &WideText::new(r"C:\Users\h\dev\iroh-tunnel.exe"),
        &roots
    ));
}

#[test]
fn prefix_match_tolerates_extended_length_paths_and_forward_slashes() {
    let roots = vec![WideText::new(r"C:\Program Files")];
    assert!(is_under_any(
        &WideText::new(r"\\?\C:\Program Files\iroh-tunnel\iroh-tunnel.exe"),
        &roots
    ));
    assert!(is_under_any(
        &WideText::new("C:/Program Files/iroh-tunnel/iroh-tunnel.exe"),
        &roots
    ));
}

#[test]
fn user_scope_is_rejected_with_an_actionable_message() {
    let err = require_system_scope(ServiceScope::User)
        .unwrap_err()
        .message();
    assert!(
        err.contains("--system"),
        "message should name the fix: {err}"
    );
    assert!(require_system_scope(ServiceScope::System).is_ok());
}

#[test]
fn service_status_reports_success_by_default() {
    let status = service_status(
        ServiceState::Running,
        accept_stop(),
        Duration::ZERO.as_secs(),
    );
    assert_eq!(status.exit_code, ServiceExitCode::no_error());
    assert_eq!(status.checkpoint, 0);
}

#[test]
fn service_status_keeps_what_it_is_given() {
    let status = service_status(ServiceState::PausePending, accept_stop(), 7);
    assert_eq!(status.service_type, ServiceType::OwnProcess);
    assert_eq!(status.current_state, ServiceState::PausePending);
    assert_eq!(status.controls_accepted, accept_stop());
    assert_eq!(status.wait_hint_secs, 7);
    assert_eq!(status.process_id, None);
    assert_ne!(status.controls_accepted, ServiceControlAccept::empty());
}

#[test]
fn failure_exit_code_never_reads_as_a_clean_stop() {
    assert_ne!(service_failure_exit(), ServiceExitCode::no_error());
    assert_ne!(service_failure_exit(), ServiceExitCode::Win32(0));
}

#[test]
fn roles_have_their_words() {
    assert_eq!(StatusRole::Serve.name(), "serve");
    assert_eq!(StatusRole::Access.name(), "access");
}

#[test]
fn decimals_are_written_without_leading_zeros() {
    assert_eq!(write_decimal(0), "0");
    assert_eq!(write_decimal(9), "9");
    assert_eq!(write_decimal(60), "60");
    assert_eq!(write_decimal(1_002_003), "1002003");
    assert_eq!(write_decimal(u64::MAX), "18446744073709551615");
}

#[test]
fn refusals_have_their_messages() {
    assert_eq!(
        Refusal::PerUserService.message(),
        "Windows has no per-user services: the Service Control Manager is machine-wide. \
         Re-run with --system from an elevated prompt."
    );
    assert_eq!(
        Refusal::StopTimeout {
            seconds: 60,
            last: ServiceState::StopPending
        }
        .message(),
        "service did not stop within 60s (last reported state: StopPending)"
    );
    assert_eq!(
        Refusal::ArgumentsAlreadySet.message(),
        "service arguments were already set"
    );
    assert_eq!(
        Refusal::ArgumentsMissing.message(),
        "service started without captured arguments"
    );
}

#[test]
fn contexts_have_their_messages() {
    let cases = [
        (
            Context::OpenManager,
            "failed to open the Service Control Manager",
        ),
        (
            Context::OpenService,
            "failed to open service iroh-tunnel-serve (it may not be installed, or controlling it requires an elevated prompt)",
        ),
        (
            Context::OpenServiceForStatus,
            "failed to open service iroh-tunnel-serve (it may not be installed)",
        ),
        (
            Context::CreateService,
            "failed to create service iroh-tunnel-serve (it may already exist, or installing requires an elevated prompt)",
        ),
        (
            Context::SetRecovery,
            "failed to set service recovery actions",
        ),
        (
            Context::EnableRecovery,
            "failed to enable recovery actions for non-crash exits",
        ),
        (
            Context::StartCreated,
            "the service was created but failed to start",
        ),
        (Context::StartService, "failed to start the service"),
        (Context::StopService, "failed to stop the service"),
        (
            Context::QueryWhileStopping,
            "failed to query service status while stopping",
        ),
        (Context::DeleteService, "failed to delete the service"),
        (Context::QueryStatus, "failed to query service status"),
        (
            Context::ConnectDispatcher,
            "failed to connect to the service control dispatcher",
        ),
        (
            Context::RegisterHandler,
            "failed to register the service control handler",
        ),
        (Context::StartRuntime, "failed to start the Tokio runtime"),
    ];
    for (context, message) in cases {
        assert_eq!(context.message("serve"), message);
        let error = ServiceError::Failed {
            context: Some(context),
            source: 1u8,
        };
        assert_eq!(error.message("serve").unwrap(), message);
    }
    assert_eq!(
        control_context("access"),
        "failed to open service iroh-tunnel-access (it may not be installed, or controlling it requires an elevated prompt)"
    );
}

#[test]
fn an_error_without_a_context_speaks_for_itself() {
    let error = ServiceError::Failed {
        context: None,
        source: "denied",
    };
    assert!(error.message("serve").is_none());
    let refused: ServiceError<u8> = ServiceError::Refused(Refusal::ArgumentsMissing);
    assert_eq!(
        refused.message("serve").unwrap(),
        "service started without captured arguments"
    );
}

#[test]
fn states_have_their_words() {
    let words: Vec<&str> = [
        ServiceState::Stopped,
        ServiceState::StartPending,
        ServiceState::StopPending,
        ServiceState::Running,
        ServiceState::ContinuePending,
        ServiceState::PausePending,
        ServiceState::Paused,
    ]
    .iter()
    .map(|s| s.name())
    .collect();
    assert_eq!(
        words,
        vec![
            "Stopped",
            "StartPending",
            "StopPending",
            "Running",
            "ContinuePending",
            "PausePending",
            "Paused"
        ]
    );
}
