//! The scope of a service, and what the SCM does when it fails.
use vstd::prelude::*;

use crate::error::Refusal;
use crate::location;
use crate::wide::WideText;

verus! {

/// For whom a service is installed.
#[derive(Clone, Copy, Debug, PartialEq, Eq, Structural)]
pub enum ServiceScope {
    User,
    System,
}

/// What checking a scope gives.
pub open spec fn scope_checked(scope: ServiceScope) -> Result<(), Refusal> {
    if scope == ServiceScope::System {
        Ok(())
    } else {
        Err(Refusal::PerUserService)
    }
}

/// Windows services are machine-wide: the user scope is refused.
pub fn require_system_scope(scope: ServiceScope) -> (checked: Result<(), Refusal>)
    ensures
        checked == (match scope {
            ServiceScope::System => Ok::<(), Refusal>(()),
            ServiceScope::User => Err::<(), Refusal>(Refusal::PerUserService),
        }),
        checked == scope_checked(scope),
{
    match scope {
        ServiceScope::User => Err(Refusal::PerUserService),
        ServiceScope::System => Ok(()),
    }
}

/// Whether, and how long after, a failed service is started again.
#[derive(Clone, Copy, Debug, PartialEq, Eq, Structural)]
pub struct RestartPolicy {
    pub on_failure: bool,
    pub delay_secs: u64,
}

/// The delay before a restart where nothing else is asked for.
pub const DEFAULT_DELAY_SECS: u64 = 5;

/// The policy of a service as it is installed: restart on failure.
pub open spec fn default_policy() -> RestartPolicy {
    RestartPolicy { on_failure: true, delay_secs: DEFAULT_DELAY_SECS }
}

impl Default for RestartPolicy {
    fn default() -> (policy: Self)
        ensures
            policy == default_policy(),
    {
        RestartPolicy { on_failure: true, delay_secs: DEFAULT_DELAY_SECS }
    }
}

/// What the SCM can do about a failed service.
#[derive(Clone, Copy, Debug, PartialEq, Eq, Structural)]
pub enum ServiceActionType {
    Nothing,
    Restart,
}

/// What the SCM does about a failed service, and after how many seconds.
#[derive(Clone, Copy, Debug, PartialEq, Eq, Structural)]
pub struct ServiceAction {
    pub action_type: ServiceActionType,
    pub delay_secs: u64,
}

/// When the SCM forgets earlier failures.
#[derive(Clone, Copy, Debug, PartialEq, Eq, Structural)]
pub enum ServiceFailureResetPeriod {
    Never,
    AfterSecs(u64),
}

/// A day without failures makes the next failure count as the first.
pub const FAILURE_RESET_SECS: u64 = 86_400;

/// The recovery settings of a service.
#[derive(Debug)]
pub struct ServiceFailureActions {
    pub reset_period: ServiceFailureResetPeriod,
    pub reboot_msg: Option<WideText>,
    pub command: Option<WideText>,
    pub actions: Option<Vec<ServiceAction>>,
}

/// The contents of recovery settings.
pub struct FailureActionsView {
    pub reset_period: ServiceFailureResetPeriod,
    pub reboot_msg: Option<Seq<u16>>,
    pub command: Option<Seq<u16>>,
    pub actions: Option<Seq<ServiceAction>>,
}

impl View for ServiceFailureActions {
    type V = FailureActionsView;

    open spec fn view(&self) -> FailureActionsView {
        FailureActionsView {
            reset_period: self.reset_period,
            reboot_msg: location::setting(self.reboot_msg),
            command: location::setting(self.command),
            actions: match self.actions {
                Some(actions) => Some(actions@),
                None => None,
            },
        }
    }
}

/// What a policy asks of the SCM for each failure.
pub open spec fn recovery_action(policy: RestartPolicy) -> ServiceAction {
    if policy.on_failure {
        ServiceAction { action_type: ServiceActionType::Restart, delay_secs: policy.delay_secs }
    } else {
        ServiceAction { action_type: ServiceActionType::Nothing, delay_secs: 0 }
    }
}

/// The recovery settings for a policy: the same action for the first, the
/// second and all further failures.
pub open spec fn failure_actions_of(policy: RestartPolicy) -> FailureActionsView {
    FailureActionsView {
        reset_period: ServiceFailureResetPeriod::AfterSecs(FAILURE_RESET_SECS),
        reboot_msg: None,
        command: None,
        actions: Some(Seq::new(3, |i: int| recovery_action(policy))),
    }
}

/// The recovery settings for a policy.
pub fn failure_actions(policy: &RestartPolicy) -> (settings: ServiceFailureActions)
    ensures
        settings@ == failure_actions_of(*policy),
{
    let action = if policy.on_failure {
        ServiceAction { action_type: ServiceActionType::Restart, delay_secs: policy.delay_secs }
    } else {
        ServiceAction { action_type: ServiceActionType::Nothing, delay_secs: 0 }
    };
    let mut actions: Vec<ServiceAction> = Vec::new();
    actions.push(action);
    actions.push(action);
    actions.push(action);
    assert(actions@ =~= Seq::new(3, |i: int| recovery_action(*policy)));
    ServiceFailureActions {
        reset_period: ServiceFailureResetPeriod::AfterSecs(FAILURE_RESET_SECS),
        reboot_msg: None,
        command: None,
        actions: Some(actions),
    }
}

/// Whatever the policy, the SCM is given three actions, all alike: to restart
/// the service after the policy's delay where the policy says so, else to do
/// nothing, at once. A day without failures is forgiven, and neither a message
/// nor a command is set.
pub proof fn law_recovery_follows_the_policy(policy: RestartPolicy)
    ensures
        ({
            let settings = failure_actions_of(policy);
            &&& settings.reset_period == ServiceFailureResetPeriod::AfterSecs(86_400)
            &&& settings.reboot_msg is None
            &&& settings.command is None
            &&& settings.actions matches Some(actions) && actions.len() == 3 && (forall|i: int|
                0 <= i < 3 ==> {
                    &&& policy.on_failure ==> (#[trigger] actions[i]).action_type
                        == ServiceActionType::Restart && actions[i].delay_secs == policy.delay_secs
                    &&& !policy.on_failure ==> actions[i].action_type == ServiceActionType::Nothing
                        && actions[i].delay_secs == 0
                })
        }),
{
}

/// A service as it is installed is restarted on failure, after five seconds.
pub proof fn law_failures_are_restarted_by_default()
    ensures
        default_policy().on_failure,
        default_policy().delay_secs == 5,
{
}

/// The contents of recovery settings are those of its fields.
pub proof fn law_settings_are_seen_in_full(settings: ServiceFailureActions)
    ensures
        settings@.reset_period == settings.reset_period,
        settings@.reboot_msg is Some <==> settings.reboot_msg is Some,
        settings.reboot_msg matches Some(m) ==> settings@.reboot_msg == Some(m@),
        settings@.command is Some <==> settings.command is Some,
        settings.command matches Some(c) ==> settings@.command == Some(c@),
        settings@.actions is Some <==> settings.actions is Some,
        settings.actions matches Some(a) ==> settings@.actions == Some(a@),
{
}

/// The system scope is the only one that is not refused.
pub proof fn law_only_the_system_scope_passes(scope: ServiceScope)
    ensures
        scope_checked(scope) is Ok <==> scope == ServiceScope::System,
        scope_checked(ServiceScope::User) == Err::<(), Refusal>(Refusal::PerUserService),
{
}

} // verus!
