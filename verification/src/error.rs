//! Why an operation did not succeed, and what the operator is told.
use vstd::prelude::*;

use crate::names;
use crate::status;
use crate::status::ServiceState;
use crate::text;

verus! {

/// A reason that lies in the request or in the service itself.
#[derive(Clone, Copy, Debug, PartialEq, Eq, Structural)]
pub enum Refusal {
    /// A service was asked for in the user scope.
    PerUserService,
    /// The service was still not stopped when the time was up.
    StopTimeout { seconds: u64, last: ServiceState },
    /// This process was already told which service it is.
    ArgumentsAlreadySet,
    /// This process was never told which service it is.
    ArgumentsMissing,
}

/// What the operator is told about a refusal.
pub open spec fn refusal_message(refusal: Refusal) -> Seq<char> {
    match refusal {
        Refusal::PerUserService =>
            "Windows has no per-user services: the Service Control Manager is machine-wide. Re-run with --system from an elevated prompt."@,
        Refusal::StopTimeout { seconds, last } => "service did not stop within "@ + text::decimal(
            seconds as nat,
        ) + "s (last reported state: "@ + status::state_word(last) + ")"@,
        Refusal::ArgumentsAlreadySet => "service arguments were already set"@,
        Refusal::ArgumentsMissing => "service started without captured arguments"@,
    }
}

impl Refusal {
    /// What the operator is told.
    pub fn message(&self) -> (message: String)
        ensures
            message@ == refusal_message(*self),
    {
        match *self {
            Refusal::PerUserService =>
                "Windows has no per-user services: the Service Control Manager is machine-wide. Re-run with --system from an elevated prompt.".to_string(),
            Refusal::StopTimeout { seconds, last } => "service did not stop within ".to_string().concat(
                text::write_decimal(seconds).as_str(),
            ).concat("s (last reported state: ").concat(last.name()).concat(")"),
            Refusal::ArgumentsAlreadySet => "service arguments were already set".to_string(),
            Refusal::ArgumentsMissing => "service started without captured arguments".to_string(),
        }
    }
}

/// The step during which something outside failed.
#[derive(Clone, Copy, Debug, PartialEq, Eq, Structural)]
pub enum Context {
    OpenManager,
    OpenService,
    OpenServiceForStatus,
    CreateService,
    SetRecovery,
    EnableRecovery,
    StartCreated,
    StartService,
    StopService,
    QueryWhileStopping,
    DeleteService,
    QueryStatus,
    ConnectDispatcher,
    RegisterHandler,
    StartRuntime,
}

/// What the operator is told where the service of `role` cannot be opened.
pub open spec fn control_context_of(role: Seq<char>) -> Seq<char> {
    "failed to open service "@ + names::service_name_of(role)
        + " (it may not be installed, or controlling it requires an elevated prompt)"@
}

/// What the operator is told where the service of `role` cannot be opened.
pub fn control_context(role: &str) -> (message: String)
    ensures
        message@ == control_context_of(role@),
{
    "failed to open service ".to_string().concat(names::service_name(role).as_str()).concat(
        " (it may not be installed, or controlling it requires an elevated prompt)",
    )
}

/// What the operator is told about a failed step for the service of `role`.
pub open spec fn context_message(context: Context, role: Seq<char>) -> Seq<char> {
    match context {
        Context::OpenManager => "failed to open the Service Control Manager"@,
        Context::OpenService => control_context_of(role),
        Context::OpenServiceForStatus => "failed to open service "@ + names::service_name_of(role)
            + " (it may not be installed)"@,
        Context::CreateService => "failed to create service "@ + names::service_name_of(role)
            + " (it may already exist, or installing requires an elevated prompt)"@,
        Context::SetRecovery => "failed to set service recovery actions"@,
        Context::EnableRecovery => "failed to enable recovery actions for non-crash exits"@,
        Context::StartCreated => "the service was created but failed to start"@,
        Context::StartService => "failed to start the service"@,
        Context::StopService => "failed to stop the service"@,
        Context::QueryWhileStopping => "failed to query service status while stopping"@,
        Context::DeleteService => "failed to delete the service"@,
        Context::QueryStatus => "failed to query service status"@,
        Context::ConnectDispatcher => "failed to connect to the service control dispatcher"@,
        Context::RegisterHandler => "failed to register the service control handler"@,
        Context::StartRuntime => "failed to start the Tokio runtime"@,
    }
}

impl Context {
    /// What the operator is told about the failed step.
    pub fn message(&self, role: &str) -> (message: String)
        ensures
            message@ == context_message(*self, role@),
    {
        match *self {
            Context::OpenManager => "failed to open the Service Control Manager".to_string(),
            Context::OpenService => control_context(role),
            Context::OpenServiceForStatus => "failed to open service ".to_string().concat(
                names::service_name(role).as_str(),
            ).concat(" (it may not be installed)"),
            Context::CreateService => "failed to create service ".to_string().concat(
                names::service_name(role).as_str(),
            ).concat(" (it may already exist, or installing requires an elevated prompt)"),
            Context::SetRecovery => "failed to set service recovery actions".to_string(),
            Context::EnableRecovery =>
                "failed to enable recovery actions for non-crash exits".to_string(),
            Context::StartCreated => "the service was created but failed to start".to_string(),
            Context::StartService => "failed to start the service".to_string(),
            Context::StopService => "failed to stop the service".to_string(),
            Context::QueryWhileStopping =>
                "failed to query service status while stopping".to_string(),
            Context::DeleteService => "failed to delete the service".to_string(),
            Context::QueryStatus => "failed to query service status".to_string(),
            Context::ConnectDispatcher =>
                "failed to connect to the service control dispatcher".to_string(),
            Context::RegisterHandler =>
                "failed to register the service control handler".to_string(),
            Context::StartRuntime => "failed to start the Tokio runtime".to_string(),
        }
    }
}

/// Why an operation did not succeed. `E` is the error of whatever performs the
/// requests; it is handed on as it came.
#[derive(Debug)]
pub enum ServiceError<E> {
    Refused(Refusal),
    Failed { context: Option<Context>, source: E },
}

/// The message that stands in front of an error, where it has one of its own.
/// An outside error without a context speaks for itself.
pub open spec fn error_message<E>(error: ServiceError<E>, role: Seq<char>) -> Option<Seq<char>> {
    match error {
        ServiceError::Refused(refusal) => Some(refusal_message(refusal)),
        ServiceError::Failed { context: Some(context), .. } => Some(context_message(context, role)),
        ServiceError::Failed { context: None, .. } => None,
    }
}

impl<E> ServiceError<E> {
    /// The message that stands in front of the error, where it has one of its
    /// own. An outside error without a context speaks for itself.
    pub fn message(&self, role: &str) -> (message: Option<String>)
        ensures
            message is Some <==> error_message(*self, role@) is Some,
            message matches Some(m) ==> Some(m@) == error_message(*self, role@),
    {
        match self {
            ServiceError::Refused(refusal) => Some(refusal.message()),
            ServiceError::Failed { context: Some(context), .. } => Some(context.message(role)),
            ServiceError::Failed { context: None, .. } => None,
        }
    }
}

/// What the operator is told about a refusal, letter by letter.
pub proof fn law_refusals_are_spelled_out(seconds: u64, last: ServiceState)
    ensures
        refusal_message(Refusal::PerUserService)
            == "Windows has no per-user services: the Service Control Manager is machine-wide. Re-run with --system from an elevated prompt."@,
        refusal_message(Refusal::StopTimeout { seconds, last }) == "service did not stop within "@
            + text::decimal(seconds as nat) + "s (last reported state: "@ + status::state_word(last)
            + ")"@,
        refusal_message(Refusal::ArgumentsAlreadySet) == "service arguments were already set"@,
        refusal_message(Refusal::ArgumentsMissing) == "service started without captured arguments"@,
{
}

/// What the operator is told about a failed step, letter by letter, whatever
/// the role.
pub proof fn law_contexts_are_spelled_out(role: Seq<char>)
    ensures
        control_context_of(role) == "failed to open service "@ + ("iroh-tunnel-"@ + role)
            + " (it may not be installed, or controlling it requires an elevated prompt)"@,
        context_message(Context::OpenManager, role) == "failed to open the Service Control Manager"@,
        context_message(Context::OpenService, role) == "failed to open service "@ + ("iroh-tunnel-"@
            + role) + " (it may not be installed, or controlling it requires an elevated prompt)"@,
        context_message(Context::OpenServiceForStatus, role) == "failed to open service "@ + (
        "iroh-tunnel-"@ + role) + " (it may not be installed)"@,
        context_message(Context::CreateService, role) == "failed to create service "@ + (
        "iroh-tunnel-"@ + role)
            + " (it may already exist, or installing requires an elevated prompt)"@,
        context_message(Context::SetRecovery, role) == "failed to set service recovery actions"@,
        context_message(Context::EnableRecovery, role)
            == "failed to enable recovery actions for non-crash exits"@,
        context_message(Context::StartCreated, role)
            == "the service was created but failed to start"@,
        context_message(Context::StartService, role) == "failed to start the service"@,
        context_message(Context::StopService, role) == "failed to stop the service"@,
        context_message(Context::QueryWhileStopping, role)
            == "failed to query service status while stopping"@,
        context_message(Context::DeleteService, role) == "failed to delete the service"@,
        context_message(Context::QueryStatus, role) == "failed to query service status"@,
        context_message(Context::ConnectDispatcher, role)
            == "failed to connect to the service control dispatcher"@,
        context_message(Context::RegisterHandler, role)
            == "failed to register the service control handler"@,
        context_message(Context::StartRuntime, role) == "failed to start the Tokio runtime"@,
{
}

/// An error speaks with the words of its refusal or of its step; only an
/// outside error without a step has none of its own. Where the error came from
/// does not change the words.
pub proof fn law_errors_speak_for_their_step<E>(
    refusal: Refusal,
    context: Context,
    source: E,
    role: Seq<char>,
)
    ensures
        error_message(ServiceError::<E>::Refused(refusal), role) == Some(refusal_message(refusal)),
        error_message(ServiceError::Failed { context: Some(context), source }, role) == Some(
            context_message(context, role),
        ),
        error_message(ServiceError::Failed { context: None, source }, role) is None,
{
}

} // verus!
