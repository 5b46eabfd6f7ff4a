//! What a driver is asked to do for an operation, and what it answers.
use vstd::prelude::*;

use crate::location;
use crate::names;
use crate::policy;
use crate::policy::ServiceFailureActions;
use crate::status::{ServiceState, ServiceType};
use crate::wide::WideText;

verus! {

/// Rights on the SCM itself.
#[derive(Clone, Copy, Debug, PartialEq, Eq, Structural)]
pub struct ServiceManagerAccess {
    pub connect: bool,
    pub create_service: bool,
}

/// Rights on one service.
#[derive(Clone, Copy, Debug, PartialEq, Eq, Structural)]
pub struct ServiceAccess {
    pub query_status: bool,
    pub start: bool,
    pub stop: bool,
    pub change_config: bool,
    pub delete: bool,
}

/// When a service is started.
#[derive(Clone, Copy, Debug, PartialEq, Eq, Structural)]
pub enum ServiceStartType {
    AutoStart,
}

/// How grave it is when a service does not start at boot.
#[derive(Clone, Copy, Debug, PartialEq, Eq, Structural)]
pub enum ServiceErrorControl {
    Normal,
}

/// A service as it is entered into the SCM's database. Without an account it
/// runs as LocalSystem.
#[derive(Debug)]
pub struct ServiceInfo {
    pub name: String,
    pub display_name: String,
    pub service_type: ServiceType,
    pub start_type: ServiceStartType,
    pub error_control: ServiceErrorControl,
    pub executable_path: WideText,
    pub launch_arguments: Vec<WideText>,
    pub dependencies: Vec<WideText>,
    pub account_name: Option<WideText>,
    pub account_password: Option<WideText>,
}

/// The contents of a database entry.
pub struct ServiceInfoView {
    pub name: Seq<char>,
    pub display_name: Seq<char>,
    pub service_type: ServiceType,
    pub start_type: ServiceStartType,
    pub error_control: ServiceErrorControl,
    pub executable_path: Seq<u16>,
    pub launch_arguments: Seq<Seq<u16>>,
    pub dependencies: Seq<Seq<u16>>,
    pub account_name: Option<Seq<u16>>,
    pub account_password: Option<Seq<u16>>,
}

impl View for ServiceInfo {
    type V = ServiceInfoView;

    open spec fn view(&self) -> ServiceInfoView {
        ServiceInfoView {
            name: self.name@,
            display_name: self.display_name@,
            service_type: self.service_type,
            start_type: self.start_type,
            error_control: self.error_control,
            executable_path: self.executable_path@,
            launch_arguments: names::contents(self.launch_arguments@),
            dependencies: names::contents(self.dependencies@),
            account_name: location::setting(self.account_name),
            account_password: location::setting(self.account_password),
        }
    }
}

/// What a driver is asked to do. The requests on "the service" concern the one
/// that was created or opened last.
#[derive(Debug)]
pub enum Request<'a, E> {
    /// Find out where this executable is.
    ResolveBinary,
    /// Read these environment variables.
    ReadVariables(Vec<String>),
    /// Write this line to the error output.
    Warn(String),
    /// Write this line, and the cause behind it, to the error output.
    WarnCause(String, &'a E),
    /// Write this line to the output.
    Print(String),
    /// Connect to the SCM of this computer.
    OpenManager(ServiceManagerAccess),
    /// Enter a service into the database.
    CreateService(ServiceInfo, ServiceAccess),
    /// Open the service of this name.
    OpenService(String, ServiceAccess),
    /// Set what happens when the service fails.
    UpdateFailureActions(ServiceFailureActions),
    /// Say whether a stop with an exit code is a failure, too.
    SetFailureActionsOnNonCrashFailures(bool),
    /// Start the service without arguments.
    StartService,
    /// Send the service a stop control.
    StopService,
    /// Mark the service for deletion.
    DeleteService,
    /// Ask for the state of the service.
    QueryStatus,
    /// Read a monotonic clock.
    ReadClock,
    /// Sleep for that many milliseconds.
    Sleep(u64),
}

/// The contents of a request.
pub enum RequestView<E> {
    ResolveBinary,
    ReadVariables(Seq<Seq<char>>),
    Warn(Seq<char>),
    WarnCause(Seq<char>, E),
    Print(Seq<char>),
    OpenManager(ServiceManagerAccess),
    CreateService(ServiceInfoView, ServiceAccess),
    OpenService(Seq<char>, ServiceAccess),
    UpdateFailureActions(policy::FailureActionsView),
    SetFailureActionsOnNonCrashFailures(bool),
    StartService,
    StopService,
    DeleteService,
    QueryStatus,
    ReadClock,
    Sleep(u64),
}

impl<'a, E> View for Request<'a, E> {
    type V = RequestView<E>;

    open spec fn view(&self) -> RequestView<E> {
        match self {
            Request::ResolveBinary => RequestView::ResolveBinary,
            Request::ReadVariables(names) => RequestView::ReadVariables(location::texts(names@)),
            Request::Warn(line) => RequestView::Warn(line@),
            Request::WarnCause(line, cause) => RequestView::WarnCause(line@, **cause),
            Request::Print(line) => RequestView::Print(line@),
            Request::OpenManager(access) => RequestView::OpenManager(*access),
            Request::CreateService(info, access) => RequestView::CreateService(info@, *access),
            Request::OpenService(name, access) => RequestView::OpenService(name@, *access),
            Request::UpdateFailureActions(settings) => RequestView::UpdateFailureActions(settings@),
            Request::SetFailureActionsOnNonCrashFailures(on) =>
                RequestView::SetFailureActionsOnNonCrashFailures(*on),
            Request::StartService => RequestView::StartService,
            Request::StopService => RequestView::StopService,
            Request::DeleteService => RequestView::DeleteService,
            Request::QueryStatus => RequestView::QueryStatus,
            Request::ReadClock => RequestView::ReadClock,
            Request::Sleep(millis) => RequestView::Sleep(*millis),
        }
    }
}

/// What a driver answers.
#[derive(Debug)]
pub enum Reply<E> {
    /// It is done.
    Done,
    /// The executable is here.
    Binary(WideText),
    /// The variables have these values, in the order in which they were asked for.
    Variables(Vec<Option<WideText>>),
    /// The service is in this state.
    State(ServiceState),
    /// The clock shows that many nanoseconds.
    Clock(u128),
    /// It did not work.
    Failed(E),
}

/// The contents of a reply.
pub enum ReplyView<E> {
    Done,
    Binary(Seq<u16>),
    Variables(Seq<Option<Seq<u16>>>),
    State(ServiceState),
    Clock(u128),
    Failed(E),
}

impl<E> View for Reply<E> {
    type V = ReplyView<E>;

    open spec fn view(&self) -> ReplyView<E> {
        match self {
            Reply::Done => ReplyView::Done,
            Reply::Binary(path) => ReplyView::Binary(path@),
            Reply::Variables(values) => ReplyView::Variables(location::settings(values@)),
            Reply::State(state) => ReplyView::State(*state),
            Reply::Clock(now) => ReplyView::Clock(*now),
            Reply::Failed(e) => ReplyView::Failed(*e),
        }
    }
}

/// The contents of a database entry are those of its fields.
pub proof fn law_an_entry_is_seen_in_full(info: ServiceInfo)
    ensures
        info@.name == info.name@,
        info@.display_name == info.display_name@,
        info@.service_type == info.service_type,
        info@.start_type == info.start_type,
        info@.error_control == info.error_control,
        info@.executable_path == info.executable_path@,
        info@.launch_arguments.len() == info.launch_arguments.len(),
        forall|i: int|
            0 <= i < info.launch_arguments.len() ==> #[trigger] info@.launch_arguments[i]
                == info.launch_arguments[i]@,
        info@.dependencies.len() == info.dependencies.len(),
        forall|i: int|
            0 <= i < info.dependencies.len() ==> #[trigger] info@.dependencies[i]
                == info.dependencies[i]@,
        info@.account_name is Some <==> info.account_name is Some,
        info.account_name matches Some(a) ==> info@.account_name == Some(a@),
        info@.account_password is Some <==> info.account_password is Some,
        info.account_password matches Some(p) ==> info@.account_password == Some(p@),
{
}

/// The contents of a request are those of what it carries.
pub proof fn law_a_request_is_seen_in_full<'a, E>(request: Request<'a, E>)
    ensures
        match request {
            Request::ResolveBinary => request@ == RequestView::<E>::ResolveBinary,
            Request::ReadVariables(names) => request@ matches RequestView::ReadVariables(texts)
                && texts.len() == names.len() && forall|i: int|
                0 <= i < names.len() ==> #[trigger] texts[i] == names[i]@,
            Request::Warn(line) => request@ == RequestView::<E>::Warn(line@),
            Request::WarnCause(line, cause) => request@ == RequestView::WarnCause(line@, *cause),
            Request::Print(line) => request@ == RequestView::<E>::Print(line@),
            Request::OpenManager(access) => request@ == RequestView::<E>::OpenManager(access),
            Request::CreateService(info, access) => request@ == RequestView::<E>::CreateService(
                info@,
                access,
            ),
            Request::OpenService(name, access) => request@ == RequestView::<E>::OpenService(
                name@,
                access,
            ),
            Request::UpdateFailureActions(settings) => request@
                == RequestView::<E>::UpdateFailureActions(settings@),
            Request::SetFailureActionsOnNonCrashFailures(on) => request@
                == RequestView::<E>::SetFailureActionsOnNonCrashFailures(on),
            Request::StartService => request@ == RequestView::<E>::StartService,
            Request::StopService => request@ == RequestView::<E>::StopService,
            Request::DeleteService => request@ == RequestView::<E>::DeleteService,
            Request::QueryStatus => request@ == RequestView::<E>::QueryStatus,
            Request::ReadClock => request@ == RequestView::<E>::ReadClock,
            Request::Sleep(millis) => request@ == RequestView::<E>::Sleep(millis),
        },
{
}

/// The contents of a reply are those of what it carries.
pub proof fn law_a_reply_is_seen_in_full<E>(reply: Reply<E>)
    ensures
        match reply {
            Reply::Done => reply@ == ReplyView::<E>::Done,
            Reply::Binary(path) => reply@ == ReplyView::<E>::Binary(path@),
            Reply::Variables(values) => reply@ matches ReplyView::Variables(seen) && seen.len()
                == values.len() && forall|i: int|
                0 <= i < values.len() ==> match values[i] {
                    Some(value) => #[trigger] seen[i] == Some(value@),
                    None => seen[i] is None,
                },
            Reply::State(state) => reply@ == ReplyView::<E>::State(state),
            Reply::Clock(now) => reply@ == ReplyView::<E>::Clock(now),
            Reply::Failed(e) => reply@ == ReplyView::Failed(e),
        },
{
}

} // verus!
