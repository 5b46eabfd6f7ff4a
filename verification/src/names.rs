//! What a service is called, and how it is launched.
use vstd::prelude::*;

use crate::wide;
use crate::wide::WideText;

verus! {

/// The two roles of the tunnel.
#[derive(Clone, Copy, Debug, PartialEq, Eq, Structural)]
pub enum StatusRole {
    Serve,
    Access,
}

/// The word for a role on the command line.
pub open spec fn role_word(role: StatusRole) -> Seq<char> {
    match role {
        StatusRole::Serve => "serve"@,
        StatusRole::Access => "access"@,
    }
}

impl StatusRole {
    /// The word for the role on the command line.
    pub fn name(self) -> (name: &'static str)
        ensures
            name@ == role_word(self),
    {
        match self {
            StatusRole::Serve => "serve",
            StatusRole::Access => "access",
        }
    }
}

/// The name under which the SCM knows the service of `role`.
pub open spec fn service_name_of(role: Seq<char>) -> Seq<char> {
    "iroh-tunnel-"@ + role
}

/// The name under which the SCM knows the service of `role`.
pub fn service_name(role: &str) -> (name: String)
    ensures
        name@ == service_name_of(role@),
{
    "iroh-tunnel-".to_string().concat(role)
}

/// The name that the operator sees for the service of `role`.
pub open spec fn display_name_of(role: Seq<char>) -> Seq<char> {
    "Iroh Tunnel ("@ + role + ")"@
}

/// The name that the operator sees for the service of `role`.
pub fn display_name(role: &str) -> (name: String)
    ensures
        name@ == display_name_of(role@),
{
    "Iroh Tunnel (".to_string().concat(role).concat(")")
}

/// The arguments with which the SCM starts the executable: the role, `run`,
/// the configuration, and the flag that says the SCM is the caller.
pub open spec fn launch_arguments_of(role: Seq<char>, config: Seq<u16>) -> Seq<Seq<u16>> {
    seq![
        wide::encode(role),
        wide::encode("run"@),
        wide::encode("--config"@),
        config,
        wide::encode("--service"@),
    ]
}

/// The contents of a list of Windows strings.
pub open spec fn contents(list: Seq<WideText>) -> Seq<Seq<u16>> {
    list.map_values(|w: WideText| w@)
}

/// The arguments with which the SCM starts the executable. The configuration
/// path is passed on unit for unit.
pub fn launch_arguments(role: &str, config: &WideText) -> (arguments: Vec<WideText>)
    ensures
        contents(arguments@) == launch_arguments_of(role@, config@),
{
    let mut arguments: Vec<WideText> = Vec::new();
    arguments.push(WideText::new(role));
    arguments.push(WideText::new("run"));
    arguments.push(WideText::new("--config"));
    arguments.push(config.copy());
    arguments.push(WideText::new("--service"));
    assert(contents(arguments@) =~= launch_arguments_of(role@, config@));
    arguments
}

/// Services are scoped to their role: two roles never share a service name or
/// a display name.
pub proof fn law_names_are_role_scoped(a: Seq<char>, b: Seq<char>)
    ensures
        service_name_of(a) == service_name_of(b) ==> a == b,
        display_name_of(a) == display_name_of(b) ==> a == b,
{
    let p = "iroh-tunnel-"@;
    let q = "Iroh Tunnel ("@;
    let n = q.len() as int;
    reveal_strlit(")");
    if service_name_of(a) == service_name_of(b) {
        assert(service_name_of(a).skip(p.len() as int) =~= a);
        assert(service_name_of(b).skip(p.len() as int) =~= b);
    }
    if display_name_of(a) == display_name_of(b) {
        assert(display_name_of(a).len() == n + a.len() + 1);
        assert(display_name_of(b).len() == n + b.len() + 1);
        assert(display_name_of(a).subrange(n, n + a.len()) =~= a);
        assert(display_name_of(b).subrange(n, n + b.len()) =~= b);
    }
}

/// Whatever the role and the configuration, the SCM launches five arguments:
/// the role first, the configuration unchanged behind `--config`, and the
/// service flag last.
pub proof fn law_launch_arguments_carry_role_config_and_flag(role: Seq<char>, config: Seq<u16>)
    ensures
        launch_arguments_of(role, config).len() == 5,
        wide::decode(launch_arguments_of(role, config)[0]) == role,
        launch_arguments_of(role, config)[2] == wide::encode("--config"@),
        launch_arguments_of(role, config)[3] == config,
        wide::decode(launch_arguments_of(role, config).last()) == "--service"@,
{
    wide::law_text_round_trip(role);
    wide::law_text_round_trip("--service"@);
}

/// What things are called, letter by letter: the SCM's name of a service is
/// `iroh-tunnel-` and the role, the operator's is `Iroh Tunnel` and the role in
/// brackets, and the two roles have two different words.
pub proof fn law_names_are_spelled_out(role: Seq<char>)
    ensures
        service_name_of(role) == "iroh-tunnel-"@ + role,
        display_name_of(role) == "Iroh Tunnel ("@ + role + ")"@,
        role_word(StatusRole::Serve) == "serve"@,
        role_word(StatusRole::Access) == "access"@,
        role_word(StatusRole::Serve) != role_word(StatusRole::Access),
{
    reveal_strlit("serve");
    reveal_strlit("access");
    assert("serve"@.len() != "access"@.len());
}

/// Each launch argument reads as the word that stands for it, and the
/// configuration is passed on unit for unit.
pub proof fn law_launch_arguments_read_back(role: Seq<char>, config: Seq<u16>)
    ensures
        ({
            let arguments = launch_arguments_of(role, config);
            &&& arguments.len() == 5
            &&& wide::decode(arguments[0]) == role
            &&& wide::decode(arguments[1]) == "run"@
            &&& wide::decode(arguments[2]) == "--config"@
            &&& arguments[3] == config
            &&& wide::decode(arguments[4]) == "--service"@
            &&& arguments[0] == wide::encode(role)
            &&& arguments[1] == wide::encode("run"@)
            &&& arguments[2] == wide::encode("--config"@)
            &&& arguments[4] == wide::encode("--service"@)
        }),
{
    wide::law_text_round_trip(role);
    wide::law_text_round_trip("run"@);
    wide::law_text_round_trip("--config"@);
    wide::law_text_round_trip("--service"@);
}

/// The contents of a list are the contents of its elements, one for one.
pub proof fn law_contents_one_for_one(list: Seq<WideText>)
    ensures
        contents(list).len() == list.len(),
        forall|i: int| 0 <= i < list.len() ==> #[trigger] contents(list)[i] == list[i]@,
{
}

} // verus!
