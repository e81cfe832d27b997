//! The command line of `kryx`: its commands, and the decisions taken on a
//! parsed command before it runs (which commands a host's role may see and
//! run, which show the banner, which need a valid identity).
use vstd::prelude::*;
use crate::diagnostics::Role;
use crate::text::{
    chars_of, owned, push_str, str_eq, string_from_chars, strs,
};

pub mod kve;
pub mod think;

verus! {

/// The parsed command line.
pub struct Cli {
    pub command: Commands,
}

/// The commands of `kryx`.
#[allow(inconsistent_fields)]
pub enum Commands {
    Switch { target: Option<String> },
    Deploy { config_path: Option<String>, force: bool, hostname: Option<String> },
    FactoryReset { preserve_home: bool },
    System { command: SystemSubcommand },
    Doctor { json: bool },
    Identity { json: bool },
    Setup,
    Theme,
    Node { command: NodeSubcommand },
    Feature { command: FeatureSubcommand },
    Update { force_sync: bool, no_stash: bool, cleanup_stash: bool },
    Status,
    Shell { args: Vec<String> },
    Search { args: Vec<String> },
    Clean { args: Vec<String> },
    Build { args: Vec<String> },
    Run { args: Vec<String> },
    Develop { args: Vec<String> },
    Repl { args: Vec<String> },
    Fmt { args: Vec<String> },
    Completion { shell: String },
    Gc { args: Vec<String> },
    HomeManager { args: Vec<String> },
    CopyClosure { args: Vec<String> },
    NixEnv { args: Vec<String> },
    NixChannel { args: Vec<String> },
    Check { path: String },
    Eval { args: Vec<String> },
    Flake { args: Vec<String> },
    PathInfo { args: Vec<String> },
    Hash { args: Vec<String> },
    Store { args: Vec<String> },
    Prefetch { args: Vec<String> },
    Registry { args: Vec<String> },
    Edit { args: Vec<String> },
    SignPaths { args: Vec<String> },
    Copy { args: Vec<String> },
    NixDoctor { args: Vec<String> },
    NhCleanAll { args: Vec<String> },
    NixosRebuild { args: Vec<String> },
    NhOs { args: Vec<String> },
    Kve { command: kve::KveCommand },
    Vm { command: kve::VmSubcommand },
    Ct { command: kve::CtSubcommand },
    Think { command: think::ThinkCommand },
}

/// `kryx node …`.
pub enum NodeSubcommand {
    List,
    Publish,
    Reload,
    Reboot { mac_or_ip: Option<String> },
}

/// `kryx feature …`.
pub enum FeatureSubcommand {
    List { json: bool },
}

/// `kryx system …`.
pub enum SystemSubcommand {
    Report,
}

// ── Roles ───────────────────────────────────────────────────────────────

/// A role that may run everything (the core and the Think server).
pub open spec fn is_core_spec(role: Option<Role>) -> bool {
    role == Some(Role::Core) || role == Some(Role::ThinkServer)
}

pub open spec fn is_desktop_spec(role: Option<Role>) -> bool {
    role == Some(Role::Desktop)
}

pub fn is_core(role: Option<Role>) -> (b: bool)
    ensures
        b == is_core_spec(role),
{
    match role {
        Some(Role::Core) | Some(Role::ThinkServer) => true,
        _ => false,
    }
}

pub fn is_desktop(role: Option<Role>) -> (b: bool)
    ensures
        b == is_desktop_spec(role),
{
    match role {
        Some(Role::Desktop) => true,
        _ => false,
    }
}

/// The subcommands hidden from the help for a role: a desktop does not
/// see deployment, nodes or features; a host without a core or desktop
/// role ("zombie") sees only identity, setup, the pass-throughs and
/// completion.
pub open spec fn hidden_subcommands_spec(role: Option<Role>) -> Seq<Seq<char>> {
    if is_desktop_spec(role) {
        seq!["deploy"@, "node"@, "feature"@]
    } else if !is_core_spec(role) {
        seq![
            "deploy"@,
            "node"@,
            "switch"@,
            "factory-reset"@,
            "doctor"@,
            "system"@,
            "theme"@,
            "feature"@,
        ]
    } else {
        Seq::empty()
    }
}

pub fn hidden_subcommands(role: Option<Role>) -> (v: Vec<String>)
    ensures
        strs(v@) == hidden_subcommands_spec(role),
{
    if is_desktop(role) {
        let v = vec![owned("deploy"), owned("node"), owned("feature")];
        assert(strs(v@) =~= hidden_subcommands_spec(role));
        v
    } else if !is_core(role) {
        let v = vec![
            owned("deploy"),
            owned("node"),
            owned("switch"),
            owned("factory-reset"),
            owned("doctor"),
            owned("system"),
            owned("theme"),
            owned("feature"),
        ];
        assert(strs(v@) =~= hidden_subcommands_spec(role));
        v
    } else {
        let v: Vec<String> = Vec::new();
        assert(strs(v@) =~= hidden_subcommands_spec(role));
        v
    }
}

/// Which commands a host may run: identity, setup, check, switch, Home
/// Manager and status always; deployment, nodes and features only on a
/// core host; the rest on a core or desktop host.
pub open spec fn authorized_spec(cmd: Commands, role: Option<Role>) -> bool {
    match cmd {
        Commands::Identity { .. } | Commands::Setup | Commands::Check { .. } | Commands::Switch { .. }
        | Commands::HomeManager { .. } | Commands::Status => true,
        Commands::Deploy { .. } | Commands::Node { .. } | Commands::Feature { .. } => is_core_spec(role),
        _ => is_core_spec(role) || is_desktop_spec(role),
    }
}

pub fn authorized(cmd: &Commands, role: Option<Role>) -> (b: bool)
    ensures
        b == authorized_spec(*cmd, role),
{
    match cmd {
        Commands::Identity { .. } | Commands::Setup | Commands::Check { .. } | Commands::Switch { .. }
        | Commands::HomeManager { .. } | Commands::Status => true,
        Commands::Deploy { .. } | Commands::Node { .. } | Commands::Feature { .. } => is_core(role),
        _ => is_core(role) || is_desktop(role),
    }
}

/// The error printed for a command the role may not run.
pub const UNAUTHORIZED_MESSAGE: &'static str = "Erro: Comando desconhecido ou não autorizado para este perfil.";

/// The destructive commands, which need a valid host identity.
pub open spec fn is_critical_spec(cmd: Commands) -> bool {
    match cmd {
        Commands::Deploy { .. } | Commands::FactoryReset { .. } => true,
        Commands::Node { command: NodeSubcommand::Publish } => true,
        _ => false,
    }
}

pub fn is_critical(cmd: &Commands) -> (b: bool)
    ensures
        b == is_critical_spec(*cmd),
{
    match cmd {
        Commands::Deploy { .. } | Commands::FactoryReset { .. } => true,
        Commands::Node { command: NodeSubcommand::Publish } => true,
        _ => false,
    }
}

/// The refusal of a destructive command when the identity is invalid.
pub fn identity_guard_message(error: &str) -> (m: String)
    ensures
        m@ == "Identity Guard Blocked Operation: "@ + error@,
{
    let mut v = chars_of("Identity Guard Blocked Operation: ");
    push_str(&mut v, error);
    string_from_chars(v.as_slice())
}

/// The long-running commands, which show the banner unless
/// `KRYX_NO_BANNER` is set.
pub open spec fn shows_banner_spec(cmd: Commands, no_banner: bool) -> bool {
    !no_banner && match cmd {
        Commands::Switch { .. } | Commands::Update { .. } | Commands::Status | Commands::Doctor { .. }
        | Commands::Gc { .. } | Commands::Clean { .. } | Commands::System { .. } => true,
        _ => false,
    }
}

pub fn shows_banner(cmd: &Commands, no_banner: bool) -> (b: bool)
    ensures
        b == shows_banner_spec(*cmd, no_banner),
{
    if no_banner {
        return false;
    }
    match cmd {
        Commands::Switch { .. } | Commands::Update { .. } | Commands::Status | Commands::Doctor { .. }
        | Commands::Gc { .. } | Commands::Clean { .. } | Commands::System { .. } => true,
        _ => false,
    }
}

/// The exit code of a failed command: 2 for the `kryxd` clients (`kve`,
/// `vm`, `ct`, `think`), 1 otherwise.
pub fn failure_exit_code(cmd: &Commands) -> (c: i32)
    ensures
        c == match *cmd {
            Commands::Kve { .. } | Commands::Vm { .. } | Commands::Ct { .. } | Commands::Think { .. } => 2i32,
            _ => 1i32,
        },
{
    match cmd {
        Commands::Kve { .. } | Commands::Vm { .. } | Commands::Ct { .. } | Commands::Think { .. } => 2,
        _ => 1,
    }
}

// ── Shell completion ────────────────────────────────────────────────────

/// The shells that completion scripts are generated for.
#[derive(Debug, Clone, Copy, PartialEq, Eq, Structural)]
pub enum CompletionShell {
    Bash,
    Zsh,
    Fish,
    Elvish,
    PowerShell,
}

pub open spec fn completion_shell_spec(name: Seq<char>) -> Option<CompletionShell> {
    if name == "bash"@ {
        Some(CompletionShell::Bash)
    } else if name == "zsh"@ {
        Some(CompletionShell::Zsh)
    } else if name == "fish"@ {
        Some(CompletionShell::Fish)
    } else if name == "elvish"@ {
        Some(CompletionShell::Elvish)
    } else if name == "powershell"@ {
        Some(CompletionShell::PowerShell)
    } else {
        None
    }
}

/// The shell named on the command line, or the error for an unknown one.
pub fn completion_shell(name: &str) -> (r: Result<CompletionShell, String>)
    ensures
        match completion_shell_spec(name@) {
            Some(s) => r == Ok::<CompletionShell, String>(s),
            None => r matches Err(m) && m@ == "Shell não suportado: "@ + name@
                + ". Use: bash, zsh, fish, elvish, powershell"@,
        },
{
    if str_eq(name, "bash") {
        Ok(CompletionShell::Bash)
    } else if str_eq(name, "zsh") {
        Ok(CompletionShell::Zsh)
    } else if str_eq(name, "fish") {
        Ok(CompletionShell::Fish)
    } else if str_eq(name, "elvish") {
        Ok(CompletionShell::Elvish)
    } else if str_eq(name, "powershell") {
        Ok(CompletionShell::PowerShell)
    } else {
        let mut v = chars_of("Shell não suportado: ");
        push_str(&mut v, name);
        push_str(&mut v, ". Use: bash, zsh, fish, elvish, powershell");
        Err(string_from_chars(v.as_slice()))
    }
}

// ── Laws ────────────────────────────────────────────────────────────────

/// A core host (`Core` or `ThinkServer`) may run every command and sees
/// every subcommand.
pub proof fn law_core_runs_everything(cmd: Commands, role: Option<Role>)
    requires
        is_core_spec(role),
    ensures
        authorized_spec(cmd, role),
        hidden_subcommands_spec(role).len() == 0,
{
}

/// Identity and setup stay available to every host, even one without an
/// identity.
pub proof fn law_identity_and_setup_always_allowed(cmd: Commands, role: Option<Role>)
    requires
        cmd matches Commands::Identity { .. } || cmd matches Commands::Setup,
    ensures
        authorized_spec(cmd, role),
{
}

/// Deployment, nodes and features are never run by a host that is not a
/// core host.
pub proof fn law_only_core_deploys(cmd: Commands, role: Option<Role>)
    requires
        cmd matches Commands::Deploy { .. } || cmd matches Commands::Node { .. } || cmd matches Commands::Feature { .. },
        !is_core_spec(role),
    ensures
        !authorized_spec(cmd, role),
{
}

/// Identity, setup, check, switch, Home Manager and status are allowed
/// for every host, whatever its role, and for a host without a role.
pub proof fn law_everyday_commands_for_every_role(cmd: Commands, role: Option<Role>)
    requires
        cmd matches Commands::Identity { .. } || cmd matches Commands::Setup
            || cmd matches Commands::Check { .. } || cmd matches Commands::Switch { .. }
            || cmd matches Commands::HomeManager { .. } || cmd matches Commands::Status,
    ensures
        authorized_spec(cmd, role),
{
}

/// A desktop host may run every command but deployment, nodes and
/// features.
pub proof fn law_desktop_runs_all_but_core_commands(cmd: Commands)
    requires
        !(cmd matches Commands::Deploy { .. } || cmd matches Commands::Node { .. }
            || cmd matches Commands::Feature { .. }),
    ensures
        authorized_spec(cmd, Some(Role::Desktop)),
{
}

/// A host without a role, or a plain node, runs only the commands that
/// every host may run.
pub proof fn law_roleless_runs_only_everyday_commands(cmd: Commands, role: Option<Role>)
    requires
        role is None || role == Some(Role::Node),
    ensures
        authorized_spec(cmd, role) <==> (cmd matches Commands::Identity { .. }
            || cmd matches Commands::Setup || cmd matches Commands::Check { .. }
            || cmd matches Commands::Switch { .. } || cmd matches Commands::HomeManager { .. }
            || cmd matches Commands::Status),
{
}

} // verus!
