//! The decisions of the command line before a command runs: which commands
//! need a signed-in user, what happens when the token is missing or
//! expired, which way `auth login` signs in, where the language comes from,
//! and whether to look for a newer release.
use crate::agent::AgentCommand;
use vstd::prelude::*;

verus! {

/// The top-level command, with what the auth rule reads of it.
#[derive(Debug)]
pub enum CommandKind {
    Auth,
    /// `user`, with whether its subcommand needs a signed-in user.
    User { requires_auth: bool },
    Config,
    Project,
    Github,
    Db,
    Deploy,
    Expose,
    Node,
    Env,
    ApiKey,
    Session,
    Shell,
    Exec,
    Agent { command: AgentCommand },
    Runtime,
    Skill,
    Init,
    Pull,
    Push,
    Debug,
    Upgrade,
    Uninstall,
    Banner,
}

/// Which commands need a signed-in user: the project, deployment and
/// workspace commands do; auth, config, debug, the runtime, skills,
/// upgrading, the banner, nodes, exposing and `init` do not; `agent` does
/// except for `init-home` and `status`; `user` as its subcommand says.
pub open spec fn requires_auth_spec(c: CommandKind) -> bool {
    match c {
        CommandKind::Auth | CommandKind::Config | CommandKind::Debug | CommandKind::Runtime
        | CommandKind::Skill | CommandKind::Upgrade | CommandKind::Uninstall | CommandKind::Banner => false,
        CommandKind::Node => false,
        CommandKind::Agent { command } => !(command is InitHome || command is Status),
        CommandKind::User { requires_auth } => requires_auth,
        CommandKind::Project | CommandKind::Github | CommandKind::Db | CommandKind::Deploy
        | CommandKind::Session | CommandKind::Shell | CommandKind::Exec | CommandKind::Env
        | CommandKind::ApiKey => true,
        CommandKind::Expose => false,
        CommandKind::Init => false,
        CommandKind::Pull | CommandKind::Push => true,
    }
}

pub fn requires_auth(c: &CommandKind) -> (r: bool)
    ensures
        r == requires_auth_spec(*c),
{
    match c {
        CommandKind::Auth | CommandKind::Config | CommandKind::Debug | CommandKind::Runtime
        | CommandKind::Skill | CommandKind::Upgrade | CommandKind::Uninstall | CommandKind::Banner => false,
        CommandKind::Node => false,
        CommandKind::Agent { command } => match command {
            AgentCommand::InitHome(_) | AgentCommand::Status => false,
            _ => true,
        },
        CommandKind::User { requires_auth } => *requires_auth,
        CommandKind::Project | CommandKind::Github | CommandKind::Db | CommandKind::Deploy
        | CommandKind::Session | CommandKind::Shell | CommandKind::Exec | CommandKind::Env
        | CommandKind::ApiKey => true,
        CommandKind::Expose => false,
        CommandKind::Init => false,
        CommandKind::Pull | CommandKind::Push => true,
    }
}

/// A run needs a signed-in user when it deploys the current directory
/// (`--preview` or `--prod`) or its command needs one.
pub open spec fn needs_auth_spec(preview: bool, prod: bool, command: Option<CommandKind>) -> bool {
    preview || prod || match command {
        Some(c) => requires_auth_spec(c),
        None => false,
    }
}

pub fn needs_auth(preview: bool, prod: bool, command: &Option<CommandKind>) -> (r: bool)
    ensures
        r == needs_auth_spec(preview, prod, *command),
{
    preview || prod || match command {
        Some(c) => requires_auth(c),
        None => false,
    }
}

/// What happens before a command that may need a signed-in user.
#[derive(Debug, Clone, Copy, PartialEq, Eq)]
pub enum AuthGate {
    /// No sign-in is needed: run the command.
    Skip,
    /// No token is stored: fail as not logged in.
    NotLoggedIn,
    /// The token expired and nobody can be asked: fail as expired.
    TokenExpired,
    /// The token expired: ask the user to sign in again, then go on.
    Relogin,
    /// The token is valid: go on, warning if it expires soon.
    Proceed,
}

/// Without a need to sign in the command runs; a missing token fails, an
/// expired one is asked for again on a terminal and fails elsewhere.
pub open spec fn auth_gate_spec(needs: bool, has_token: bool, expired: bool, interactive: bool) -> AuthGate {
    if !needs {
        AuthGate::Skip
    } else if !has_token {
        AuthGate::NotLoggedIn
    } else if expired {
        if interactive {
            AuthGate::Relogin
        } else {
            AuthGate::TokenExpired
        }
    } else {
        AuthGate::Proceed
    }
}

pub fn auth_gate(needs: bool, has_token: bool, expired: bool, interactive: bool) -> (r: AuthGate)
    ensures
        r == auth_gate_spec(needs, has_token, expired, interactive),
{
    if !needs {
        AuthGate::Skip
    } else if !has_token {
        AuthGate::NotLoggedIn
    } else if expired {
        if interactive {
            AuthGate::Relogin
        } else {
            AuthGate::TokenExpired
        }
    } else {
        AuthGate::Proceed
    }
}

/// A token that expires within a day earns a warning.
pub open spec fn expiring_soon_spec(remaining_secs: Option<i64>) -> bool {
    match remaining_secs {
        Some(s) => s < 86400,
        None => false,
    }
}

pub fn expiring_soon(remaining_secs: Option<i64>) -> (r: bool)
    ensures
        r == expiring_soon_spec(remaining_secs),
{
    match remaining_secs {
        Some(s) => s < 86400,
        None => false,
    }
}

/// How `auth login` signs in.
#[derive(Debug, Clone, Copy, PartialEq, Eq)]
pub enum LoginMethod {
    ApiKey,
    Token,
    Password,
    /// Ask on the terminal how to sign in.
    Interactive,
    /// Email and a verification code.
    Code,
}

/// `--api-key` wins over `--with-token`, which wins over `--password`;
/// without any, a terminal asks and elsewhere a code is mailed.
pub open spec fn login_method_spec(password: bool, with_token: bool, api_key: bool, interactive: bool) -> LoginMethod {
    if api_key {
        LoginMethod::ApiKey
    } else if with_token {
        LoginMethod::Token
    } else if password {
        LoginMethod::Password
    } else if interactive {
        LoginMethod::Interactive
    } else {
        LoginMethod::Code
    }
}

pub fn login_method(password: bool, with_token: bool, api_key: bool, interactive: bool) -> (r: LoginMethod)
    ensures
        r == login_method_spec(password, with_token, api_key, interactive),
{
    if api_key {
        LoginMethod::ApiKey
    } else if with_token {
        LoginMethod::Token
    } else if password {
        LoginMethod::Password
    } else if interactive {
        LoginMethod::Interactive
    } else {
        LoginMethod::Code
    }
}

/// The places the language is looked up, in order: the `--lang` option,
/// `D1V_LANG` when set and not empty, the configured language, the
/// system's locale; missing ones are left out.
pub open spec fn locale_candidates_spec(
    cli: Option<String>,
    env: Option<String>,
    config: Option<String>,
    system: Option<String>,
) -> Seq<Seq<char>> {
    let one = |o: Option<String>| match o {
        Some(s) => seq![s@],
        None => Seq::<Seq<char>>::empty(),
    };
    let env_nonempty = match env {
        Some(s) => if s@.len() > 0 { Some(s) } else { None },
        None => None,
    };
    one(cli) + one(env_nonempty) + one(config) + one(system)
}

pub fn locale_candidates(
    cli: Option<String>,
    env: Option<String>,
    config: Option<String>,
    system: Option<String>,
) -> (r: Vec<String>)
    ensures
        crate::view::string_texts(r@) == locale_candidates_spec(cli, env, config, system),
{
    let ghost (c0, e0, f0, s0) = (cli, env, config, system);
    let mut v: Vec<String> = Vec::new();
    if let Some(s) = cli {
        v.push(s);
    }
    if let Some(s) = env {
        if crate::strs::chars_of(s.as_str()).len() > 0 {
            v.push(s);
        }
    }
    if let Some(s) = config {
        v.push(s);
    }
    if let Some(s) = system {
        v.push(s);
    }
    assert(crate::view::string_texts(v@) =~= locale_candidates_spec(c0, e0, f0, s0));
    v
}

/// A newer release is looked for in the background when errors go to a
/// terminal and the command is neither `upgrade` nor `uninstall`.
pub open spec fn checks_for_update_spec(stderr_terminal: bool, command: Option<CommandKind>) -> bool {
    stderr_terminal && !(command matches Some(CommandKind::Upgrade) || command matches Some(
        CommandKind::Uninstall,
    ))
}

pub fn checks_for_update(stderr_terminal: bool, command: &Option<CommandKind>) -> (r: bool)
    ensures
        r == checks_for_update_spec(stderr_terminal, *command),
{
    stderr_terminal && !matches!(command, Some(CommandKind::Upgrade) | Some(CommandKind::Uninstall))
}

} // verus!
