//! Local Ollama server lifecycle, managed strictly through systemd.
//!
//! Starting and stopping the server always go through the managing systemd unit (a
//! `systemctl --user` unit, or the system `ollama.service`), never through a bare
//! process of our own.

use vstd::prelude::*;

use crate::text::{contains, has_part, parts_are_found, trim, trimmed};

verus! {

/// How Ollama is managed on this machine.
#[derive(Clone, Copy, Debug, PartialEq, Eq, Structural)]
pub enum Management {
    /// A `systemctl --user` unit owns it (runs as us; no privilege needed).
    UserUnit,
    /// A system `systemctl` unit owns it (start and stop go through polkit).
    SystemUnit,
    /// No systemd unit is installed.
    Unmanaged,
}

/// A systemd manager.
#[derive(Clone, Copy, Debug, PartialEq, Eq, Structural)]
pub enum Scope {
    /// That of the user.
    User,
    /// That of the system.
    System,
}

/// Why the server could not be started or stopped.
#[derive(Debug)]
pub enum OllamaError {
    /// No systemd unit is installed.
    NoUnit,
    /// `systemctl` could not be run, for this reason.
    NotRun(String),
    /// `systemctl` failed.
    Failed {
        /// The manager it was for.
        scope: Scope,
        /// What it was to do.
        action: String,
        /// What it wrote to its standard error.
        stderr: String,
    },
}

/// What is said of a failed `systemctl`.
pub open spec fn failure_text(scope: Scope, action: Seq<char>, stderr: Seq<char>) -> Seq<char> {
    "systemctl "@ + (match scope {
        Scope::User => "--user"@,
        Scope::System => "system"@,
    }) + " "@ + action + " ollama failed"@ + (if trimmed(stderr).len() == 0 {
        "(the system ollama.service may need privileges \u{2014} try: sudo systemctl stop ollama)"@
    } else {
        ": "@ + trimmed(stderr)
    })
}

impl OllamaError {
    /// The message for the user.
    pub fn message(&self) -> (r: String)
        ensures
            r@ == (match *self {
                OllamaError::NoUnit =>
                    "no ollama systemd unit found \u{2014} run `scripts/setup-ollama.sh --user` to create one"@,
                OllamaError::NotRun(reason) => "running systemctl: "@ + reason@,
                OllamaError::Failed { scope, action, stderr } => failure_text(
                    scope,
                    action@,
                    stderr@,
                ),
            }),
    {
        match self {
            OllamaError::NoUnit =>
                "no ollama systemd unit found \u{2014} run `scripts/setup-ollama.sh --user` to create one".to_string(),
            OllamaError::NotRun(reason) => {
                let mut out = "running systemctl: ".to_string();
                out.append(reason.as_str());
                out
            },
            OllamaError::Failed { scope, action, stderr } => {
                let mut out = "systemctl ".to_string();
                match scope {
                    Scope::User => out.append("--user"),
                    Scope::System => out.append("system"),
                }
                out.append(" ");
                out.append(action.as_str());
                out.append(" ollama failed");
                let message = trim(stderr.as_str());
                if message.as_str().is_empty() {
                    out.append(
                        "(the system ollama.service may need privileges \u{2014} try: sudo systemctl stop ollama)",
                    );
                    assert(out@ == failure_text(*scope, action@, stderr@));
                } else {
                    out.append(": ");
                    out.append(message.as_str());
                    assert(out@ == failure_text(*scope, action@, stderr@));
                }
                out
            },
        }
    }
}

/// Whether the `ollama` binary is there: running it for its version succeeded, or
/// did not, or could not be tried.
pub fn installed(succeeded: Option<bool>) -> (r: bool)
    ensures
        r == (succeeded == Some(true)),
{
    match succeeded {
        Some(ok) => ok,
        None => false,
    }
}

/// The arguments that select a manager.
pub open spec fn scope_args(scope: Scope) -> Seq<Seq<char>> {
    match scope {
        Scope::User => seq!["--user"@],
        Scope::System => seq![],
    }
}

fn scoped(scope: Scope) -> (r: Vec<String>)
    ensures
        r.deep_view() == scope_args(scope),
{
    let mut args: Vec<String> = Vec::new();
    match scope {
        Scope::User => args.push("--user".to_string()),
        Scope::System => {},
    }
    args
}

/// The arguments of `systemctl` that list the unit in a manager.
pub fn list_args(scope: Scope) -> (r: Vec<String>)
    ensures
        r.deep_view() == scope_args(scope) + seq!["list-unit-files"@, "ollama.service"@],
{
    let mut args = scoped(scope);
    args.push("list-unit-files".to_string());
    args.push("ollama.service".to_string());
    assert(args.deep_view() == scope_args(scope) + seq!["list-unit-files"@, "ollama.service"@]);
    args
}

/// Whether the unit exists, by the outcome of listing it: whether `systemctl`
/// succeeded and what it wrote, or nothing where it could not be run.
pub fn unit_exists(listed: Option<(bool, String)>) -> (r: bool)
    ensures
        r == (listed matches Some(out) && out.0 && has_part(out.1@, "ollama.service"@)),
{
    match listed {
        Some((succeeded, stdout)) => succeeded && contains(stdout.as_str(), "ollama.service"),
        None => false,
    }
}

/// What is known of the units, or what to look up next.
#[derive(Clone, Copy, Debug, PartialEq, Eq, Structural)]
pub enum ManagementStep {
    /// Look whether the unit exists in this manager.
    Look(Scope),
    /// This is how Ollama is managed.
    Known(Management),
}

/// How Ollama is managed by what is known so far, or what to look up next.
pub open spec fn management_of(user: Option<bool>, system: Option<bool>) -> ManagementStep {
    match user {
        None => ManagementStep::Look(Scope::User),
        Some(true) => ManagementStep::Known(Management::UserUnit),
        Some(false) => match system {
            None => ManagementStep::Look(Scope::System),
            Some(true) => ManagementStep::Known(Management::SystemUnit),
            Some(false) => ManagementStep::Known(Management::Unmanaged),
        },
    }
}

/// How Ollama is managed, preferring a user unit, then a system unit. `user` and
/// `system` are what looking the unit up has brought so far; the system manager is
/// asked only where the user's has no unit.
pub fn management(user: Option<bool>, system: Option<bool>) -> (r: ManagementStep)
    ensures
        r == management_of(user, system),
{
    match user {
        None => ManagementStep::Look(Scope::User),
        Some(true) => ManagementStep::Known(Management::UserUnit),
        Some(false) => match system {
            None => ManagementStep::Look(Scope::System),
            Some(true) => ManagementStep::Known(Management::SystemUnit),
            Some(false) => ManagementStep::Known(Management::Unmanaged),
        },
    }
}

/// A run of `systemctl` on the unit.
#[derive(Debug)]
pub struct SystemctlCall {
    /// The manager it is for.
    pub scope: Scope,
    /// What it is to do.
    pub action: String,
    /// Its arguments.
    pub args: Vec<String>,
}

/// Whether a call does `action` to the unit in a manager.
pub open spec fn call_does(call: SystemctlCall, scope: Scope, action: Seq<char>) -> bool {
    &&& call.scope == scope
    &&& call.action@ == action
    &&& call.args.deep_view() == scope_args(scope) + seq![action, "ollama"@]
}

/// The run of `systemctl` that does `action` to the unit in a manager.
pub fn systemctl(scope: Scope, action: &str) -> (r: SystemctlCall)
    ensures
        call_does(r, scope, action@),
{
    let mut args = scoped(scope);
    args.push(action.to_string());
    args.push("ollama".to_string());
    assert(args.deep_view() == scope_args(scope) + seq![action@, "ollama"@]);
    SystemctlCall { scope, action: action.to_string(), args }
}

/// How a run of `systemctl` went: whether it succeeded and what it wrote to its
/// standard error, or why it could not be run.
pub fn systemctl_result(call: SystemctlCall, ran: Result<(bool, String), String>) -> (r: Result<
    (),
    OllamaError,
>)
    ensures
        match ran {
            Err(reason) => r matches Err(OllamaError::NotRun(m)) && m@ == reason@,
            Ok((true, _)) => r is Ok,
            Ok((false, written)) => r matches Err(OllamaError::Failed { scope, action, stderr })
                && scope == call.scope && action@ == call.action@ && stderr@ == written@,
        },
{
    match ran {
        Err(reason) => Err(OllamaError::NotRun(reason)),
        Ok((succeeded, stderr)) => if succeeded {
            Ok(())
        } else {
            Err(OllamaError::Failed { scope: call.scope, action: call.action, stderr })
        },
    }
}

/// The manager that owns the server, where one does. Starting and stopping both go
/// to it.
pub open spec fn owner(managed: Management) -> Option<Scope> {
    match managed {
        Management::UserUnit => Some(Scope::User),
        Management::SystemUnit => Some(Scope::System),
        Management::Unmanaged => None,
    }
}

/// Starts the local Ollama server through its systemd unit. Without a unit this is
/// an error: no bare process is started.
pub fn start(managed: Management) -> (r: Result<SystemctlCall, OllamaError>)
    ensures
        match owner(managed) {
            Some(scope) => r matches Ok(call) && call_does(call, scope, "start"@),
            None => r matches Err(OllamaError::NoUnit),
        },
{
    match managed {
        Management::UserUnit => Ok(systemctl(Scope::User, "start")),
        Management::SystemUnit => Ok(systemctl(Scope::System, "start")),
        Management::Unmanaged => Err(OllamaError::NoUnit),
    }
}

/// Stops the local Ollama server through its systemd unit. Without a unit there is
/// nothing that we manage, and nothing is done.
pub fn stop(managed: Management) -> (r: Option<SystemctlCall>)
    ensures
        match owner(managed) {
            Some(scope) => r matches Some(call) && call_does(call, scope, "stop"@),
            None => r is None,
        },
{
    match managed {
        Management::UserUnit => Some(systemctl(Scope::User, "stop")),
        Management::SystemUnit => Some(systemctl(Scope::System, "stop")),
        Management::Unmanaged => None,
    }
}

/// Looking up what is asked for, one manager after the other, settles how Ollama is
/// managed: by the user's unit where there is one, or else by the system's, or else
/// by none.
pub proof fn lookups_settle_the_management(user: bool, system: bool)
    ensures
        management_of(None, None) == ManagementStep::Look(Scope::User),
        user ==> management_of(Some(user), None) == ManagementStep::Known(Management::UserUnit),
        !user ==> management_of(Some(user), None) == ManagementStep::Look(Scope::System),
        !user && system ==> management_of(Some(user), Some(system)) == ManagementStep::Known(
            Management::SystemUnit,
        ),
        !user && !system ==> management_of(Some(user), Some(system)) == ManagementStep::Known(
            Management::Unmanaged,
        ),
{
}

/// A failure carries systemd's own message, whole but for white space around it,
/// where there is one, and else a hint; either way it names what was to be done.
pub proof fn failures_carry_the_message(scope: Scope, action: Seq<char>, stderr: Seq<char>)
    ensures
        has_part(failure_text(scope, action, stderr), action),
        scope == Scope::User ==> ("systemctl --user "@ + action + " ollama failed"@).is_prefix_of(
            failure_text(scope, action, stderr),
        ),
        scope == Scope::System ==> ("systemctl system "@ + action
            + " ollama failed"@).is_prefix_of(failure_text(scope, action, stderr)),
        trimmed(stderr).len() > 0 ==> (": "@ + trimmed(stderr)).is_suffix_of(
            failure_text(scope, action, stderr),
        ),
        trimmed(stderr).len() == 0 ==> has_part(
            failure_text(scope, action, stderr),
            "(the system ollama.service may need privileges \u{2014} try: sudo systemctl stop ollama)"@,
        ),
{
    let named = match scope {
        Scope::User => "--user"@,
        Scope::System => "system"@,
    };
    let front = "systemctl "@ + named + " "@;
    let back = if trimmed(stderr).len() == 0 {
        "(the system ollama.service may need privileges \u{2014} try: sudo systemctl stop ollama)"@
    } else {
        ": "@ + trimmed(stderr)
    };
    let all = failure_text(scope, action, stderr);
    reveal_strlit("systemctl ");
    reveal_strlit("--user");
    reveal_strlit("system");
    reveal_strlit(" ");
    reveal_strlit("systemctl --user ");
    reveal_strlit("systemctl system ");
    assert(scope == Scope::User ==> front =~= "systemctl --user "@);
    assert(scope == Scope::System ==> front =~= "systemctl system "@);
    assert(all =~= front + action + (" ollama failed"@ + back));
    parts_are_found(front, action, " ollama failed"@ + back);
    let before = front + action + " ollama failed"@;
    assert(all =~= before + back + Seq::<char>::empty());
    assert(before =~= all.subrange(0, before.len() as int));
    parts_are_found(before, back, Seq::empty());
    assert(back =~= all.subrange(all.len() - back.len(), all.len() as int));
}

/// The user's manager is selected by one argument, and the system's by none.
pub proof fn managers_are_selected(scope: Scope)
    ensures
        scope == Scope::User ==> scope_args(scope) == seq!["--user"@],
        scope == Scope::System ==> scope_args(scope).len() == 0,
{
}

/// A server that is managed is managed by the manager that owns its unit, and what
/// is found by looking is what is driven.
pub proof fn owners_are_where_the_unit_is(user: bool, system: bool)
    ensures
        management_of(Some(user), Some(system)) matches ManagementStep::Known(managed) && {
            &&& owner(managed) == Some(Scope::User) <==> user
            &&& owner(managed) == Some(Scope::System) <==> !user && system
            &&& owner(managed) is None <==> !user && !system
        },
{
}

/// A call that does something to the unit carries these arguments and no others: the
/// manager's, what is to be done, and the name of the unit.
pub proof fn calls_name_action_and_unit(call: SystemctlCall, scope: Scope, action: Seq<char>)
    requires
        call_does(call, scope, action),
    ensures
        call.scope == scope,
        call.action@ == action,
        scope == Scope::User ==> call.args.deep_view() == seq!["--user"@, action, "ollama"@],
        scope == Scope::System ==> call.args.deep_view() == seq![action, "ollama"@],
{
    assert(seq!["--user"@] + seq![action, "ollama"@] =~= seq!["--user"@, action, "ollama"@]);
    assert(Seq::<Seq<char>>::empty() + seq![action, "ollama"@] =~= seq![action, "ollama"@]);
}

} // verus!
