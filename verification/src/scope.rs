//! A systemd scope of our own, so that the GlobalShortcuts portal identifies the app
//! correctly and not as whatever launched it.

use vstd::prelude::*;

use crate::text::{contains, decimal, decimals_differ, has_part, to_decimal};

verus! {

/// The id that the portal knows the app by.
pub const APP_ID: &'static str = "dev.altic.FluidSiren";

/// Whether the process has to run itself again in a scope of its own: it has not
/// done so yet, and `cgroup`, what the kernel says of its control group, does not
/// name the app. Without such information there is nothing to do.
pub fn needs_own_scope(already_rerun: bool, cgroup: Option<&str>) -> (r: bool)
    ensures
        r == (!already_rerun && (cgroup matches Some(text) && !has_part(text@, APP_ID@))),
{
    if already_rerun {
        return false;
    }
    match cgroup {
        Some(text) => !contains(text, APP_ID),
        None => false,
    }
}

/// The name of the scope of the process `pid`. The portal takes the id of the app
/// from it.
pub open spec fn scope_unit(pid: u32) -> Seq<char> {
    "app-"@ + APP_ID@ + "-"@ + decimal(pid as nat)
}

/// The arguments of `systemd-run` that open the scope of the process `pid`. The
/// program to run and its own arguments follow them.
pub fn scope_args(pid: u32) -> (r: Vec<String>)
    ensures
        r.deep_view() == seq![
            "--user"@,
            "--scope"@,
            "--quiet"@,
            "--collect"@,
            "--unit"@,
            scope_unit(pid),
            "--"@,
        ],
{
    let mut unit = "app-".to_string();
    unit.append(APP_ID);
    unit.append("-");
    unit.append(to_decimal(pid as u64).as_str());
    let mut args: Vec<String> = Vec::new();
    args.push("--user".to_string());
    args.push("--scope".to_string());
    args.push("--quiet".to_string());
    args.push("--collect".to_string());
    args.push("--unit".to_string());
    args.push(unit);
    args.push("--".to_string());
    args
}

/// In a scope of its own the process is left alone, whatever surrounds the name of
/// the scope in the kernel's description.
pub proof fn own_scope_is_recognised(before: Seq<char>, pid: u32, after: Seq<char>)
    ensures
        has_part(before + scope_unit(pid) + after, APP_ID@),
{
    let all = before + scope_unit(pid) + after;
    reveal_strlit("app-");
    let at = (before.len() + 4) as int;
    assert(all.subrange(at, at + APP_ID@.len()) =~= APP_ID@);
    assert(crate::text::part_at(all, APP_ID@, at));
}

/// Each process has a scope of its own.
pub proof fn scopes_differ(a: u32, b: u32)
    requires
        scope_unit(a) == scope_unit(b),
    ensures
        a == b,
{
    let front = "app-"@ + APP_ID@ + "-"@;
    let n = front.len() as int;
    assert(scope_unit(a).skip(n) =~= decimal(a as nat));
    assert(scope_unit(b).skip(n) =~= decimal(b as nat));
    decimals_differ(a as nat, b as nat);
}

/// The name of a scope is "app-", the id of the app, a hyphen and the number of the
/// process.
pub proof fn scopes_name_app_and_process(pid: u32)
    ensures
        "app-dev.altic.FluidSiren-"@.is_prefix_of(scope_unit(pid)),
        decimal(pid as nat).is_suffix_of(scope_unit(pid)),
        scope_unit(pid).len() == "app-dev.altic.FluidSiren-"@.len() + decimal(pid as nat).len(),
{
    reveal_strlit("app-");
    reveal_strlit("dev.altic.FluidSiren");
    reveal_strlit("-");
    reveal_strlit("app-dev.altic.FluidSiren-");
    let front = "app-"@ + APP_ID@ + "-"@;
    let unit = scope_unit(pid);
    assert(front =~= "app-dev.altic.FluidSiren-"@);
    assert(front =~= unit.subrange(0, front.len() as int));
    let number = decimal(pid as nat);
    assert(number =~= unit.subrange(unit.len() - number.len(), unit.len() as int));
}

} // verus!
