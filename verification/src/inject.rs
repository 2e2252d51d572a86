//! Typing into the focused application with `ydotool`.

use vstd::prelude::*;

verus! {

/// Why a text could not be typed.
#[derive(Debug)]
pub enum InjectError {
    /// `ydotool` could not be run, for this reason.
    NotRun(String),
    /// `ydotool` failed and wrote this to its standard error.
    Failed(String),
}

impl InjectError {
    /// The message for the user.
    pub fn message(&self) -> (r: String)
        ensures
            r@ == (match *self {
                InjectError::NotRun(reason) =>
                    "running ydotool (is it installed and is ydotoold running?): "@ + reason@,
                InjectError::Failed(stderr) => "ydotool failed: "@ + stderr@
                    + "\nHint: ydotoold must be running and you need access to /dev/uinput (add yourself to the 'input' group or run the ydotoold service)."@,
            }),
    {
        match self {
            InjectError::NotRun(reason) => {
                let mut out =
                    "running ydotool (is it installed and is ydotoold running?): ".to_string();
                out.append(reason.as_str());
                out
            },
            InjectError::Failed(stderr) => {
                let mut out = "ydotool failed: ".to_string();
                out.append(stderr.as_str());
                out.append(
                    "\nHint: ydotoold must be running and you need access to /dev/uinput (add yourself to the 'input' group or run the ydotoold service).",
                );
                out
            },
        }
    }
}

/// The arguments of `ydotool` that type `text` into the focused window; nothing
/// where there is no text, or where `disabled`, the switch that keeps transcripts
/// from leaking into whatever window is focused, is set.
pub fn type_text(text: &str, disabled: bool) -> (r: Option<Vec<String>>)
    ensures
        r is Some <==> text@.len() > 0 && !disabled,
        r matches Some(args) ==> args.deep_view() == seq!["type"@, "--"@, text@],
{
    if text.is_empty() || disabled {
        return None;
    }
    let mut args: Vec<String> = Vec::new();
    args.push("type".to_string());
    args.push("--".to_string());
    args.push(text.to_string());
    assert(args.deep_view() == seq!["type"@, "--"@, text@]);
    Some(args)
}

/// How typing went: whether `ydotool` succeeded and what it wrote to its standard
/// error, or why it could not be run.
pub fn typed(ran: Result<(bool, String), String>) -> (r: Result<(), InjectError>)
    ensures
        match ran {
            Err(reason) => r matches Err(InjectError::NotRun(m)) && m@ == reason@,
            Ok((true, _)) => r is Ok,
            Ok((false, stderr)) => r matches Err(InjectError::Failed(m)) && m@ == stderr@,
        },
{
    match ran {
        Err(reason) => Err(InjectError::NotRun(reason)),
        Ok((succeeded, stderr)) => if succeeded {
            Ok(())
        } else {
            Err(InjectError::Failed(stderr))
        },
    }
}

/// What came of asking `ydotool` for help.
#[derive(Clone, Copy, Debug, PartialEq, Eq, Structural)]
pub struct Probe {
    /// Whether it succeeded.
    pub succeeded: bool,
    /// How much it wrote to its standard output.
    pub stdout_len: usize,
    /// How much it wrote to its standard error.
    pub stderr_len: usize,
}

/// Whether `ydotool` appears usable (best-effort check): asked for help, it
/// succeeded or at least said something.
pub fn available(probe: Option<Probe>) -> (r: bool)
    ensures
        r == (probe matches Some(p) && (p.succeeded || p.stdout_len > 0 || p.stderr_len > 0)),
{
    match probe {
        Some(p) => p.succeeded || p.stdout_len > 0 || p.stderr_len > 0,
        None => false,
    }
}

} // verus!
