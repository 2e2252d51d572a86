//! The command line.

use vstd::prelude::*;

use crate::text::same;

verus! {

/// What the app was started for.
#[derive(Debug)]
pub enum RunMode {
    /// The settings window alone.
    Settings,
    /// A test: transcribe a WAV file.
    File {
        /// The file, where it is named.
        path: Option<String>,
        /// Whether to type the transcript.
        inject: bool,
    },
    /// A test: record from the microphone for a while.
    Seconds {
        /// For how many seconds, where it is said.
        length: Option<String>,
        /// Whether to type the transcript.
        inject: bool,
    },
    /// The app proper, in the tray.
    Ui,
}

/// The argument at place `i`, where there is one.
pub open spec fn argument(args: Seq<Seq<char>>, i: int) -> Option<Seq<char>> {
    if 0 <= i < args.len() {
        Some(args[i])
    } else {
        None
    }
}

/// A text that may be missing, as a sequence of characters.
pub open spec fn text_of(s: Option<String>) -> Option<Seq<char>> {
    match s {
        Some(text) => Some(text@),
        None => None,
    }
}

fn has_argument(args: &Vec<String>, word: &str) -> (r: bool)
    ensures
        r == args.deep_view().contains(word@),
{
    let mut i: usize = 0;
    while i < args.len()
        invariant
            i <= args@.len(),
            forall|k: int| 0 <= k < i ==> args.deep_view()[k] != word@,
        decreases args@.len() - i,
    {
        if same(args[i].as_str(), word) {
            assert(args.deep_view()[i as int] == word@);
            return true;
        }
        i += 1;
    }
    false
}

/// Reads the arguments of the command line, without the name of the program. The
/// first one decides; anything unknown starts the app proper.
pub fn run_mode(args: &Vec<String>) -> (r: RunMode)
    ensures
        ({
            let words = args.deep_view();
            let first = argument(words, 0);
            if first == Some("--settings"@) {
                r is Settings
            } else if first == Some("--file"@) {
                r matches RunMode::File { path, inject } && text_of(path) == argument(words, 1)
                    && inject == words.contains("--inject"@)
            } else if first == Some("--seconds"@) {
                r matches RunMode::Seconds { length, inject } && text_of(length) == argument(
                    words,
                    1,
                ) && inject == words.contains("--inject"@)
            } else {
                r is Ui
            }
        }),
{
    if args.len() == 0 {
        return RunMode::Ui;
    }
    assert(args.deep_view()[0] == args@[0]@);
    let second: Option<String> = if args.len() > 1 {
        assert(args.deep_view()[1] == args@[1]@);
        Some(args[1].clone())
    } else {
        None
    };
    let first = args[0].as_str();
    if same(first, "--settings") {
        RunMode::Settings
    } else if same(first, "--file") {
        RunMode::File { path: second, inject: has_argument(args, "--inject") }
    } else if same(first, "--seconds") {
        RunMode::Seconds { length: second, inject: has_argument(args, "--inject") }
    } else {
        RunMode::Ui
    }
}

/// What a test prints of its transcript.
pub fn transcript_line(text: &str) -> (r: String)
    ensures
        r@ == (if text@.len() == 0 {
            "(no speech detected)"@
        } else {
            "Transcript: "@ + text@
        }),
{
    if text.is_empty() {
        return "(no speech detected)".to_string();
    }
    let mut out = "Transcript: ".to_string();
    out.append(text);
    out
}

/// An argument is the one at its place, and there is none past the last.
pub proof fn arguments_are_at_their_place(
    before: Seq<Seq<char>>,
    word: Seq<char>,
    after: Seq<Seq<char>>,
)
    ensures
        argument(before + seq![word] + after, before.len() as int) == Some(word),
        argument(before, before.len() as int) is None,
{
}

/// A text that is there is what it holds.
pub proof fn texts_are_what_they_hold(s: Option<String>)
    ensures
        s matches Some(text) ==> text_of(s) == Some(text@),
        s is None ==> text_of(s) is None,
{
}

} // verus!
