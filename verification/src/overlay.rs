//! The recording overlay: a process of its own, shown while recording and gone
//! when idle, that is told over its standard input what to show.

use vstd::prelude::*;

use crate::text::{is_space, same, space_around_is_trimmed, trim, trimmed};

verus! {

/// What the overlay shows.
#[derive(Clone, Copy, Debug, PartialEq, Eq, Structural)]
pub enum Mode {
    /// A red waveform.
    Recording,
    /// A blue waveform.
    Transcribing,
}

/// What a line on the overlay's standard input asks for.
#[derive(Clone, Copy, Debug, PartialEq, Eq, Structural)]
pub enum Message {
    /// Exit.
    Quit,
    /// Show this.
    Show(Mode),
    /// Nothing that is known.
    Unknown,
}

/// The meaning of a line.
pub open spec fn message_in(line: Seq<char>) -> Message {
    let word = trimmed(line);
    if word == "quit"@ || word == "idle"@ {
        Message::Quit
    } else if word == "transcribing"@ {
        Message::Show(Mode::Transcribing)
    } else if word == "recording"@ {
        Message::Show(Mode::Recording)
    } else {
        Message::Unknown
    }
}

/// Reads a line of the overlay's standard input.
pub fn read_message(line: &str) -> (r: Message)
    ensures
        r == message_in(line@),
{
    let trimmed_line = trim(line);
    let word = trimmed_line.as_str();
    if same(word, "quit") || same(word, "idle") {
        Message::Quit
    } else if same(word, "transcribing") {
        Message::Show(Mode::Transcribing)
    } else if same(word, "recording") {
        Message::Show(Mode::Recording)
    } else {
        Message::Unknown
    }
}

/// What the overlay shows at first, by the first argument of its command line.
pub fn initial_mode(argument: Option<&str>) -> (r: Mode)
    ensures
        r == (if argument matches Some(word) && word@ == "transcribing"@ {
            Mode::Transcribing
        } else {
            Mode::Recording
        }),
{
    match argument {
        Some(word) => if same(word, "transcribing") {
            Mode::Transcribing
        } else {
            Mode::Recording
        },
        None => Mode::Recording,
    }
}

/// What the overlay shows after a message; nothing once it has quit.
pub open spec fn after_message(mode: Mode, message: Message) -> Option<Mode> {
    match message {
        Message::Quit => None,
        Message::Show(next) => Some(next),
        Message::Unknown => Some(mode),
    }
}

/// Follows a message.
pub fn follow(mode: Mode, message: Message) -> (r: Option<Mode>)
    ensures
        r == after_message(mode, message),
{
    match message {
        Message::Quit => None,
        Message::Show(next) => Some(next),
        Message::Unknown => Some(mode),
    }
}

/// The line that has the overlay show a mode.
pub open spec fn mode_line(mode: Mode) -> Seq<char> {
    match mode {
        Mode::Recording => "recording"@,
        Mode::Transcribing => "transcribing"@,
    }
}

/// What the controller has to do to the overlay's process.
#[derive(Debug)]
pub enum OverlayStep {
    /// Start it, with a pipe to its standard input.
    Spawn,
    /// Write this line to it.
    Tell(String),
    /// Write this line to it, kill it and reap it.
    End(String),
    /// Nothing.
    Nothing,
}

/// How starting the overlay's process went.
#[derive(Clone, Copy, Debug, PartialEq, Eq, Structural)]
pub enum Spawned {
    /// It runs and can be written to.
    Running,
    /// It runs but cannot be written to.
    WithoutInput,
    /// It could not be started.
    Failed,
}

/// The side of the overlay that lives in the app.
#[derive(Clone, Copy, Debug, PartialEq, Eq, Structural)]
pub struct OverlayController {
    /// Whether the overlay's process runs.
    pub running: bool,
}

impl OverlayController {
    /// No overlay yet.
    pub fn new() -> (r: OverlayController)
        ensures
            !r.running,
    {
        OverlayController { running: false }
    }

    /// Shows the overlay in the recording state, starting it if need be.
    pub fn show_recording(&self) -> (r: OverlayStep)
        ensures
            if self.running {
                r matches OverlayStep::Tell(line) && line@ == mode_line(Mode::Recording)
            } else {
                r == OverlayStep::Spawn
            },
    {
        if self.running {
            OverlayStep::Tell("recording".to_string())
        } else {
            OverlayStep::Spawn
        }
    }

    /// The overlay was started, or not. Says whether to kill it: one that cannot be
    /// told anything is of no use.
    pub fn spawned(&mut self, how: Spawned) -> (r: bool)
        ensures
            final(self).running == (old(self).running || how == Spawned::Running),
            r == (how == Spawned::WithoutInput),
    {
        match how {
            Spawned::Running => {
                self.running = true;
                false
            },
            Spawned::WithoutInput => true,
            Spawned::Failed => false,
        }
    }

    /// Switches the overlay, where it is shown, to the transcribing state.
    pub fn set_transcribing(&self) -> (r: OverlayStep)
        ensures
            if self.running {
                r matches OverlayStep::Tell(line) && line@ == mode_line(Mode::Transcribing)
            } else {
                r == OverlayStep::Nothing
            },
    {
        if self.running {
            OverlayStep::Tell("transcribing".to_string())
        } else {
            OverlayStep::Nothing
        }
    }

    /// Hides the overlay: it exits and disappears.
    pub fn dismiss(&mut self) -> (r: OverlayStep)
        ensures
            !final(self).running,
            if old(self).running {
                r matches OverlayStep::End(line) && line@ == "quit"@
            } else {
                r == OverlayStep::Nothing
            },
    {
        if self.running {
            self.running = false;
            OverlayStep::End("quit".to_string())
        } else {
            OverlayStep::Nothing
        }
    }
}

/// The overlay understands its controller: the line for a mode shows that mode, and
/// the line that hides it makes it quit.
pub proof fn overlay_understands_the_controller(mode: Mode)
    ensures
        message_in(mode_line(mode)) == Message::Show(mode),
        message_in("quit"@) == Message::Quit,
{
    reveal_strlit("recording");
    reveal_strlit("transcribing");
    reveal_strlit("quit");
    reveal_strlit("idle");
    assert("recording"@.len() != "quit"@.len() && "recording"@.len() != "idle"@.len());
    assert("recording"@.len() != "transcribing"@.len());
    assert("transcribing"@.len() != "quit"@.len() && "transcribing"@.len() != "idle"@.len());
    assert(trimmed("recording"@) == "recording"@);
    assert(trimmed("transcribing"@) == "transcribing"@);
    assert(trimmed("quit"@) == "quit"@);
}

/// White space around a line does not matter.
pub proof fn space_around_lines_is_dropped(left: char, line: Seq<char>, right: char)
    requires
        is_space(left),
        is_space(right),
    ensures
        message_in(seq![left] + line + seq![right]) == message_in(line),
{
    space_around_is_trimmed(left, line, right);
}

/// Four words are understood, and everything else is unknown.
pub proof fn four_words_are_understood(line: Seq<char>)
    ensures
        message_in(line) == Message::Quit <==> trimmed(line) == "quit"@ || trimmed(line)
            == "idle"@,
        message_in(line) == Message::Show(Mode::Recording) <==> trimmed(line) == "recording"@,
        message_in(line) == Message::Show(Mode::Transcribing) <==> trimmed(line)
            == "transcribing"@,
{
    reveal_strlit("recording");
    reveal_strlit("transcribing");
    reveal_strlit("quit");
    reveal_strlit("idle");
    assert("recording"@.len() == 9 && "transcribing"@.len() == 12 && "quit"@.len() == 4
        && "idle"@.len() == 4);
}

/// The overlay shows what it was last told to, goes on as it is on a line that it
/// does not understand, and ends only when it is told to quit.
pub proof fn overlay_shows_the_last_mode(mode: Mode, next: Mode)
    ensures
        after_message(mode, Message::Show(next)) == Some(next),
        after_message(mode, Message::Unknown) == Some(mode),
        after_message(mode, Message::Quit) is None,
{
}

} // verus!
