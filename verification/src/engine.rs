//! The dictation engine: what a command does, and what a clip goes through from
//! capture to the focused window.

use vstd::prelude::*;

verus! {

/// State changes that the engine reports.
#[derive(Debug)]
pub enum EngineEvent {
    /// The microphone is open.
    Recording,
    /// A clip is being worked on.
    Processing,
    /// This is what was said.
    Transcript(String),
    /// Nothing is going on.
    Idle,
    /// Something went wrong.
    Error(String),
}

impl Clone for EngineEvent {
    fn clone(&self) -> (r: Self)
        ensures
            r == *self,
    {
        match self {
            EngineEvent::Recording => EngineEvent::Recording,
            EngineEvent::Processing => EngineEvent::Processing,
            EngineEvent::Transcript(text) => EngineEvent::Transcript(text.clone()),
            EngineEvent::Idle => EngineEvent::Idle,
            EngineEvent::Error(message) => EngineEvent::Error(message.clone()),
        }
    }
}

/// An event, with texts as sequences of characters.
pub enum EventView {
    /// The microphone is open.
    Recording,
    /// A clip is being worked on.
    Processing,
    /// This is what was said.
    Transcript(Seq<char>),
    /// Nothing is going on.
    Idle,
    /// Something went wrong.
    Error(Seq<char>),
}

impl View for EngineEvent {
    type V = EventView;

    open spec fn view(&self) -> EventView {
        match *self {
            EngineEvent::Recording => EventView::Recording,
            EngineEvent::Processing => EventView::Processing,
            EngineEvent::Transcript(text) => EventView::Transcript(text@),
            EngineEvent::Idle => EventView::Idle,
            EngineEvent::Error(message) => EventView::Error(message@),
        }
    }
}

impl DeepView for EngineEvent {
    type V = EventView;

    open spec fn deep_view(&self) -> EventView {
        self@
    }
}

/// What a driver can ask of the engine.
#[derive(Clone, Copy, Debug, PartialEq, Eq, Structural)]
pub enum Command {
    /// Begin capturing from the default microphone.
    Start,
    /// Stop capturing and work on what was recorded.
    Stop,
    /// Work on a clip that comes with the command.
    Process,
    /// End the engine.
    Shutdown,
}

/// What a command makes the engine do.
#[derive(Clone, Copy, Debug, PartialEq, Eq, Structural)]
pub enum EngineStep {
    /// Open the microphone and report how that went.
    OpenMicrophone,
    /// Close the microphone, work on the recording and reply with the transcript.
    ProcessRecording,
    /// Reply with an empty transcript: there is no recording.
    ReplyEmpty,
    /// Work on the clip of the command and reply with the transcript.
    ProcessClip,
    /// Leave the loop.
    Exit,
}

/// What the engine remembers between commands.
#[derive(Clone, Copy, Debug, PartialEq, Eq, Structural)]
pub struct EngineState {
    /// Whether there is a recording under way.
    pub recording: bool,
}

/// The step that a command leads to, and whether a recording is left under way.
pub open spec fn step_for(recording: bool, command: Command) -> (bool, EngineStep) {
    match command {
        Command::Start => (recording, EngineStep::OpenMicrophone),
        Command::Stop => if recording {
            (false, EngineStep::ProcessRecording)
        } else {
            (false, EngineStep::ReplyEmpty)
        },
        Command::Process => (recording, EngineStep::ProcessClip),
        Command::Shutdown => (recording, EngineStep::Exit),
    }
}

impl EngineState {
    /// Nothing recorded yet.
    pub fn new() -> (r: EngineState)
        ensures
            !r.recording,
    {
        EngineState { recording: false }
    }

    /// A command came in.
    pub fn command(&mut self, command: Command) -> (r: EngineStep)
        ensures
            (final(self).recording, r) == step_for(old(self).recording, command),
    {
        match command {
            Command::Start => EngineStep::OpenMicrophone,
            Command::Stop => {
                let was: bool = self.recording;
                self.recording = false;
                if was {
                    EngineStep::ProcessRecording
                } else {
                    EngineStep::ReplyEmpty
                }
            },
            Command::Process => EngineStep::ProcessClip,
            Command::Shutdown => EngineStep::Exit,
        }
    }

    /// The microphone opened, or it did not, for this reason. Where it did, the new
    /// recording takes the place of any other; where it did not, a recording that is
    /// under way goes on.
    pub fn microphone(&mut self, opened: Result<(), String>) -> (r: EngineEvent)
        ensures
            match opened {
                Ok(_) => final(self).recording && r@ == EventView::Recording,
                Err(reason) => *final(self) == *old(self) && r@ == EventView::Error(reason@),
            },
    {
        match opened {
            Ok(_) => {
                self.recording = true;
                EngineEvent::Recording
            },
            Err(reason) => EngineEvent::Error(reason),
        }
    }
}

/// The end of a clip: what is left to report, and the transcript to reply with.
#[derive(Debug)]
pub struct ClipEnd {
    /// The events to report, in order.
    pub events: Vec<EngineEvent>,
    /// The transcript.
    pub text: String,
}

/// Work on a clip begins.
pub fn begin_clip() -> (r: EngineEvent)
    ensures
        r@ == EventView::Processing,
{
    EngineEvent::Processing
}

/// What is reported when the clip could not be transcribed.
pub open spec fn failed_events(reason: Seq<char>) -> Seq<EventView> {
    seq![EventView::Error("transcription failed: "@ + reason), EventView::Idle]
}

/// What is reported when the transcript `text` is through, with the reason why it
/// could not be typed where there was one.
pub open spec fn finished_events(text: Seq<char>, not_typed: Option<Seq<char>>) -> Seq<EventView> {
    (match not_typed {
        Some(reason) => seq![EventView::Error("injection failed: "@ + reason)],
        None => seq![],
    }) + seq![EventView::Transcript(text), EventView::Idle]
}

/// The raw transcript to go on with, or the end of a clip that has none.
pub fn transcribed(result: Result<String, String>) -> (r: Result<String, ClipEnd>)
    ensures
        match result {
            Ok(raw) => r matches Ok(text) && text@ == raw@,
            Err(reason) => r matches Err(end) && end.events.deep_view() == failed_events(reason@)
                && end.text@ == ""@,
        },
{
    match result {
        Ok(raw) => Ok(raw),
        Err(reason) => {
            let mut message = "transcription failed: ".to_string();
            message.append(reason.as_str());
            let mut events: Vec<EngineEvent> = Vec::new();
            events.push(EngineEvent::Error(message));
            events.push(EngineEvent::Idle);
            assert(events.deep_view() == failed_events(reason@));
            Err(ClipEnd { events, text: "".to_string() })
        },
    }
}

/// Whether the transcript is typed: typing works here and there is something to
/// type.
pub fn types_text(inject_ok: bool, text: &str) -> (r: bool)
    ensures
        r == (inject_ok && text@.len() > 0),
{
    inject_ok && !text.is_empty()
}

/// Why typing failed, where it did.
pub open spec fn why_not_typed(typed: Option<Result<(), String>>) -> Option<Seq<char>> {
    match typed {
        Some(Err(reason)) => Some(reason@),
        _ => None,
    }
}

/// The end of a clip with the transcript `text`. `typed` is how typing it went, or
/// nothing where it was not typed.
pub fn end_clip(text: String, typed: Option<Result<(), String>>) -> (r: ClipEnd)
    ensures
        r.text@ == text@,
        r.events.deep_view() == finished_events(text@, why_not_typed(typed)),
{
    let mut events: Vec<EngineEvent> = Vec::new();
    let ghost not_typed = why_not_typed(typed);
    match typed {
        Some(Err(reason)) => {
            let mut message = "injection failed: ".to_string();
            message.append(reason.as_str());
            events.push(EngineEvent::Error(message));
        },
        _ => {},
    }
    events.push(EngineEvent::Transcript(text.clone()));
    events.push(EngineEvent::Idle);
    assert(events.deep_view() == finished_events(text@, not_typed));
    ClipEnd { events, text }
}

/// Everything that is reported of one clip: how its transcription went, the text
/// that the raw transcript became, and why that could not be typed where it was not.
pub open spec fn clip_events(
    transcription: Result<Seq<char>, Seq<char>>,
    text: Seq<char>,
    not_typed: Option<Seq<char>>,
) -> Seq<EventView> {
    seq![EventView::Processing] + (match transcription {
        Ok(_) => finished_events(text, not_typed),
        Err(reason) => failed_events(reason),
    })
}

/// However a clip goes, the engine reports that it is at work first, and that it is
/// idle last and at no other time.
pub proof fn clip_ends_idle(
    transcription: Result<Seq<char>, Seq<char>>,
    text: Seq<char>,
    not_typed: Option<Seq<char>>,
)
    ensures
        ({
            let events = clip_events(transcription, text, not_typed);
            &&& events.first() == EventView::Processing
            &&& events.last() == EventView::Idle
            &&& forall|i: int|
                0 <= i < events.len() - 1 ==> #[trigger] events[i] != EventView::Idle
        }),
{
}

/// A clip that was transcribed is reported with its transcript once, and that is
/// the text of the reply, whether or not it could be typed. One that was not is
/// reported with none.
pub proof fn transcript_is_reported_once(
    transcription: Result<Seq<char>, Seq<char>>,
    text: Seq<char>,
    not_typed: Option<Seq<char>>,
)
    ensures
        ({
            let events = clip_events(transcription, text, not_typed);
            &&& transcription is Ok ==> events[events.len() - 2] == EventView::Transcript(text)
            &&& forall|i: int|
                0 <= i < events.len() && #[trigger] events[i] is Transcript ==> transcription is Ok
                    && i == events.len() - 2
        }),
{
}

/// A second stop finds nothing: after a stop there is no recording, and a stop
/// without a recording only replies with an empty transcript.
pub proof fn second_stop_is_empty(recording: bool)
    ensures
        step_for(step_for(recording, Command::Stop).0, Command::Stop) == (
            false,
            EngineStep::ReplyEmpty,
        ),
{
}

/// Only a stop ends a recording, and only a recording is worked on by it; no other
/// command touches one that is under way.
pub proof fn commands_keep_the_recording(recording: bool, command: Command)
    ensures
        step_for(recording, command).0 <==> recording && command != Command::Stop,
        step_for(recording, command).1 == EngineStep::ProcessRecording <==> recording && command
            == Command::Stop,
        step_for(recording, command).1 == EngineStep::ReplyEmpty <==> !recording && command
            == Command::Stop,
        step_for(recording, command).1 == EngineStep::OpenMicrophone <==> command
            == Command::Start,
        step_for(recording, command).1 == EngineStep::ProcessClip <==> command == Command::Process,
        step_for(recording, command).1 == EngineStep::Exit <==> command == Command::Shutdown,
{
}

/// Failures are reported, with the whole reason, and nothing else is reported as one:
/// that there is no transcript, or that it could not be typed.
pub proof fn failures_are_reported(
    transcription: Result<Seq<char>, Seq<char>>,
    text: Seq<char>,
    not_typed: Option<Seq<char>>,
)
    ensures
        ({
            let events = clip_events(transcription, text, not_typed);
            &&& (transcription is Ok && not_typed is None) ==> forall|i: int|
                0 <= i < events.len() ==> !(#[trigger] events[i] is Error)
            &&& (transcription matches Err(reason) ==> {
                &&& events.len() == 3
                &&& events[1] == EventView::Error("transcription failed: "@ + reason)
            })
            &&& (transcription is Ok && not_typed is Some ==> {
                &&& events.len() == 4
                &&& events[1] == EventView::Error("injection failed: "@ + not_typed->0)
            })
            &&& (transcription is Ok && not_typed is None ==> events.len() == 3)
        }),
{
}

/// Typing that failed has its reason; typing that went well, or was not tried, has
/// none.
pub proof fn only_failures_have_reasons(reason: String)
    ensures
        why_not_typed(Some(Err(reason))) == Some(reason@),
        why_not_typed(Some(Ok(()))) is None,
        why_not_typed(None) is None,
{
}

} // verus!
