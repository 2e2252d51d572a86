//! The tray and the settings window.

use vstd::prelude::*;

use crate::config::Config;
use crate::engine::{clip_events, Command, EngineEvent, EventView};

verus! {

/// The id of the tray item.
pub const TRAY_ID: &'static str = "fluidsiren";

/// The title of the tray item.
pub const TRAY_TITLE: &'static str = "FluidSiren";

/// Coarse state that drives the tray icon and its tooltip.
#[derive(Clone, Copy, Debug, PartialEq, Eq, Structural)]
pub enum TrayState {
    /// Nothing is going on.
    Idle,
    /// The microphone is open.
    Recording,
    /// A clip is being worked on.
    Processing,
}

/// The word for a state.
pub open spec fn state_label(state: TrayState) -> Seq<char> {
    match state {
        TrayState::Idle => "Idle"@,
        TrayState::Recording => "Recording"@,
        TrayState::Processing => "Transcribing"@,
    }
}

/// The icon for a state.
pub open spec fn state_icon(state: TrayState) -> Seq<char> {
    match state {
        TrayState::Idle => "audio-input-microphone"@,
        TrayState::Recording => "media-record"@,
        TrayState::Processing => "view-refresh"@,
    }
}

impl TrayState {
    /// The word for the state.
    pub fn label(self) -> (r: &'static str)
        ensures
            r@ == state_label(self),
    {
        match self {
            TrayState::Idle => "Idle",
            TrayState::Recording => "Recording",
            TrayState::Processing => "Transcribing",
        }
    }

    /// Freedesktop icon names present in standard KDE/Plasma icon themes.
    pub fn icon(self) -> (r: &'static str)
        ensures
            r@ == state_icon(self),
    {
        match self {
            TrayState::Idle => "audio-input-microphone",
            TrayState::Recording => "media-record",
            TrayState::Processing => "view-refresh",
        }
    }

    /// The text of the tooltip.
    pub fn tool_tip(self) -> (r: String)
        ensures
            r@ == "Status: "@ + state_label(self),
    {
        let mut out = "Status: ".to_string();
        out.append(self.label());
        out
    }
}

/// What a menu entry does.
#[derive(Clone, Copy, Debug, PartialEq, Eq, Structural)]
pub enum MenuAction {
    /// Start or stop dictation.
    Dictation,
    /// Open the settings window, as a process of its own.
    Settings,
    /// End the engine and the app.
    Quit,
}

/// A line of the tray menu.
#[derive(Debug)]
pub enum MenuEntry {
    /// An entry that can be chosen.
    Item {
        /// What it says.
        label: String,
        /// Its icon.
        icon_name: String,
        /// What it does.
        action: MenuAction,
    },
    /// A line between entries.
    Separator,
}

/// A line of the tray menu, with texts as sequences of characters.
pub enum MenuEntryView {
    /// An entry that can be chosen: what it says, its icon, and what it does.
    Item(Seq<char>, Seq<char>, MenuAction),
    /// A line between entries.
    Separator,
}

impl View for MenuEntry {
    type V = MenuEntryView;

    open spec fn view(&self) -> MenuEntryView {
        match *self {
            MenuEntry::Item { label, icon_name, action } => MenuEntryView::Item(
                label@,
                icon_name@,
                action,
            ),
            MenuEntry::Separator => MenuEntryView::Separator,
        }
    }
}

impl DeepView for MenuEntry {
    type V = MenuEntryView;

    open spec fn deep_view(&self) -> MenuEntryView {
        self@
    }
}

fn item(label: &str, icon_name: &str, action: MenuAction) -> (r: MenuEntry)
    ensures
        r@ == MenuEntryView::Item(label@, icon_name@, action),
{
    MenuEntry::Item { label: label.to_string(), icon_name: icon_name.to_string(), action }
}

/// The lines of the tray menu. The first stops dictation in any state but the idle
/// one.
pub open spec fn menu_lines(state: TrayState) -> Seq<MenuEntryView> {
    seq![
        if state == TrayState::Idle {
            MenuEntryView::Item("Start dictation"@, "media-record"@, MenuAction::Dictation)
        } else {
            MenuEntryView::Item("Stop dictation"@, "media-playback-stop"@, MenuAction::Dictation)
        },
        MenuEntryView::Separator,
        MenuEntryView::Item("Settings\u{2026}"@, "configure"@, MenuAction::Settings),
        MenuEntryView::Separator,
        MenuEntryView::Item("Quit"@, "application-exit"@, MenuAction::Quit),
    ]
}

/// The tray menu.
pub fn menu(state: TrayState) -> (r: Vec<MenuEntry>)
    ensures
        r.deep_view() == menu_lines(state),
{
    let mut entries: Vec<MenuEntry> = Vec::new();
    match state {
        TrayState::Idle => entries.push(
            item("Start dictation", "media-record", MenuAction::Dictation),
        ),
        _ => entries.push(item("Stop dictation", "media-playback-stop", MenuAction::Dictation)),
    }
    entries.push(MenuEntry::Separator);
    entries.push(item("Settings\u{2026}", "configure", MenuAction::Settings));
    entries.push(MenuEntry::Separator);
    entries.push(item("Quit", "application-exit", MenuAction::Quit));
    entries
}

/// The command that choosing an entry sends to the engine, where there is one.
pub open spec fn menu_command(state: TrayState, action: MenuAction) -> Option<Command> {
    match action {
        MenuAction::Dictation => if state == TrayState::Idle {
            Some(Command::Start)
        } else {
            Some(Command::Stop)
        },
        MenuAction::Settings => None,
        MenuAction::Quit => Some(Command::Shutdown),
    }
}

/// An entry of the menu was chosen.
pub fn activate(state: TrayState, action: MenuAction) -> (r: Option<Command>)
    ensures
        r == menu_command(state, action),
{
    match action {
        MenuAction::Dictation => match state {
            TrayState::Idle => Some(Command::Start),
            _ => Some(Command::Stop),
        },
        MenuAction::Settings => None,
        MenuAction::Quit => Some(Command::Shutdown),
    }
}

/// The tray state that an event leads to.
pub open spec fn tray_after(event: EventView) -> TrayState {
    match event {
        EventView::Recording => TrayState::Recording,
        EventView::Processing => TrayState::Processing,
        EventView::Transcript(_) => TrayState::Processing,
        EventView::Idle => TrayState::Idle,
        EventView::Error(_) => TrayState::Idle,
    }
}

/// The engine reported an event: the new state of the tray.
pub fn tray_state(event: &EngineEvent) -> (r: TrayState)
    ensures
        r == tray_after(event@),
{
    match event {
        EngineEvent::Recording => TrayState::Recording,
        EngineEvent::Processing => TrayState::Processing,
        EngineEvent::Transcript(_) => TrayState::Processing,
        EngineEvent::Idle => TrayState::Idle,
        EngineEvent::Error(_) => TrayState::Idle,
    }
}

/// What an event does to the overlay.
#[derive(Clone, Copy, Debug, PartialEq, Eq, Structural)]
pub enum OverlayChange {
    /// Show it in the recording state.
    ShowRecording,
    /// Switch it to the transcribing state.
    SetTranscribing,
    /// Hide it.
    Hide,
    /// Leave it as it is.
    Keep,
}

/// What an event does to the overlay.
pub open spec fn overlay_after(event: EventView) -> OverlayChange {
    match event {
        EventView::Recording => OverlayChange::ShowRecording,
        EventView::Processing => OverlayChange::SetTranscribing,
        EventView::Transcript(_) => OverlayChange::Keep,
        EventView::Idle => OverlayChange::Hide,
        EventView::Error(_) => OverlayChange::Hide,
    }
}

/// The engine reported an event: what to do to the overlay.
pub fn overlay_change(event: &EngineEvent) -> (r: OverlayChange)
    ensures
        r == overlay_after(event@),
{
    match event {
        EngineEvent::Recording => OverlayChange::ShowRecording,
        EngineEvent::Processing => OverlayChange::SetTranscribing,
        EngineEvent::Transcript(_) => OverlayChange::Keep,
        EngineEvent::Idle => OverlayChange::Hide,
        EngineEvent::Error(_) => OverlayChange::Hide,
    }
}

/// The fields of the settings window.
#[derive(Debug)]
pub struct SettingsForm {
    /// Speech recogniser to load.
    pub provider: String,
    /// Whisper ggml model name.
    pub whisper_model: String,
    /// Language hint.
    pub language: String,
    /// Whether to run the enhancement pass.
    pub enhance: bool,
    /// Ollama model.
    pub ollama_model: String,
    /// Ollama base URL.
    pub ollama_url: String,
    /// The hotkey.
    pub hotkey_key: String,
}

/// Whether the form shows these settings.
pub open spec fn form_shows(form: SettingsForm, cfg: Config) -> bool {
    &&& form.provider@ == cfg.provider@
    &&& form.whisper_model@ == cfg.whisper_model@
    &&& form.language@ == cfg.language@
    &&& form.enhance == cfg.enhance
    &&& form.ollama_model@ == cfg.ollama_model@
    &&& form.ollama_url@ == cfg.ollama_url@
    &&& form.hotkey_key@ == cfg.hotkey_key@
}

/// Whether two settings agree in what the form does not show.
pub open spec fn same_unshown(a: Config, b: Config) -> bool {
    &&& a.ollama_keep_alive@ == b.ollama_keep_alive@
    &&& a.hotkey_backend@ == b.hotkey_backend@
    &&& a.hotkey_mode@ == b.hotkey_mode@
}

/// Whether two settings are the same throughout.
pub open spec fn same_settings(a: Config, b: Config) -> bool {
    &&& a.provider@ == b.provider@
    &&& a.whisper_model@ == b.whisper_model@
    &&& a.language@ == b.language@
    &&& a.enhance == b.enhance
    &&& a.ollama_model@ == b.ollama_model@
    &&& a.ollama_url@ == b.ollama_url@
    &&& a.hotkey_key@ == b.hotkey_key@
    &&& same_unshown(a, b)
}

/// Fills the form from the settings.
pub fn settings_form(cfg: &Config) -> (r: SettingsForm)
    ensures
        form_shows(r, *cfg),
{
    SettingsForm {
        provider: cfg.provider.clone(),
        whisper_model: cfg.whisper_model.clone(),
        language: cfg.language.clone(),
        enhance: cfg.enhance,
        ollama_model: cfg.ollama_model.clone(),
        ollama_url: cfg.ollama_url.clone(),
        hotkey_key: cfg.hotkey_key.clone(),
    }
}

/// Takes the form over into the settings. What the form does not show stays.
pub fn persist_settings(form: SettingsForm, cfg: &mut Config)
    ensures
        form_shows(form, *final(cfg)),
        same_unshown(*final(cfg), *old(cfg)),
{
    cfg.provider = form.provider;
    cfg.whisper_model = form.whisper_model;
    cfg.language = form.language;
    cfg.enhance = form.enhance;
    cfg.ollama_model = form.ollama_model;
    cfg.ollama_url = form.ollama_url;
    cfg.hotkey_key = form.hotkey_key;
}

/// A key was captured in the settings window: the form shows it as the hotkey, and
/// everything else in the form stays. The canonical spelling of the key is taken
/// where it has one ("Ctrl+D" for "ctrl+d"), and else the text as it was captured.
pub fn captured(form: SettingsForm, raw: &str, canonical: Option<&str>) -> (r: SettingsForm)
    ensures
        r == (SettingsForm { hotkey_key: r.hotkey_key, ..form }),
        r.hotkey_key@ == (match canonical {
            Some(text) => text@,
            None => raw@,
        }),
{
    let key = match canonical {
        Some(text) => text,
        None => raw,
    };
    SettingsForm { hotkey_key: key.to_string(), ..form }
}

/// The first line of the menu does what it says: it starts dictation when it offers
/// to start it, and stops it when it offers to stop it.
pub proof fn menu_does_what_it_says(
    state: TrayState,
    label: Seq<char>,
    icon: Seq<char>,
    action: MenuAction,
)
    requires
        menu_lines(state)[0] == MenuEntryView::Item(label, icon, action),
    ensures
        label == "Start dictation"@ <==> menu_command(state, action) == Some(Command::Start),
        label == "Stop dictation"@ <==> menu_command(state, action) == Some(Command::Stop),
{
    reveal_strlit("Start dictation");
    reveal_strlit("Stop dictation");
    assert("Start dictation"@.len() != "Stop dictation"@.len());
}

/// Saving the settings window without a change changes no setting.
pub proof fn saving_unchanged_keeps_settings(before: Config, form: SettingsForm, after: Config)
    requires
        form_shows(form, before),
        form_shows(form, after),
        same_unshown(after, before),
    ensures
        same_settings(after, before),
{
}

/// However a clip goes, the tray shows the idle state and the overlay is hidden
/// when the last of its events is through.
pub proof fn clip_leaves_the_ui_idle(
    transcription: Result<Seq<char>, Seq<char>>,
    text: Seq<char>,
    not_typed: Option<Seq<char>>,
)
    ensures
        tray_after(clip_events(transcription, text, not_typed).last()) == TrayState::Idle,
        overlay_after(clip_events(transcription, text, not_typed).last()) == OverlayChange::Hide,
{
}

/// The tray and the overlay tell the same story, whatever an event says: idle and
/// hidden after an end or an error, recording while the microphone is open, and
/// transcribing in between.
pub proof fn tray_and_overlay_agree(event: EventView)
    ensures
        tray_after(event) == TrayState::Idle <==> event is Idle || event is Error,
        overlay_after(event) == OverlayChange::Hide <==> event is Idle || event is Error,
        tray_after(event) == TrayState::Recording <==> event is Recording,
        overlay_after(event) == OverlayChange::ShowRecording <==> event is Recording,
        tray_after(event) == TrayState::Processing <==> event is Processing || event
            is Transcript,
        overlay_after(event) == OverlayChange::SetTranscribing <==> event is Processing,
        overlay_after(event) == OverlayChange::Keep <==> event is Transcript,
{
}

/// Two forms of the same settings show the same in every field, and settings saved
/// from one form agree in every field that it shows.
pub proof fn forms_show_every_field(form: SettingsForm, cfg: Config)
    requires
        form_shows(form, cfg),
    ensures
        form.provider@ == cfg.provider@ && form.whisper_model@ == cfg.whisper_model@,
        form.language@ == cfg.language@ && form.enhance == cfg.enhance,
        form.ollama_model@ == cfg.ollama_model@ && form.ollama_url@ == cfg.ollama_url@,
        form.hotkey_key@ == cfg.hotkey_key@,
{
}

/// What the form does not show is kept: how long the model stays loaded, and the
/// backend and mode of the hotkey.
pub proof fn unshown_settings_are_kept(a: Config, b: Config)
    requires
        same_unshown(a, b),
    ensures
        a.ollama_keep_alive@ == b.ollama_keep_alive@,
        a.hotkey_backend@ == b.hotkey_backend@,
        a.hotkey_mode@ == b.hotkey_mode@,
{
}

/// The menu always has dictation first, then the settings, then the way out, with
/// lines between them.
pub proof fn menu_has_three_entries(state: TrayState)
    ensures
        menu_lines(state).len() == 5,
        menu_lines(state)[0] matches MenuEntryView::Item(_, _, action) && action
            == MenuAction::Dictation,
        menu_lines(state)[1] is Separator,
        menu_lines(state)[2] matches MenuEntryView::Item(_, _, action) && action
            == MenuAction::Settings,
        menu_lines(state)[3] is Separator,
        menu_lines(state)[4] matches MenuEntryView::Item(_, _, action) && action
            == MenuAction::Quit,
{
}

/// Dictation is toggled by the state, the settings window needs nothing of the
/// engine, and quitting ends it in any state.
pub proof fn entries_send_their_commands(state: TrayState, action: MenuAction)
    ensures
        menu_command(state, action) == Some(Command::Start) <==> action == MenuAction::Dictation
            && state == TrayState::Idle,
        menu_command(state, action) == Some(Command::Stop) <==> action == MenuAction::Dictation
            && state != TrayState::Idle,
        menu_command(state, action) == Some(Command::Shutdown) <==> action == MenuAction::Quit,
        menu_command(state, action) is None <==> action == MenuAction::Settings,
{
}

} // verus!
