//! Voice commands: the wake word, the parsing of spoken text into semantic
//! events, the confidence of a recognition, and the command history.
//!
//! Confidences are in thousandths. Audio capture, wake-word energy
//! detection and speech-to-text run outside this library.
use vstd::prelude::*;
use crate::text::{push_str, push_u64, string_of, chars_of, lowercased, to_lowercase, contains_seq, contains,
    eq_str, chars_eq};
use crate::shell_api::has_char;
use crate::scan::{words, split_whitespace, views};
use crate::events::SemanticEvent;

verus! {

/// How sure a recognition is.
#[derive(Debug, Clone, Copy, PartialEq, Eq, PartialOrd, Ord)]
pub enum ConfidenceLevel {
    /// May need confirmation
    Low,
    /// Execute with feedback
    Medium,
    /// Execute silently
    High,
}

impl ConfidenceLevel {
    pub open spec fn of_score(score_milli: u32) -> ConfidenceLevel {
        if score_milli >= 850 {
            ConfidenceLevel::High
        } else if score_milli >= 600 {
            ConfidenceLevel::Medium
        } else {
            ConfidenceLevel::Low
        }
    }

    /// The level of a confidence score: high from 0.85, medium from 0.6.
    pub fn from_score(score_milli: u32) -> (c: ConfidenceLevel)
        ensures
            c == ConfidenceLevel::of_score(score_milli),
    {
        if score_milli >= 850 {
            ConfidenceLevel::High
        } else if score_milli >= 600 {
            ConfidenceLevel::Medium
        } else {
            ConfidenceLevel::Low
        }
    }
}

/// Errors of voice processing.
#[derive(Debug, Clone, PartialEq, Eq)]
pub enum VoiceError {
    /// Microphone not available
    MicrophoneUnavailable,
    /// Speech recognition failed
    RecognitionFailed(String),
    /// Network error (for cloud STT)
    NetworkError(String),
    /// Invalid command
    InvalidCommand(String),
    /// Timeout waiting for command
    CommandTimeout,
    /// Permission denied
    PermissionDenied,
}

impl VoiceError {
    pub open spec fn message(self) -> Seq<char> {
        match self {
            VoiceError::MicrophoneUnavailable => "Microphone not available"@,
            VoiceError::RecognitionFailed(e) => "Recognition failed: "@ + e@,
            VoiceError::NetworkError(e) => "Network error: "@ + e@,
            VoiceError::InvalidCommand(e) => "Invalid command: "@ + e@,
            VoiceError::CommandTimeout => "Command timeout"@,
            VoiceError::PermissionDenied => "Permission denied"@,
        }
    }

    /// The error message.
    pub fn to_string(&self) -> (s: String)
        ensures
            s@ == self.message(),
    {
        let mut v: Vec<char> = Vec::new();
        match self {
            VoiceError::MicrophoneUnavailable => push_str(&mut v, "Microphone not available"),
            VoiceError::RecognitionFailed(e) => {
                push_str(&mut v, "Recognition failed: ");
                push_str(&mut v, e.as_str());
            },
            VoiceError::NetworkError(e) => {
                push_str(&mut v, "Network error: ");
                push_str(&mut v, e.as_str());
            },
            VoiceError::InvalidCommand(e) => {
                push_str(&mut v, "Invalid command: ");
                push_str(&mut v, e.as_str());
            },
            VoiceError::CommandTimeout => push_str(&mut v, "Command timeout"),
            VoiceError::PermissionDenied => push_str(&mut v, "Permission denied"),
        }
        assert(v@ =~= self.message());
        string_of(&v)
    }
}

/// State of the voice system.
#[derive(Debug, Clone, PartialEq, Eq)]
pub enum VoiceState {
    /// Listening for the wake word
    Idle,
    /// Wake word heard at `start_ms`; listening for a command
    Listening { start_ms: u64 },
    /// Converting speech to text
    Processing,
    /// Command parsed, ready to execute
    Ready,
    /// Executing the command
    Executing,
    /// An error occurred
    Error(VoiceError),
}

/// Voice configuration. Custom commands are phrases with action names,
/// tried in order.
#[derive(Debug, Clone, PartialEq, Eq)]
pub struct VoiceConfig {
    pub wake_word: String,
    pub max_command_duration_secs: u64,
    /// Confidence for automatic execution, in thousandths
    pub auto_execute_threshold_milli: u32,
    pub visual_feedback: bool,
    pub audio_feedback: bool,
    pub microphone_index: Option<usize>,
    /// Language code such as "en-US"
    pub language: String,
    pub custom_commands: Vec<(String, String)>,
}

impl VoiceConfig {
    /// Wake word "computer", five-second commands, automatic execution from
    /// 0.7, feedback on, and three custom commands.
    pub fn default() -> (c: VoiceConfig)
        ensures
            c.wake_word@ == "computer"@,
            c.max_command_duration_secs == 5,
            c.auto_execute_threshold_milli == 700,
            c.visual_feedback && c.audio_feedback,
            c.microphone_index is None,
            c.language@ == "en-US"@,
            c.custom_commands@.map_values(|p: (String, String)| (p.0@, p.1@)) == seq![
                ("beam me up"@, "zoom_in"@),
                ("engage"@, "execute"@),
                ("red alert"@, "tactical_reset"@),
            ],
    {
        let mut custom: Vec<(String, String)> = Vec::new();
        custom.push((String::from_str("beam me up"), String::from_str("zoom_in")));
        custom.push((String::from_str("engage"), String::from_str("execute")));
        custom.push((String::from_str("red alert"), String::from_str("tactical_reset")));
        let c = VoiceConfig {
            wake_word: String::from_str("computer"),
            max_command_duration_secs: 5,
            auto_execute_threshold_milli: 700,
            visual_feedback: true,
            audio_feedback: true,
            microphone_index: None,
            language: String::from_str("en-US"),
            custom_commands: custom,
        };
        assert(c.custom_commands@.map_values(|p: (String, String)| (p.0@, p.1@)) =~= seq![
            ("beam me up"@, "zoom_in"@),
            ("engage"@, "execute"@),
            ("red alert"@, "tactical_reset"@),
        ]);
        c
    }
}

/// A recognised command.
#[derive(Debug, Clone, PartialEq, Eq)]
pub struct VoiceCommand {
    /// Text from speech recognition
    pub raw_text: String,
    pub event: SemanticEvent,
    /// Confidence, in thousandths
    pub confidence_milli: u32,
    pub confidence_level: ConfidenceLevel,
    /// How long recognition took, in milliseconds
    pub processing_duration_ms: u64,
}

/// The speech-to-text engine's settings; transcription runs outside this
/// library.
#[derive(Debug, Clone, PartialEq, Eq)]
pub struct SpeechToText {
    /// Model file, if configured
    pub model_path: Option<String>,
    pub language: String,
}

impl SpeechToText {
    /// An engine for a language, with no model configured.
    pub fn new(language: &str) -> (s: SpeechToText)
        ensures
            s.language@ == language@,
            s.model_path is None,
    {
        SpeechToText { model_path: None, language: String::from_str(language) }
    }
}

/// The views of a sequence of static strings.
pub open spec fn strs(v: Seq<&str>) -> Seq<Seq<char>> {
    v.map_values(|s: &str| s@)
}

/// A target phrase matches: a phrase of several words anywhere in the
/// text, a single word as one of its words.
pub open spec fn target_hit(text: Seq<char>, ws: Seq<Seq<char>>, t: Seq<char>) -> bool {
    if t.contains(' ') {
        contains_seq(text, t)
    } else {
        ws.contains(t)
    }
}

/// Whether any target matches.
pub open spec fn matches_any(text: Seq<char>, ws: Seq<Seq<char>>, targets: Seq<Seq<char>>) -> bool {
    exists|i: int| 0 <= i < targets.len() && target_hit(text, ws, targets[i])
}

/// The event an action name stands for.
pub open spec fn action_event(a: Seq<char>) -> Option<SemanticEvent> {
    if a == "zoom_in"@ {
        Some(SemanticEvent::ZoomIn)
    } else if a == "zoom_out"@ {
        Some(SemanticEvent::ZoomOut)
    } else if a == "tactical_reset"@ {
        Some(SemanticEvent::TacticalReset)
    } else if a == "system_reset"@ {
        Some(SemanticEvent::SystemReset)
    } else if a == "toggle_bezel"@ {
        Some(SemanticEvent::ToggleBezel)
    } else if a == "mode_command"@ {
        Some(SemanticEvent::ModeCommand)
    } else if a == "mode_directory"@ {
        Some(SemanticEvent::ModeDirectory)
    } else if a == "mode_activity"@ {
        Some(SemanticEvent::ModeActivity)
    } else if a == "cycle_mode"@ {
        Some(SemanticEvent::CycleMode)
    } else if a == "select"@ {
        Some(SemanticEvent::Select)
    } else if a == "split_viewport"@ {
        Some(SemanticEvent::SplitViewport)
    } else if a == "close_viewport"@ {
        Some(SemanticEvent::CloseViewport)
    } else if a == "open_global_overview"@ {
        Some(SemanticEvent::OpenGlobalOverview)
    } else {
        None
    }
}

/// The first custom command whose phrase the text holds and whose action
/// names an event.
pub open spec fn custom_event(text: Seq<char>, cs: Seq<(Seq<char>, Seq<char>)>) -> Option<SemanticEvent>
    decreases cs.len(),
{
    if cs.len() == 0 {
        None
    } else if contains_seq(text, cs[0].0) && action_event(cs[0].1) is Some {
        action_event(cs[0].1)
    } else {
        custom_event(text, cs.drop_first())
    }
}

/// The built-in reading of a lower-case text with its words.
pub open spec fn builtin_event(text: Seq<char>, words: Seq<Seq<char>>) -> (SemanticEvent, u32) {
    if matches_any(text, words, seq!["zoom in"@, "closer"@, "deeper"@, "enter"@]) {
        (SemanticEvent::ZoomIn, 900)
    } else if matches_any(text, words, seq!["zoom out"@, "back"@, "up"@, "higher"@, "exit"@, "away"@]) {
        (SemanticEvent::ZoomOut, 900)
    } else if matches_any(text, words, seq!["overview"@, "global"@, "home"@, "show all"@]) {
        (SemanticEvent::OpenGlobalOverview, 850)
    } else if matches_any(text, words, seq!["command"@, "terminal"@, "cli"@]) {
        (SemanticEvent::ModeCommand, 900)
    } else if matches_any(text, words, seq!["directory"@, "files"@, "folder"@, "browse"@]) {
        (SemanticEvent::ModeDirectory, 900)
    } else if matches_any(text, words, seq!["activity"@, "processes"@, "apps"@, "running"@]) {
        (SemanticEvent::ModeActivity, 900)
    } else if matches_any(text, words, seq!["next mode"@, "cycle"@, "switch mode"@]) {
        (SemanticEvent::CycleMode, 850)
    } else if matches_any(text, words, seq!["reset"@, "emergency"@, "abort"@, "panic"@, "red alert"@]) {
        (SemanticEvent::TacticalReset, 900)
    } else if matches_any(text, words, seq!["bezel"@, "controls"@, "menu"@, "options"@]) {
        (SemanticEvent::ToggleBezel, 850)
    } else if matches_any(text, words, seq!["split"@, "divide"@, "tile"@, "split view"@]) {
        (SemanticEvent::SplitViewport, 850)
    } else if matches_any(text, words, seq!["close"@, "exit"@, "quit"@, "kill"@]) {
        (SemanticEvent::CloseViewport, 850)
    } else if matches_any(text, words, seq!["select"@, "choose"@, "open"@, "activate"@]) {
        (SemanticEvent::Select, 800)
    } else if matches_any(text, words, seq!["next"@, "forward"@, "right"@, "down"@]) {
        (SemanticEvent::NextElement, 800)
    } else if matches_any(text, words, seq!["previous"@, "back"@, "left"@, "up"@]) {
        (SemanticEvent::PrevElement, 800)
    } else if matches_any(text, words, seq!["mini-map"@, "map"@, "where am i"@, "location"@]) {
        (SemanticEvent::ToggleBezel, 700)
    } else {
        (SemanticEvent::SubmitPrompt, 300)
    }
}

/// The reading of a text: custom commands first (0.95), then the built-in
/// phrases, else a prompt submission (0.3).
pub open spec fn parsed(text: Seq<char>, custom: Seq<(Seq<char>, Seq<char>)>) -> (SemanticEvent, u32) {
    let lower = lowercased(text);
    match custom_event(lower, custom) {
        Some(e) => (e, 950),
        None => builtin_event(lower, words(lower)),
    }
}

fn targets_0() -> (v: Vec<&'static str>)
    ensures
        strs(v@) == seq!["zoom in"@, "closer"@, "deeper"@, "enter"@],
{
    let mut v: Vec<&'static str> = Vec::new();
    v.push("zoom in");
    v.push("closer");
    v.push("deeper");
    v.push("enter");
    assert(strs(v@) =~= seq!["zoom in"@, "closer"@, "deeper"@, "enter"@]);
    v
}

fn targets_1() -> (v: Vec<&'static str>)
    ensures
        strs(v@) == seq!["zoom out"@, "back"@, "up"@, "higher"@, "exit"@, "away"@],
{
    let mut v: Vec<&'static str> = Vec::new();
    v.push("zoom out");
    v.push("back");
    v.push("up");
    v.push("higher");
    v.push("exit");
    v.push("away");
    assert(strs(v@) =~= seq!["zoom out"@, "back"@, "up"@, "higher"@, "exit"@, "away"@]);
    v
}

fn targets_2() -> (v: Vec<&'static str>)
    ensures
        strs(v@) == seq!["overview"@, "global"@, "home"@, "show all"@],
{
    let mut v: Vec<&'static str> = Vec::new();
    v.push("overview");
    v.push("global");
    v.push("home");
    v.push("show all");
    assert(strs(v@) =~= seq!["overview"@, "global"@, "home"@, "show all"@]);
    v
}

fn targets_3() -> (v: Vec<&'static str>)
    ensures
        strs(v@) == seq!["command"@, "terminal"@, "cli"@],
{
    let mut v: Vec<&'static str> = Vec::new();
    v.push("command");
    v.push("terminal");
    v.push("cli");
    assert(strs(v@) =~= seq!["command"@, "terminal"@, "cli"@]);
    v
}

fn targets_4() -> (v: Vec<&'static str>)
    ensures
        strs(v@) == seq!["directory"@, "files"@, "folder"@, "browse"@],
{
    let mut v: Vec<&'static str> = Vec::new();
    v.push("directory");
    v.push("files");
    v.push("folder");
    v.push("browse");
    assert(strs(v@) =~= seq!["directory"@, "files"@, "folder"@, "browse"@]);
    v
}

fn targets_5() -> (v: Vec<&'static str>)
    ensures
        strs(v@) == seq!["activity"@, "processes"@, "apps"@, "running"@],
{
    let mut v: Vec<&'static str> = Vec::new();
    v.push("activity");
    v.push("processes");
    v.push("apps");
    v.push("running");
    assert(strs(v@) =~= seq!["activity"@, "processes"@, "apps"@, "running"@]);
    v
}

fn targets_6() -> (v: Vec<&'static str>)
    ensures
        strs(v@) == seq!["next mode"@, "cycle"@, "switch mode"@],
{
    let mut v: Vec<&'static str> = Vec::new();
    v.push("next mode");
    v.push("cycle");
    v.push("switch mode");
    assert(strs(v@) =~= seq!["next mode"@, "cycle"@, "switch mode"@]);
    v
}

fn targets_7() -> (v: Vec<&'static str>)
    ensures
        strs(v@) == seq!["reset"@, "emergency"@, "abort"@, "panic"@, "red alert"@],
{
    let mut v: Vec<&'static str> = Vec::new();
    v.push("reset");
    v.push("emergency");
    v.push("abort");
    v.push("panic");
    v.push("red alert");
    assert(strs(v@) =~= seq!["reset"@, "emergency"@, "abort"@, "panic"@, "red alert"@]);
    v
}

fn targets_8() -> (v: Vec<&'static str>)
    ensures
        strs(v@) == seq!["bezel"@, "controls"@, "menu"@, "options"@],
{
    let mut v: Vec<&'static str> = Vec::new();
    v.push("bezel");
    v.push("controls");
    v.push("menu");
    v.push("options");
    assert(strs(v@) =~= seq!["bezel"@, "controls"@, "menu"@, "options"@]);
    v
}

fn targets_9() -> (v: Vec<&'static str>)
    ensures
        strs(v@) == seq!["split"@, "divide"@, "tile"@, "split view"@],
{
    let mut v: Vec<&'static str> = Vec::new();
    v.push("split");
    v.push("divide");
    v.push("tile");
    v.push("split view");
    assert(strs(v@) =~= seq!["split"@, "divide"@, "tile"@, "split view"@]);
    v
}

fn targets_10() -> (v: Vec<&'static str>)
    ensures
        strs(v@) == seq!["close"@, "exit"@, "quit"@, "kill"@],
{
    let mut v: Vec<&'static str> = Vec::new();
    v.push("close");
    v.push("exit");
    v.push("quit");
    v.push("kill");
    assert(strs(v@) =~= seq!["close"@, "exit"@, "quit"@, "kill"@]);
    v
}

fn targets_11() -> (v: Vec<&'static str>)
    ensures
        strs(v@) == seq!["select"@, "choose"@, "open"@, "activate"@],
{
    let mut v: Vec<&'static str> = Vec::new();
    v.push("select");
    v.push("choose");
    v.push("open");
    v.push("activate");
    assert(strs(v@) =~= seq!["select"@, "choose"@, "open"@, "activate"@]);
    v
}

fn targets_12() -> (v: Vec<&'static str>)
    ensures
        strs(v@) == seq!["next"@, "forward"@, "right"@, "down"@],
{
    let mut v: Vec<&'static str> = Vec::new();
    v.push("next");
    v.push("forward");
    v.push("right");
    v.push("down");
    assert(strs(v@) =~= seq!["next"@, "forward"@, "right"@, "down"@]);
    v
}

fn targets_13() -> (v: Vec<&'static str>)
    ensures
        strs(v@) == seq!["previous"@, "back"@, "left"@, "up"@],
{
    let mut v: Vec<&'static str> = Vec::new();
    v.push("previous");
    v.push("back");
    v.push("left");
    v.push("up");
    assert(strs(v@) =~= seq!["previous"@, "back"@, "left"@, "up"@]);
    v
}

fn targets_14() -> (v: Vec<&'static str>)
    ensures
        strs(v@) == seq!["mini-map"@, "map"@, "where am i"@, "location"@],
{
    let mut v: Vec<&'static str> = Vec::new();
    v.push("mini-map");
    v.push("map");
    v.push("where am i");
    v.push("location");
    assert(strs(v@) =~= seq!["mini-map"@, "map"@, "where am i"@, "location"@]);
    v
}


fn word_in(ws: &Vec<Vec<char>>, t: &str) -> (b: bool)
    ensures
        b == views(ws@).contains(t@),
{
    let tc = chars_of(t);
    let mut i: usize = 0;
    while i < ws.len()
        invariant
            0 <= i <= ws@.len(),
            tc@ == t@,
            forall|j: int| 0 <= j < i ==> ws@[j]@ != t@,
        decreases ws@.len() - i,
    {
        if chars_eq(&ws[i], &tc) {
            assert(views(ws@)[i as int] == t@);
            return true;
        }
        i = i + 1;
    }
    assert forall|j: int| 0 <= j < views(ws@).len() implies views(ws@)[j] != t@ by {
        assert(views(ws@)[j] == ws@[j]@);
    }
    false
}

fn matches_any_exec(text: &Vec<char>, ws: &Vec<Vec<char>>, targets: &Vec<&'static str>) -> (b: bool)
    ensures
        b == matches_any(text@, views(ws@), strs(targets@)),
{
    let mut i: usize = 0;
    while i < targets.len()
        invariant
            0 <= i <= targets@.len(),
            forall|j: int| 0 <= j < i ==> !target_hit(text@, views(ws@), strs(targets@)[j]),
        decreases targets@.len() - i,
    {
        let t = targets[i];
        let tc = chars_of(t);
        let hit = if has_char(&tc, ' ') {
            contains(text, &tc)
        } else {
            word_in(ws, t)
        };
        assert(strs(targets@)[i as int] == t@);
        if hit {
            return true;
        }
        i = i + 1;
    }
    false
}

fn action_to_event_exec(action: &String) -> (r: Option<SemanticEvent>)
    ensures
        r == action_event(action@),
{
    let a = chars_of(action.as_str());
    if eq_str(&a, "zoom_in") {
        return Some(SemanticEvent::ZoomIn);
    }
    if eq_str(&a, "zoom_out") {
        return Some(SemanticEvent::ZoomOut);
    }
    if eq_str(&a, "tactical_reset") {
        return Some(SemanticEvent::TacticalReset);
    }
    if eq_str(&a, "system_reset") {
        return Some(SemanticEvent::SystemReset);
    }
    if eq_str(&a, "toggle_bezel") {
        return Some(SemanticEvent::ToggleBezel);
    }
    if eq_str(&a, "mode_command") {
        return Some(SemanticEvent::ModeCommand);
    }
    if eq_str(&a, "mode_directory") {
        return Some(SemanticEvent::ModeDirectory);
    }
    if eq_str(&a, "mode_activity") {
        return Some(SemanticEvent::ModeActivity);
    }
    if eq_str(&a, "cycle_mode") {
        return Some(SemanticEvent::CycleMode);
    }
    if eq_str(&a, "select") {
        return Some(SemanticEvent::Select);
    }
    if eq_str(&a, "split_viewport") {
        return Some(SemanticEvent::SplitViewport);
    }
    if eq_str(&a, "close_viewport") {
        return Some(SemanticEvent::CloseViewport);
    }
    if eq_str(&a, "open_global_overview") {
        return Some(SemanticEvent::OpenGlobalOverview);
    }
    None
}

/// The voice command processor.
#[derive(Debug)]
pub struct VoiceCommandProcessor {
    pub config: VoiceConfig,
    pub state: VoiceState,
    pub last_command: Option<VoiceCommand>,
    pub command_history: Vec<VoiceCommand>,
    /// Most commands kept in the history
    pub max_history: usize,
    /// Whether the wake word is listened for
    pub wake_word_active: bool,
    /// When recording started
    pub recording_start_ms: Option<u64>,
    pub stt_engine: SpeechToText,
}


/// The views of custom commands.
pub open spec fn custom_views(v: Seq<(String, String)>) -> Seq<(Seq<char>, Seq<char>)> {
    v.map_values(|p: (String, String)| (p.0@, p.1@))
}

/// The history after a command: the oldest goes beyond the bound.
pub open spec fn with_history(h: Seq<VoiceCommand>, c: VoiceCommand, max: usize) -> Seq<VoiceCommand> {
    if h.len() + 1 > max {
        h.push(c).drop_first()
    } else {
        h.push(c)
    }
}

/// The status line of the voice system.
pub open spec fn status_text(state: VoiceState, active: bool, wake_word: Seq<char>) -> Seq<char> {
    match state {
        VoiceState::Idle => if active {
            "Listening for \""@ + wake_word + "\"..."@
        } else {
            "Voice commands disabled"@
        },
        VoiceState::Listening { .. } => "Listening for command..."@,
        VoiceState::Processing => "Processing..."@,
        VoiceState::Ready => "Command ready"@,
        VoiceState::Executing => "Executing..."@,
        VoiceState::Error(e) => "Error: "@ + e.message(),
    }
}

impl VoiceCommandProcessor {
    /// An idle processor with the default configuration.
    pub fn new() -> (p: VoiceCommandProcessor)
        ensures
            p.state == VoiceState::Idle,
            p.last_command is None,
            p.command_history@.len() == 0,
            p.max_history == 50,
            !p.wake_word_active,
            p.config.wake_word@ == "computer"@,
    {
        Self::with_config(VoiceConfig::default())
    }

    /// An idle processor.
    pub fn with_config(config: VoiceConfig) -> (p: VoiceCommandProcessor)
        ensures
            p.config == config,
            p.state == VoiceState::Idle,
            p.last_command is None,
            p.command_history@.len() == 0,
            p.max_history == 50,
            !p.wake_word_active,
            p.recording_start_ms is None,
            p.stt_engine.language@ == config.language@,
    {
        let stt = SpeechToText::new(config.language.as_str());
        VoiceCommandProcessor {
            config,
            state: VoiceState::Idle,
            last_command: None,
            command_history: Vec::new(),
            max_history: 50,
            wake_word_active: false,
            recording_start_ms: None,
            stt_engine: stt,
        }
    }

    /// Starts listening for the wake word.
    pub fn start(&mut self)
        ensures
            final(self).state == VoiceState::Idle,
            final(self).wake_word_active,
            final(self).command_history@ == old(self).command_history@,
            final(self).config == old(self).config,
    {
        self.state = VoiceState::Idle;
        self.wake_word_active = true;
    }

    /// Stops listening.
    pub fn stop(&mut self)
        ensures
            final(self).state == VoiceState::Idle,
            !final(self).wake_word_active,
            final(self).recording_start_ms is None,
            final(self).command_history@ == old(self).command_history@,
            final(self).config == old(self).config,
    {
        self.state = VoiceState::Idle;
        self.wake_word_active = false;
        self.recording_start_ms = None;
    }

    /// Whether a command is being listened for.
    pub fn is_listening(&self) -> (b: bool)
        ensures
            b == (self.state is Listening),
    {
        match self.state {
            VoiceState::Listening { .. } => true,
            _ => false,
        }
    }

    /// Whether speech is being converted.
    pub fn is_processing(&self) -> (b: bool)
        ensures
            b == (self.state is Processing),
    {
        match self.state {
            VoiceState::Processing => true,
            _ => false,
        }
    }

    /// The wake word was heard at `now`: an idle processor listens for a
    /// command.
    pub fn simulate_wake_word(&mut self, now: u64)
        ensures
            old(self).state == VoiceState::Idle ==> final(self).state == (VoiceState::Listening { start_ms: now })
                && final(self).recording_start_ms == Some(now),
            old(self).state != VoiceState::Idle ==> final(self).state == old(self).state
                && final(self).recording_start_ms == old(self).recording_start_ms,
            final(self).command_history@ == old(self).command_history@,
            final(self).config == old(self).config,
    {
        match self.state {
            VoiceState::Idle => {
                self.state = VoiceState::Listening { start_ms: now };
                self.recording_start_ms = Some(now);
            },
            _ => {},
        }
    }

    /// Reads a text as a semantic event with a confidence.
    pub fn parse_command(&self, text: &str) -> (r: (SemanticEvent, u32))
        ensures
            r == parsed(text@, custom_views(self.config.custom_commands@)),
    {
        let lower_s = to_lowercase(text);
        let lower = chars_of(lower_s.as_str());
        let words = split_whitespace(&lower);
        let ghost cs = custom_views(self.config.custom_commands@);
        assert(cs.skip(0) =~= cs);
        let mut i: usize = 0;
        while i < self.config.custom_commands.len()
            invariant
                0 <= i <= self.config.custom_commands@.len(),
                cs == custom_views(self.config.custom_commands@),
                lower@ == lowercased(text@),
                custom_event(lower@, cs) == custom_event(lower@, cs.skip(i as int)),
            decreases self.config.custom_commands@.len() - i,
        {
            let (phrase, action) = (&self.config.custom_commands[i].0, &self.config.custom_commands[i].1);
            let pc = chars_of(phrase.as_str());
            assert(cs.skip(i as int)[0] == (phrase@, action@));
            assert(cs.skip(i as int).drop_first() =~= cs.skip(i + 1));
            if contains(&lower, &pc) {
                match action_to_event_exec(action) {
                    Some(e) => {
                        return (e, 950);
                    },
                    None => {},
                }
            }
            i = i + 1;
        }
        assert(cs.skip(i as int) =~= Seq::<(Seq<char>, Seq<char>)>::empty());
        if matches_any_exec(&lower, &words, &targets_0()) {
            return (SemanticEvent::ZoomIn, 900);
        }
        if matches_any_exec(&lower, &words, &targets_1()) {
            return (SemanticEvent::ZoomOut, 900);
        }
        if matches_any_exec(&lower, &words, &targets_2()) {
            return (SemanticEvent::OpenGlobalOverview, 850);
        }
        if matches_any_exec(&lower, &words, &targets_3()) {
            return (SemanticEvent::ModeCommand, 900);
        }
        if matches_any_exec(&lower, &words, &targets_4()) {
            return (SemanticEvent::ModeDirectory, 900);
        }
        if matches_any_exec(&lower, &words, &targets_5()) {
            return (SemanticEvent::ModeActivity, 900);
        }
        if matches_any_exec(&lower, &words, &targets_6()) {
            return (SemanticEvent::CycleMode, 850);
        }
        if matches_any_exec(&lower, &words, &targets_7()) {
            return (SemanticEvent::TacticalReset, 900);
        }
        if matches_any_exec(&lower, &words, &targets_8()) {
            return (SemanticEvent::ToggleBezel, 850);
        }
        if matches_any_exec(&lower, &words, &targets_9()) {
            return (SemanticEvent::SplitViewport, 850);
        }
        if matches_any_exec(&lower, &words, &targets_10()) {
            return (SemanticEvent::CloseViewport, 850);
        }
        if matches_any_exec(&lower, &words, &targets_11()) {
            return (SemanticEvent::Select, 800);
        }
        if matches_any_exec(&lower, &words, &targets_12()) {
            return (SemanticEvent::NextElement, 800);
        }
        if matches_any_exec(&lower, &words, &targets_13()) {
            return (SemanticEvent::PrevElement, 800);
        }
        if matches_any_exec(&lower, &words, &targets_14()) {
            return (SemanticEvent::ToggleBezel, 700);
        }
        (SemanticEvent::SubmitPrompt, 300)
    }

    fn add_to_history(&mut self, command: VoiceCommand)
        ensures
            final(self).command_history@ == with_history(old(self).command_history@, command, old(self).max_history),
            final(self).config == old(self).config,
            final(self).max_history == old(self).max_history,
            final(self).state == old(self).state,
            final(self).last_command == old(self).last_command,
            final(self).wake_word_active == old(self).wake_word_active,
    {
        self.command_history.push(command);
        if self.command_history.len() > self.max_history {
            self.command_history.remove(0);
        }
        assert(self.command_history@ =~= with_history(old(self).command_history@, command, old(self).max_history));
    }

    /// Records a recognised command: it becomes the last command and joins
    /// the history, and the processor is ready.
    fn record(&mut self, text: &str, event: SemanticEvent, confidence: u32, duration_ms: u64) -> (c: VoiceCommand)
        ensures
            c.raw_text@ == text@ && c.event == event && c.confidence_milli == confidence,
            c.confidence_level == ConfidenceLevel::of_score(confidence),
            c.processing_duration_ms == duration_ms,
            final(self).last_command == Some(c),
            final(self).command_history@ == with_history(old(self).command_history@, c, old(self).max_history),
            final(self).state == VoiceState::Ready,
            final(self).config == old(self).config,
            final(self).max_history == old(self).max_history,
            final(self).wake_word_active == old(self).wake_word_active,
    {
        let command = VoiceCommand {
            raw_text: String::from_str(text),
            event,
            confidence_milli: confidence,
            confidence_level: ConfidenceLevel::from_score(confidence),
            processing_duration_ms: duration_ms,
        };
        let copy = VoiceCommand {
            raw_text: command.raw_text.clone(),
            event,
            confidence_milli: confidence,
            confidence_level: command.confidence_level,
            processing_duration_ms: duration_ms,
        };
        let copy2 = VoiceCommand {
            raw_text: command.raw_text.clone(),
            event,
            confidence_milli: confidence,
            confidence_level: command.confidence_level,
            processing_duration_ms: duration_ms,
        };
        self.last_command = Some(copy);
        self.add_to_history(copy2);
        self.state = VoiceState::Ready;
        command
    }

    /// Processes a text command, taking `duration_ms` to recognise it: the
    /// command is recorded and ready.
    pub fn process_text_timed(&mut self, text: &str, duration_ms: u64) -> (r: Option<VoiceCommand>)
        ensures
            r matches Some(c) && c.raw_text@ == text@ && (c.event, c.confidence_milli) == parsed(
                text@,
                custom_views(old(self).config.custom_commands@),
            ) && c.confidence_level == ConfidenceLevel::of_score(c.confidence_milli)
                && c.processing_duration_ms == duration_ms
                && final(self).last_command == Some(c)
                && final(self).command_history@ == with_history(old(self).command_history@, c, old(self).max_history),
            final(self).state == VoiceState::Ready,
            final(self).config == old(self).config,
            final(self).max_history == old(self).max_history,
            final(self).wake_word_active == old(self).wake_word_active,
    {
        self.state = VoiceState::Processing;
        let (event, confidence) = self.parse_command(text);
        Some(self.record(text, event, confidence, duration_ms))
    }

    /// Processes a text command, timing its recognition.
    pub fn process_text(&mut self, text: &str) -> (r: Option<VoiceCommand>)
        ensures
            r matches Some(c) && c.raw_text@ == text@ && (c.event, c.confidence_milli) == parsed(
                text@,
                custom_views(old(self).config.custom_commands@),
            ) && c.confidence_level == ConfidenceLevel::of_score(c.confidence_milli)
                && final(self).last_command == Some(c)
                && final(self).command_history@ == with_history(old(self).command_history@, c, old(self).max_history),
            final(self).state == VoiceState::Ready,
            final(self).config == old(self).config,
            final(self).max_history == old(self).max_history,
            final(self).wake_word_active == old(self).wake_word_active,
    {
        self.state = VoiceState::Processing;
        let t0 = crate::clock::now_ms();
        let (event, confidence) = self.parse_command(text);
        let t1 = crate::clock::now_ms();
        let d: u64 = if t1 > t0 { (t1 as i128 - t0 as i128) as u64 } else { 0 };
        Some(self.record(text, event, confidence, d))
    }

    /// A command from a transcription with confidence `stt_milli`: the
    /// confidences multiply.
    pub fn create_voice_command(&mut self, text: &str, stt_milli: u32, duration_ms: u64) -> (c: VoiceCommand)
        ensures
            c.raw_text@ == text@,
            c.event == parsed(text@, custom_views(old(self).config.custom_commands@)).0,
            c.confidence_milli == stt_milli as int * parsed(text@, custom_views(old(self).config.custom_commands@)).1 / 1000,
            c.confidence_level == ConfidenceLevel::of_score(c.confidence_milli),
            final(self).last_command == Some(c),
            final(self).command_history@ == with_history(old(self).command_history@, c, old(self).max_history),
            final(self).state == old(self).state,
    {
        let (event, parse_milli) = self.parse_command(text);
        assert(parse_milli <= 950) by {
            assert(parsed(text@, custom_views(self.config.custom_commands@)).1 <= 950);
        }
        let combined_wide: u64 = stt_milli as u64 * parse_milli as u64 / 1000;
        assert(combined_wide <= u32::MAX) by (nonlinear_arith)
            requires combined_wide == stt_milli as u64 * parse_milli as u64 / 1000, parse_milli <= 950, stt_milli <= u32::MAX;
        let combined = combined_wide as u32;
        let level = ConfidenceLevel::from_score(combined);
        let command = VoiceCommand {
            raw_text: String::from_str(text),
            event,
            confidence_milli: combined,
            confidence_level: level,
            processing_duration_ms: duration_ms,
        };
        self.last_command = Some(VoiceCommand {
            raw_text: command.raw_text.clone(),
            event,
            confidence_milli: combined,
            confidence_level: level,
            processing_duration_ms: duration_ms,
        });
        self.add_to_history(VoiceCommand {
            raw_text: command.raw_text.clone(),
            event,
            confidence_milli: combined,
            confidence_level: level,
            processing_duration_ms: duration_ms,
        });
        command
    }

    /// The latest `count` commands, newest first.
    pub fn get_history(&self, count: usize) -> (v: Vec<&VoiceCommand>)
        ensures
            v@.len() == if count < self.command_history@.len() { count as int } else { self.command_history@.len() as int },
            forall|i: int| 0 <= i < v@.len() ==> *v@[i] == self.command_history@[self.command_history@.len() - 1 - i],
    {
        let mut out: Vec<&VoiceCommand> = Vec::new();
        let n = self.command_history.len();
        let mut i: usize = 0;
        while i < n && i < count
            invariant
                0 <= i <= n,
                i <= count,
                n == self.command_history@.len(),
                out@.len() == i,
                forall|j: int| 0 <= j < i ==> *out@[j] == self.command_history@[n - 1 - j],
            decreases n - i,
        {
            out.push(&self.command_history[n - 1 - i]);
            i = i + 1;
        }
        out
    }

    /// Forgets the history.
    pub fn clear_history(&mut self)
        ensures
            final(self).command_history@.len() == 0,
            final(self).state == old(self).state,
    {
        self.command_history = Vec::new();
    }

    /// Executes a command: its event is returned and the processor is idle
    /// again.
    pub fn execute_command(&mut self, command: VoiceCommand) -> (r: Option<SemanticEvent>)
        ensures
            r == Some(command.event),
            final(self).state == VoiceState::Idle,
            final(self).command_history@ == old(self).command_history@,
    {
        self.state = VoiceState::Executing;
        self.state = VoiceState::Idle;
        Some(command.event)
    }

    /// The status line.
    pub fn get_status_text(&self) -> (s: String)
        ensures
            s@ == status_text(self.state, self.wake_word_active, self.config.wake_word@),
    {
        let mut v: Vec<char> = Vec::new();
        match &self.state {
            VoiceState::Idle => {
                if self.wake_word_active {
                    push_str(&mut v, "Listening for \"");
                    push_str(&mut v, self.config.wake_word.as_str());
                    push_str(&mut v, "\"...");
                } else {
                    push_str(&mut v, "Voice commands disabled");
                }
            },
            VoiceState::Listening { .. } => push_str(&mut v, "Listening for command..."),
            VoiceState::Processing => push_str(&mut v, "Processing..."),
            VoiceState::Ready => push_str(&mut v, "Command ready"),
            VoiceState::Executing => push_str(&mut v, "Executing..."),
            VoiceState::Error(e) => {
                push_str(&mut v, "Error: ");
                let m = e.to_string();
                push_str(&mut v, m.as_str());
            },
        }
        assert(v@ =~= status_text(self.state, self.wake_word_active, self.config.wake_word@));
        string_of(&v)
    }

    pub open spec fn indicator(self) -> Seq<char> {
        let (class, icon) = match self.state {
            VoiceState::Idle => ("voice-idle"@, "\u{1f3a4}"@),
            VoiceState::Listening { .. } => ("voice-listening"@, "\u{1f534}"@),
            VoiceState::Processing => ("voice-processing"@, "\u{2699}"@),
            VoiceState::Ready => ("voice-ready"@, "\u{2713}"@),
            VoiceState::Executing => ("voice-executing"@, "\u{25b6}"@),
            VoiceState::Error(_) => ("voice-error"@, "\u{26a0}"@),
        };
        let last = match self.last_command {
            Some(c) => "<div class=\"voice-last-command\">\n                        <span class=\"command-text\">\""@ + c.raw_text@ + "\"</span>\n                        <span class=\"command-confidence\">"@ + crate::text::dec((c.confidence_milli / 10) as nat) + "%</span>\n                    </div>"@,
            None => seq![],
        };
        "<div class=\"voice-indicator "@ + class + "\">\n                <div class=\"voice-icon\">"@ + icon + "</div>\n                <div class=\"voice-status\">"@ + status_text(self.state, self.wake_word_active, self.config.wake_word@)
            + "</div>\n                "@ + last + "\n            </div>"@
    }

    /// The voice status indicator, as HTML.
    pub fn render_indicator(&self) -> (html: String)
        ensures
            html@ == self.indicator(),
    {
        let mut v: Vec<char> = Vec::new();
        push_str(&mut v, "<div class=\"voice-indicator ");
        match self.state {
            VoiceState::Idle => push_str(&mut v, "voice-idle"),
            VoiceState::Listening { .. } => push_str(&mut v, "voice-listening"),
            VoiceState::Processing => push_str(&mut v, "voice-processing"),
            VoiceState::Ready => push_str(&mut v, "voice-ready"),
            VoiceState::Executing => push_str(&mut v, "voice-executing"),
            VoiceState::Error(_) => push_str(&mut v, "voice-error"),
        }
        push_str(&mut v, "\">\n                <div class=\"voice-icon\">");
        match self.state {
            VoiceState::Idle => push_str(&mut v, "\u{1f3a4}"),
            VoiceState::Listening { .. } => push_str(&mut v, "\u{1f534}"),
            VoiceState::Processing => push_str(&mut v, "\u{2699}"),
            VoiceState::Ready => push_str(&mut v, "\u{2713}"),
            VoiceState::Executing => push_str(&mut v, "\u{25b6}"),
            VoiceState::Error(_) => push_str(&mut v, "\u{26a0}"),
        }
        push_str(&mut v, "</div>\n                <div class=\"voice-status\">");
        let status = self.get_status_text();
        push_str(&mut v, status.as_str());
        push_str(&mut v, "</div>\n                ");
        match &self.last_command {
            Some(c) => {
                push_str(&mut v, "<div class=\"voice-last-command\">\n                        <span class=\"command-text\">\"");
                push_str(&mut v, c.raw_text.as_str());
                push_str(&mut v, "\"</span>\n                        <span class=\"command-confidence\">");
                push_u64(&mut v, (c.confidence_milli / 10) as u64);
                push_str(&mut v, "%</span>\n                    </div>");
            },
            None => {},
        }
        push_str(&mut v, "\n            </div>");
        assert(v@ =~= self.indicator());
        string_of(&v)
    }

    /// The list of voice commands, as HTML.
    pub fn render_help(&self) -> (html: String)
        ensures
            html@ == "<div class=\"voice-help\">\n            <h3>Voice Commands</h3>\n            <div class=\"command-category\">\n                <h4>Navigation</h4>\n                <ul>\n                    <li><code>\"zoom in\"</code> or <code>\"enter\"</code> - Zoom deeper</li>\n                    <li><code>\"zoom out\"</code> or <code>\"back\"</code> - Zoom out</li>\n                    <li><code>\"overview\"</code> or <code>\"home\"</code> - Global overview</li>\n                </ul>\n            </div>\n            <div class=\"command-category\">\n                <h4>Modes</h4>\n                <ul>\n                    <li><code>\"command mode\"</code> - Switch to command mode</li>\n                    <li><code>\"directory mode\"</code> - Switch to directory mode</li>\n                    <li><code>\"activity mode\"</code> - Switch to activity mode</li>\n                    <li><code>\"cycle mode\"</code> - Next mode</li>\n                </ul>\n            </div>\n            <div class=\"command-category\">\n                <h4>System</h4>\n                <ul>\n                    <li><code>\"reset\"</code> or <code>\"emergency\"</code> - Tactical reset</li>\n                    <li><code>\"bezel\"</code> or <code>\"menu\"</code> - Toggle bezel</li>\n                    <li><code>\"split\"</code> - Split viewport</li>\n                </ul>\n            </div>\n            <div class=\"voice-wake-word\">\n                Say <strong>\"Computer\"</strong> to activate voice commands\n            </div>\n        </div>"@,
    {
        String::from_str("<div class=\"voice-help\">\n            <h3>Voice Commands</h3>\n            <div class=\"command-category\">\n                <h4>Navigation</h4>\n                <ul>\n                    <li><code>\"zoom in\"</code> or <code>\"enter\"</code> - Zoom deeper</li>\n                    <li><code>\"zoom out\"</code> or <code>\"back\"</code> - Zoom out</li>\n                    <li><code>\"overview\"</code> or <code>\"home\"</code> - Global overview</li>\n                </ul>\n            </div>\n            <div class=\"command-category\">\n                <h4>Modes</h4>\n                <ul>\n                    <li><code>\"command mode\"</code> - Switch to command mode</li>\n                    <li><code>\"directory mode\"</code> - Switch to directory mode</li>\n                    <li><code>\"activity mode\"</code> - Switch to activity mode</li>\n                    <li><code>\"cycle mode\"</code> - Next mode</li>\n                </ul>\n            </div>\n            <div class=\"command-category\">\n                <h4>System</h4>\n                <ul>\n                    <li><code>\"reset\"</code> or <code>\"emergency\"</code> - Tactical reset</li>\n                    <li><code>\"bezel\"</code> or <code>\"menu\"</code> - Toggle bezel</li>\n                    <li><code>\"split\"</code> - Split viewport</li>\n                </ul>\n            </div>\n            <div class=\"voice-wake-word\">\n                Say <strong>\"Computer\"</strong> to activate voice commands\n            </div>\n        </div>")
    }
}

/// The history never grows past its bound.
pub proof fn law_voice_history_bounded(h: Seq<VoiceCommand>, c: VoiceCommand, max: usize)
    requires
        h.len() <= max,
    ensures
        with_history(h, c, max).len() <= max,
{
}

/// A custom command whose phrase the text holds, listed first and naming
/// an event, always wins with a confidence of 0.95.
pub proof fn law_custom_command_wins(text: Seq<char>, cs: Seq<(Seq<char>, Seq<char>)>)
    requires
        cs.len() > 0,
        contains_seq(lowercased(text), cs[0].0),
        action_event(cs[0].1) is Some,
    ensures
        parsed(text, cs) == (action_event(cs[0].1)->0, 950u32),
{
}

/// Confidence levels rise with the score.
pub proof fn law_confidence_monotone(a: u32, b: u32)
    requires
        a <= b,
    ensures
        ConfidenceLevel::of_score(a) == ConfidenceLevel::High ==> ConfidenceLevel::of_score(b) == ConfidenceLevel::High,
        ConfidenceLevel::of_score(a) == ConfidenceLevel::Medium ==> ConfidenceLevel::of_score(b) != ConfidenceLevel::Low,
{
}

/// The phrases that call for each event.
pub open spec fn phrases_of(e: SemanticEvent) -> Seq<Seq<char>> {
    match e {
        SemanticEvent::ZoomIn => seq!["zoom in"@, "closer"@, "deeper"@, "enter"@],
        SemanticEvent::ZoomOut => seq!["zoom out"@, "back"@, "up"@, "higher"@, "exit"@, "away"@],
        SemanticEvent::OpenGlobalOverview => seq!["overview"@, "global"@, "home"@, "show all"@],
        SemanticEvent::ModeCommand => seq!["command"@, "terminal"@, "cli"@],
        SemanticEvent::ModeDirectory => seq!["directory"@, "files"@, "folder"@, "browse"@],
        SemanticEvent::ModeActivity => seq!["activity"@, "processes"@, "apps"@, "running"@],
        SemanticEvent::CycleMode => seq!["next mode"@, "cycle"@, "switch mode"@],
        SemanticEvent::TacticalReset => seq!["reset"@, "emergency"@, "abort"@, "panic"@, "red alert"@],
        SemanticEvent::ToggleBezel => seq!["bezel"@, "controls"@, "menu"@, "options"@] + seq![
            "mini-map"@,
            "map"@,
            "where am i"@,
            "location"@,
        ],
        SemanticEvent::SplitViewport => seq!["split"@, "divide"@, "tile"@, "split view"@],
        SemanticEvent::CloseViewport => seq!["close"@, "exit"@, "quit"@, "kill"@],
        SemanticEvent::Select => seq!["select"@, "choose"@, "open"@, "activate"@],
        SemanticEvent::NextElement => seq!["next"@, "forward"@, "right"@, "down"@],
        SemanticEvent::PrevElement => seq!["previous"@, "back"@, "left"@, "up"@],
        _ => seq![],
    }
}

/// A built-in reading names an event only when the text says one of that
/// event's phrases; otherwise the text is a prompt.
pub proof fn law_voice_event_needs_its_phrase(text: Seq<char>, ws: Seq<Seq<char>>)
    ensures
        builtin_event(text, ws).0 != SemanticEvent::SubmitPrompt ==> matches_any(
            text,
            ws,
            phrases_of(builtin_event(text, ws).0),
        ),
{
    let a = seq!["bezel"@, "controls"@, "menu"@, "options"@];
    let b = seq!["mini-map"@, "map"@, "where am i"@, "location"@];
    let e = builtin_event(text, ws).0;
    if e == SemanticEvent::ToggleBezel {
        if matches_any(text, ws, a) {
            let i = choose|i: int| 0 <= i < a.len() && target_hit(text, ws, a[i]);
            assert((a + b)[i] == a[i]);
        } else {
            assert(matches_any(text, ws, b));
            let i = choose|i: int| 0 <= i < b.len() && target_hit(text, ws, b[i]);
            assert((a + b)[i + 4] == b[i]);
        }
    }
}

/// A text that says a phrase of some event is never read as a prompt.
pub proof fn law_spoken_phrase_is_a_command(text: Seq<char>, ws: Seq<Seq<char>>, e: SemanticEvent)
    requires
        matches_any(text, ws, phrases_of(e)),
    ensures
        builtin_event(text, ws).0 != SemanticEvent::SubmitPrompt,
{
    let a = seq!["bezel"@, "controls"@, "menu"@, "options"@];
    let b = seq!["mini-map"@, "map"@, "where am i"@, "location"@];
    if e == SemanticEvent::ToggleBezel {
        let i = choose|i: int| 0 <= i < (a + b).len() && target_hit(text, ws, (a + b)[i]);
        if i < 4 {
            assert(a[i] == (a + b)[i]);
            assert(matches_any(text, ws, a));
        } else {
            assert(b[i - 4] == (a + b)[i]);
            assert(matches_any(text, ws, b));
        }
    }
}

} // verus!
