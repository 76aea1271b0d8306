//! Sound themes: which sound each earcon plays and how loud, per event
//! and per category, and the manager that switches between themes.
//! Volumes and speeds are thousandths. Reading and writing theme files is
//! left to the caller.
use vstd::prelude::*;
use crate::earcons::{EarconCategory, EarconEvent};
use crate::paths::{join_path, joined_path};
use crate::text::{chars_eq, chars_of, eq_str, push_str, string_of};

verus! {

/// The position of an event among all events.
pub open spec fn event_index(e: EarconEvent) -> int {
    match e {
        EarconEvent::ZoomIn => 0,
        EarconEvent::ZoomOut => 1,
        EarconEvent::LevelChange => 2,
        EarconEvent::FocusChange => 3,
        EarconEvent::SplitViewCreated => 4,
        EarconEvent::SplitViewClosed => 5,
        EarconEvent::CommandAccepted => 6,
        EarconEvent::CommandError => 7,
        EarconEvent::CommandCompleted => 8,
        EarconEvent::DangerousCommandWarning => 9,
        EarconEvent::AutoCompleteSuggestion => 10,
        EarconEvent::Notification => 11,
        EarconEvent::TacticalAlert => 12,
        EarconEvent::BatteryLow => 13,
        EarconEvent::BatteryCritical => 14,
        EarconEvent::PerformanceWarning => 15,
        EarconEvent::UserJoined => 16,
        EarconEvent::UserLeft => 17,
        EarconEvent::CursorShared => 18,
        EarconEvent::FollowingStarted => 19,
        EarconEvent::FollowingEnded => 20,
        EarconEvent::BezelExpand => 21,
        EarconEvent::BezelCollapse => 22,
        EarconEvent::ButtonHover => 23,
        EarconEvent::ModeSwitch => 24,
        EarconEvent::ToggleHiddenFiles => 25,
    }
}

/// The position of a category among all categories.
pub open spec fn category_index(c: EarconCategory) -> int {
    match c {
        EarconCategory::Navigation => 0,
        EarconCategory::CommandFeedback => 1,
        EarconCategory::SystemStatus => 2,
        EarconCategory::Collaboration => 3,
        EarconCategory::BezelUi => 4,
    }
}

/// Every earcon event, in order.
pub open spec fn all_events_spec() -> Seq<EarconEvent> {
    seq![
        EarconEvent::ZoomIn,
        EarconEvent::ZoomOut,
        EarconEvent::LevelChange,
        EarconEvent::FocusChange,
        EarconEvent::SplitViewCreated,
        EarconEvent::SplitViewClosed,
        EarconEvent::CommandAccepted,
        EarconEvent::CommandError,
        EarconEvent::CommandCompleted,
        EarconEvent::DangerousCommandWarning,
        EarconEvent::AutoCompleteSuggestion,
        EarconEvent::Notification,
        EarconEvent::TacticalAlert,
        EarconEvent::BatteryLow,
        EarconEvent::BatteryCritical,
        EarconEvent::PerformanceWarning,
        EarconEvent::UserJoined,
        EarconEvent::UserLeft,
        EarconEvent::CursorShared,
        EarconEvent::FollowingStarted,
        EarconEvent::FollowingEnded,
        EarconEvent::BezelExpand,
        EarconEvent::BezelCollapse,
        EarconEvent::ButtonHover,
        EarconEvent::ModeSwitch,
        EarconEvent::ToggleHiddenFiles
    ]
}

/// Every earcon category, in order.
pub open spec fn all_categories_spec() -> Seq<EarconCategory> {
    seq![
        EarconCategory::Navigation,
        EarconCategory::CommandFeedback,
        EarconCategory::SystemStatus,
        EarconCategory::Collaboration,
        EarconCategory::BezelUi
    ]
}

pub(crate) proof fn lemma_event_slots()
    ensures
        all_events_spec().len() == 26,
        forall|e: EarconEvent| 0 <= #[trigger] event_index(e) < 26 && all_events_spec()[event_index(e)] == e,
        all_categories_spec().len() == 5,
        forall|c: EarconCategory| 0 <= #[trigger] category_index(c) < 5 && all_categories_spec()[category_index(c)] == c,
{
}

pub(crate) fn event_slot(e: EarconEvent) -> (i: usize)
    ensures
        i == event_index(e),
{
    match e {
        EarconEvent::ZoomIn => 0,
        EarconEvent::ZoomOut => 1,
        EarconEvent::LevelChange => 2,
        EarconEvent::FocusChange => 3,
        EarconEvent::SplitViewCreated => 4,
        EarconEvent::SplitViewClosed => 5,
        EarconEvent::CommandAccepted => 6,
        EarconEvent::CommandError => 7,
        EarconEvent::CommandCompleted => 8,
        EarconEvent::DangerousCommandWarning => 9,
        EarconEvent::AutoCompleteSuggestion => 10,
        EarconEvent::Notification => 11,
        EarconEvent::TacticalAlert => 12,
        EarconEvent::BatteryLow => 13,
        EarconEvent::BatteryCritical => 14,
        EarconEvent::PerformanceWarning => 15,
        EarconEvent::UserJoined => 16,
        EarconEvent::UserLeft => 17,
        EarconEvent::CursorShared => 18,
        EarconEvent::FollowingStarted => 19,
        EarconEvent::FollowingEnded => 20,
        EarconEvent::BezelExpand => 21,
        EarconEvent::BezelCollapse => 22,
        EarconEvent::ButtonHover => 23,
        EarconEvent::ModeSwitch => 24,
        EarconEvent::ToggleHiddenFiles => 25,
    }
}

pub(crate) fn category_slot(c: EarconCategory) -> (i: usize)
    ensures
        i == category_index(c),
{
    match c {
        EarconCategory::Navigation => 0,
        EarconCategory::CommandFeedback => 1,
        EarconCategory::SystemStatus => 2,
        EarconCategory::Collaboration => 3,
        EarconCategory::BezelUi => 4,
    }
}

/// Every earcon event, in order.
pub fn all_events() -> (v: Vec<EarconEvent>)
    ensures
        v@ == all_events_spec(),
{
    let mut v: Vec<EarconEvent> = Vec::new();
    v.push(EarconEvent::ZoomIn);
    v.push(EarconEvent::ZoomOut);
    v.push(EarconEvent::LevelChange);
    v.push(EarconEvent::FocusChange);
    v.push(EarconEvent::SplitViewCreated);
    v.push(EarconEvent::SplitViewClosed);
    v.push(EarconEvent::CommandAccepted);
    v.push(EarconEvent::CommandError);
    v.push(EarconEvent::CommandCompleted);
    v.push(EarconEvent::DangerousCommandWarning);
    v.push(EarconEvent::AutoCompleteSuggestion);
    v.push(EarconEvent::Notification);
    v.push(EarconEvent::TacticalAlert);
    v.push(EarconEvent::BatteryLow);
    v.push(EarconEvent::BatteryCritical);
    v.push(EarconEvent::PerformanceWarning);
    v.push(EarconEvent::UserJoined);
    v.push(EarconEvent::UserLeft);
    v.push(EarconEvent::CursorShared);
    v.push(EarconEvent::FollowingStarted);
    v.push(EarconEvent::FollowingEnded);
    v.push(EarconEvent::BezelExpand);
    v.push(EarconEvent::BezelCollapse);
    v.push(EarconEvent::ButtonHover);
    v.push(EarconEvent::ModeSwitch);
    v.push(EarconEvent::ToggleHiddenFiles);
    assert(v@ =~= all_events_spec());
    v
}

/// Every earcon category, in order.
pub fn all_categories() -> (v: Vec<EarconCategory>)
    ensures
        v@ == all_categories_spec(),
{
    let mut v: Vec<EarconCategory> = Vec::new();
    v.push(EarconCategory::Navigation);
    v.push(EarconCategory::CommandFeedback);
    v.push(EarconCategory::SystemStatus);
    v.push(EarconCategory::Collaboration);
    v.push(EarconCategory::BezelUi);
    assert(v@ =~= all_categories_spec());
    v
}

/// Theme metadata
#[derive(Debug, Clone, PartialEq, Eq)]
pub struct ThemeMetadata {
    /// Theme identifier (unique)
    pub id: String,
    /// Display name
    pub name: String,
    pub version: String,
    /// Author/creator
    pub author: String,
    pub description: String,
    pub license: String,
    /// Tags for categorization
    pub tags: Vec<String>,
    /// Minimum TOS version required
    pub min_tos_version: String,
    /// Theme preview sound (for theme browser)
    pub preview_sound: Option<String>,
}

/// The sound of one earcon.
#[derive(Debug, Clone, PartialEq, Eq)]
pub struct SoundDefinition {
    /// Event this sound is for
    pub event: EarconEvent,
    /// Sound file path (relative to theme directory)
    pub file_path: String,
    /// Volume relative to the category, in thousandths
    pub volume_milli: u32,
    /// Playback speed, in thousandths (1000 is normal)
    pub speed_milli: u32,
    /// Whether to loop the sound
    pub loop_sound: bool,
    pub fade_in_ms: u32,
    pub fade_out_ms: u32,
    /// Pitch shift in semitones
    pub pitch_shift: i8,
}

/// The sound an event plays unless a theme says otherwise: its pattern's
/// file at full volume and normal speed.
pub open spec fn is_default_sound(d: SoundDefinition, e: EarconEvent) -> bool {
    &&& d.event == e
    &&& d.file_path@ == e.spec_sound_pattern() + ".wav"@
    &&& d.volume_milli == 1000
    &&& d.speed_milli == 1000
    &&& !d.loop_sound
    &&& d.fade_in_ms == 0
    &&& d.fade_out_ms == 0
    &&& d.pitch_shift == 0
}

impl SoundDefinition {
    /// The default sound of an event.
    pub fn default_for(event: EarconEvent) -> (d: SoundDefinition)
        ensures
            is_default_sound(d, event),
    {
        let mut path: Vec<char> = Vec::new();
        push_str(&mut path, event.sound_pattern());
        push_str(&mut path, ".wav");
        SoundDefinition {
            event,
            file_path: string_of(&path),
            volume_milli: 1000,
            speed_milli: 1000,
            loop_sound: false,
            fade_in_ms: 0,
            fade_out_ms: 0,
            pitch_shift: 0,
        }
    }
}

/// A slot holding the default sound of `e`.
pub open spec fn default_sound_slot(o: Option<SoundDefinition>, e: EarconEvent) -> bool {
    o matches Some(d) && is_default_sound(d, e)
}

/// A slot holding the sound of a file that a check looks for: `entry`
/// names the event and the file's path under `base`.
pub open spec fn heard_file(o: Option<SoundDefinition>, e: EarconEvent, entry: (EarconEvent, String), base: Seq<char>) -> bool {
    o matches Some(d) && d.volume_milli > 0 && entry.0 == e && entry.1@ == joined_path(base, d.file_path@)
}

/// The files a check looks for among the first `n` sounds, in order: each
/// heard sound's event and its file under `base`.
pub open spec fn heard_files(sounds: Seq<Option<SoundDefinition>>, base: Seq<char>, n: int) -> Seq<(EarconEvent, Seq<char>)>
    decreases n,
{
    if n <= 0 {
        seq![]
    } else {
        heard_files(sounds, base, n - 1) + match sounds[n - 1] {
            Some(d) => if d.volume_milli > 0 {
                seq![(all_events_spec()[n - 1], joined_path(base, d.file_path@))]
            } else {
                seq![]
            },
            None => seq![],
        }
    }
}

/// The view of a list of files with their events.
pub open spec fn file_views(v: Seq<(EarconEvent, String)>) -> Seq<(EarconEvent, Seq<char>)> {
    v.map_values(|p: (EarconEvent, String)| (p.0, p.1@))
}

/// `entry` names the file of a sound of `sounds` that is heard.
pub open spec fn listed_file(sounds: Seq<Option<SoundDefinition>>, entry: (EarconEvent, String), base: Seq<char>) -> bool {
    exists|j: int| 0 <= j < sounds.len() && j < 26 && heard_file(#[trigger] sounds[j], all_events_spec()[j], entry, base)
}

/// Settings of one category of earcons.
#[derive(Debug, Clone, PartialEq, Eq)]
pub struct CategorySettings {
    pub category: EarconCategory,
    /// Base volume for the category, in thousandths
    pub base_volume_milli: u32,
    /// Whether sounds in this category use spatial audio
    pub spatial_audio: bool,
    /// Reverb amount, in thousandths
    pub reverb_milli: u32,
    /// Sound filter/effect to apply
    pub filter: Option<String>,
}

/// The settings a category starts with: its default volume, no reverb or
/// filter, and spatial audio for collaboration.
pub open spec fn default_category_slot(o: Option<CategorySettings>, c: EarconCategory) -> bool {
    o matches Some(s) && is_default_category(s, c)
}

pub open spec fn is_default_category(s: CategorySettings, c: EarconCategory) -> bool {
    &&& s.category == c
    &&& s.base_volume_milli == c.spec_default_volume_milli()
    &&& s.spatial_audio == (c == EarconCategory::Collaboration)
    &&& s.reverb_milli == 0
    &&& s.filter is None
}

impl CategorySettings {
    /// The default settings of a category.
    pub fn for_category(category: EarconCategory) -> (s: CategorySettings)
        ensures
            is_default_category(s, category),
    {
        let spatial = match category {
            EarconCategory::Collaboration => true,
            _ => false,
        };
        CategorySettings {
            category,
            base_volume_milli: category.default_volume_milli(),
            spatial_audio: spatial,
            reverb_milli: 0,
            filter: None,
        }
    }

    /// The navigation category's defaults.
    pub fn default() -> (s: CategorySettings)
        ensures
            is_default_category(s, EarconCategory::Navigation),
    {
        Self::for_category(EarconCategory::Navigation)
    }
}

/// Settings of the whole theme.
#[derive(Debug, Clone, Copy, PartialEq, Eq)]
pub struct MasterSettings {
    /// Master volume, in thousandths
    pub master_volume_milli: u32,
    /// Global playback speed, in thousandths
    pub global_speed_milli: u32,
    /// Whether to compress dynamic range
    pub compression: bool,
    /// Maximum polyphony (concurrent sounds)
    pub max_polyphony: usize,
    /// Debounce time between identical sounds (ms)
    pub debounce_ms: u32,
}

impl MasterSettings {
    /// Full volume, normal speed, no compression, eight voices, 50 ms
    /// debounce.
    pub fn default() -> (m: MasterSettings)
        ensures
            m == (MasterSettings {
                master_volume_milli: 1000,
                global_speed_milli: 1000,
                compression: false,
                max_polyphony: 8,
                debounce_ms: 50,
            }),
    {
        MasterSettings { master_volume_milli: 1000, global_speed_milli: 1000, compression: false, max_polyphony: 8, debounce_ms: 50 }
    }
}

/// A sound theme.
#[derive(Debug, Clone)]
pub struct SoundTheme {
    pub metadata: ThemeMetadata,
    /// The sound of each event, at the event's position among all events
    pub sounds: Vec<Option<SoundDefinition>>,
    /// The settings of each category, at the category's position
    pub category_settings: Vec<Option<CategorySettings>>,
    pub master_settings: MasterSettings,
}

/// The sound a theme gives an event, if any.
pub open spec fn sound_of(t: SoundTheme, e: EarconEvent) -> Option<SoundDefinition> {
    if event_index(e) < t.sounds@.len() {
        t.sounds@[event_index(e)]
    } else {
        None
    }
}

/// The settings a theme gives a category, if any.
pub open spec fn category_of(t: SoundTheme, c: EarconCategory) -> Option<CategorySettings> {
    if category_index(c) < t.category_settings@.len() {
        t.category_settings@[category_index(c)]
    } else {
        None
    }
}

/// Every event has its default sound and every category its default
/// settings.
pub open spec fn has_default_sounds(t: SoundTheme) -> bool {
    &&& forall|e: EarconEvent| default_sound_slot(#[trigger] sound_of(t, e), e)
    &&& forall|c: EarconCategory| default_category_slot(#[trigger] category_of(t, c), c)
}

/// The volume an event plays at, in thousandths: the master, category and
/// sound volumes multiplied (a missing one counts as full), at most full.
pub open spec fn volume_of(t: SoundTheme, e: EarconEvent) -> int {
    let m = t.master_settings.master_volume_milli as int;
    let c = match category_of(t, e.spec_category()) {
        Some(s) => s.base_volume_milli as int,
        None => 1000,
    };
    let s = match sound_of(t, e) {
        Some(d) => d.volume_milli as int,
        None => 1000,
    };
    let v = m * c * s / 1_000_000;
    if v > 1000 {
        1000
    } else {
        v
    }
}

/// Errors that can occur with themes.
#[derive(Debug, Clone, PartialEq, Eq)]
pub enum ThemeError {
    /// A sound file the theme names is not there
    MissingSoundFile { event: String, path: String },
    ThemeNotFound(String),
    InvalidTheme(String),
}

impl ThemeError {
    /// The error as text.
    pub fn to_string(&self) -> (s: String)
        ensures
            s@ == match self {
                ThemeError::MissingSoundFile { event, path } => "Missing sound file for "@ + event@ + ": "@ + path@,
                ThemeError::ThemeNotFound(id) => "Theme not found: "@ + id@,
                ThemeError::InvalidTheme(m) => "Invalid theme: "@ + m@,
            },
    {
        let mut v: Vec<char> = Vec::new();
        match self {
            ThemeError::MissingSoundFile { event, path } => {
                push_str(&mut v, "Missing sound file for ");
                push_str(&mut v, event.as_str());
                push_str(&mut v, ": ");
                push_str(&mut v, path.as_str());
            },
            ThemeError::ThemeNotFound(id) => {
                push_str(&mut v, "Theme not found: ");
                push_str(&mut v, id.as_str());
            },
            ThemeError::InvalidTheme(m) => {
                push_str(&mut v, "Invalid theme: ");
                push_str(&mut v, m.as_str());
            },
        }
        string_of(&v)
    }
}

fn strings_of(a: &str, b: &str) -> (v: Vec<String>)
    ensures
        crate::model::string_views(v@) == seq![a@, b@],
{
    let mut v: Vec<String> = Vec::new();
    v.push(String::from_str(a));
    v.push(String::from_str(b));
    assert(crate::model::string_views(v@) =~= seq![a@, b@]);
    v
}

impl SoundTheme {
    /// A theme with every event's default sound and every category's default
    /// settings.
    pub fn new(id: &str, name: &str, author: &str) -> (t: SoundTheme)
        ensures
            t.metadata.id@ == id@,
            t.metadata.name@ == name@,
            t.metadata.version@ == "1.0.0"@,
            t.metadata.author@ == author@,
            t.metadata.description@ == name@ + " sound theme"@,
            t.metadata.license@ == "MIT"@,
            crate::model::string_views(t.metadata.tags@) == seq!["default"@],
            t.metadata.min_tos_version@ == "0.1.0"@,
            t.metadata.preview_sound is None,
            has_default_sounds(t),
            t.master_settings == MasterSettings::default_spec(),
    {
        let mut description: Vec<char> = Vec::new();
        push_str(&mut description, name);
        push_str(&mut description, " sound theme");
        let mut tags: Vec<String> = Vec::new();
        tags.push(String::from_str("default"));
        assert(crate::model::string_views(tags@) =~= seq!["default"@]);
        let metadata = ThemeMetadata {
            id: String::from_str(id),
            name: String::from_str(name),
            version: String::from_str("1.0.0"),
            author: String::from_str(author),
            description: string_of(&description),
            license: String::from_str("MIT"),
            tags,
            min_tos_version: String::from_str("0.1.0"),
            preview_sound: None,
        };
        let events = all_events();
        let mut sounds: Vec<Option<SoundDefinition>> = Vec::new();
        let mut i: usize = 0;
        while i < events.len()
            invariant
                i <= events@.len(),
                events@ == all_events_spec(),
                sounds@.len() == i,
                forall|k: int| 0 <= k < i ==> default_sound_slot(#[trigger] sounds@[k], all_events_spec()[k]),
            decreases events@.len() - i,
        {
            sounds.push(Some(SoundDefinition::default_for(events[i])));
            i = i + 1;
        }
        let cats = all_categories();
        let mut settings: Vec<Option<CategorySettings>> = Vec::new();
        let mut j: usize = 0;
        while j < cats.len()
            invariant
                j <= cats@.len(),
                cats@ == all_categories_spec(),
                settings@.len() == j,
                forall|k: int| 0 <= k < j ==> default_category_slot(#[trigger] settings@[k], all_categories_spec()[k]),
            decreases cats@.len() - j,
        {
            settings.push(Some(CategorySettings::for_category(cats[j])));
            j = j + 1;
        }
        let t = SoundTheme { metadata, sounds, category_settings: settings, master_settings: MasterSettings::default() };
        proof {
            lemma_event_slots();
            assert forall|e: EarconEvent| default_sound_slot(#[trigger] sound_of(t, e), e) by {
                assert(default_sound_slot(t.sounds@[event_index(e)], all_events_spec()[event_index(e)]));
            }
            assert forall|c: EarconCategory| default_category_slot(#[trigger] category_of(t, c), c) by {
                assert(default_category_slot(t.category_settings@[category_index(c)], all_categories_spec()[category_index(c)]));
            }
        }
        t
    }

    /// The sound of an event.
    pub fn get_sound(&self, event: EarconEvent) -> (r: Option<&SoundDefinition>)
        ensures
            match r {
                Some(d) => sound_of(*self, event) == Some(*d),
                None => sound_of(*self, event) is None,
            },
    {
        let i = event_slot(event);
        if i < self.sounds.len() {
            match &self.sounds[i] {
                Some(d) => Some(d),
                None => None,
            }
        } else {
            None
        }
    }

    /// Sets the sound of an event.
    pub fn set_sound(&mut self, event: EarconEvent, sound: SoundDefinition)
        ensures
            sound_of(*final(self), event) == Some(sound),
            forall|e: EarconEvent| e != event ==> sound_of(*final(self), e) == sound_of(*old(self), e),
            final(self).metadata == old(self).metadata,
            final(self).category_settings == old(self).category_settings,
            final(self).master_settings == old(self).master_settings,
    {
        let i = event_slot(event);
        proof {
            lemma_event_slots();
        }
        while self.sounds.len() <= i
            invariant
                i < 26,
                old(self).sounds@.len() <= self.sounds@.len(),
                self.sounds@.len() == old(self).sounds@.len() || self.sounds@.len() <= i + 1,
                forall|k: int| 0 <= k < old(self).sounds@.len() ==> self.sounds@[k] == old(self).sounds@[k],
                forall|k: int| old(self).sounds@.len() <= k < self.sounds@.len() ==> self.sounds@[k] is None,
                self.metadata == old(self).metadata,
                self.category_settings == old(self).category_settings,
                self.master_settings == old(self).master_settings,
            decreases i + 1 - self.sounds@.len(),
        {
            self.sounds.push(None);
        }
        self.sounds.set(i, Some(sound));
        proof {
            assert forall|e: EarconEvent| e != event implies sound_of(*self, e) == sound_of(*old(self), e) by {
                assert(event_index(e) != event_index(event));
            }
        }
    }

    /// The settings of a category.
    pub fn get_category_settings(&self, category: EarconCategory) -> (r: Option<&CategorySettings>)
        ensures
            match r {
                Some(s) => category_of(*self, category) == Some(*s),
                None => category_of(*self, category) is None,
            },
    {
        let i = category_slot(category);
        if i < self.category_settings.len() {
            match &self.category_settings[i] {
                Some(s) => Some(s),
                None => None,
            }
        } else {
            None
        }
    }

    /// The volume an event plays at, in thousandths.
    pub fn calculate_volume(&self, event: EarconEvent) -> (v: u32)
        ensures
            v == volume_of(*self, event),
    {
        let m = self.master_settings.master_volume_milli as u128;
        let c: u128 = match self.get_category_settings(event.category()) {
            Some(s) => s.base_volume_milli as u128,
            None => 1000,
        };
        let s: u128 = match self.get_sound(event) {
            Some(d) => d.volume_milli as u128,
            None => 1000,
        };
        assert(m * c <= 0xffff_ffff * 0xffff_ffff) by (nonlinear_arith)
            requires
                m <= 0xffff_ffff,
                c <= 0xffff_ffff,
        ;
        assert(m * c * s <= 0xffff_ffff * 0xffff_ffff * 0xffff_ffff) by (nonlinear_arith)
            requires
                m * c <= 0xffff_ffff * 0xffff_ffff,
                s <= 0xffff_ffff,
        ;
        let v = m * c * s / 1_000_000;
        if v > 1000 {
            1000
        } else {
            v as u32
        }
    }

    /// The default theme.
    pub fn default_theme() -> (t: SoundTheme)
        ensures
            t.metadata.id@ == "default"@,
            t.metadata.name@ == "Default"@,
            t.metadata.author@ == "TOS Team"@,
            has_default_sounds(t),
            t.master_settings == MasterSettings::default_spec(),
    {
        Self::new("default", "Default", "TOS Team")
    }

    /// The minimal theme: half the master volume, and no hover or mode
    /// switch sounds.
    pub fn minimal_theme() -> (t: SoundTheme)
        ensures
            t.metadata.id@ == "minimal"@,
            t.metadata.description@ == "Minimal sound theme with reduced audio feedback"@,
            crate::model::string_views(t.metadata.tags@) == seq!["minimal"@, "quiet"@],
            t.master_settings.master_volume_milli == 500,
            sound_of(t, EarconEvent::ButtonHover) matches Some(d) && d.volume_milli == 0,
            sound_of(t, EarconEvent::ModeSwitch) matches Some(d) && d.volume_milli == 0,
            forall|e: EarconEvent| e != EarconEvent::ButtonHover && e != EarconEvent::ModeSwitch ==> default_sound_slot(#[trigger] sound_of(t, e), e),
            forall|c: EarconCategory| default_category_slot(#[trigger] category_of(t, c), c),
    {
        let mut theme = Self::new("minimal", "Minimal", "TOS Team");
        let ghost t_new = theme;
        theme.metadata.description = String::from_str("Minimal sound theme with reduced audio feedback");
        theme.metadata.tags = strings_of("minimal", "quiet");
        theme.master_settings.master_volume_milli = 500;
        proof {
            lemma_event_slots();
            assert(default_sound_slot(sound_of(t_new, EarconEvent::ButtonHover), EarconEvent::ButtonHover));
            assert(default_sound_slot(sound_of(t_new, EarconEvent::ModeSwitch), EarconEvent::ModeSwitch));
        }
        let ghost t1 = theme;
        match theme.get_sound(EarconEvent::ButtonHover) {
            Some(d) => {
                let quiet = SoundDefinition { volume_milli: 0, file_path: String::from_str(d.file_path.as_str()), ..*d };
                theme.set_sound(EarconEvent::ButtonHover, quiet);
            },
            None => {},
        }
        match theme.get_sound(EarconEvent::ModeSwitch) {
            Some(d) => {
                let quiet = SoundDefinition { volume_milli: 0, file_path: String::from_str(d.file_path.as_str()), ..*d };
                theme.set_sound(EarconEvent::ModeSwitch, quiet);
            },
            None => {},
        }
        proof {
            assert forall|e: EarconEvent| e != EarconEvent::ButtonHover && e != EarconEvent::ModeSwitch implies default_sound_slot(
                #[trigger] sound_of(theme, e),
                e,
            ) by {
                assert(default_sound_slot(sound_of(t_new, e), e));
                assert(sound_of(t1, e) == sound_of(t_new, e));
            }
            assert forall|c: EarconCategory| default_category_slot(#[trigger] category_of(theme, c), c) by {
                assert(default_category_slot(category_of(t_new, c), c));
            }
        }
        theme
    }

    /// The LCARS theme: every sound from the `lcars` directory.
    pub fn lcars_theme() -> (t: SoundTheme)
        ensures
            t.metadata.id@ == "lcars"@,
            t.metadata.description@ == "Star Trek LCARS-inspired sound theme"@,
            crate::model::string_views(t.metadata.tags@) == seq!["lcars"@, "scifi"@],
            forall|e: EarconEvent| (#[trigger] sound_of(t, e)) matches Some(d) && d.event == e && d.file_path@
                == "lcars/"@ + e.spec_sound_pattern() + ".wav"@ && d.volume_milli == 1000,
    {
        let mut theme = Self::new("lcars", "LCARS", "TOS Team");
        let ghost t_new = theme;
        theme.metadata.description = String::from_str("Star Trek LCARS-inspired sound theme");
        theme.metadata.tags = strings_of("lcars", "scifi");
        let ghost t0 = theme;
        let mut sounds: Vec<Option<SoundDefinition>> = Vec::new();
        let mut i: usize = 0;
        while i < theme.sounds.len()
            invariant
                i <= theme.sounds@.len(),
                theme.sounds@ == t0.sounds@,
                sounds@.len() == i,
                forall|k: int| 0 <= k < i ==> match #[trigger] theme.sounds@[k] {
                    Some(d) => sounds@[k] matches Some(n) && n.event == d.event && n.volume_milli == d.volume_milli
                        && n.file_path@ == "lcars/"@ + d.event.spec_sound_pattern() + ".wav"@,
                    None => sounds@[k] is None,
                },
            decreases theme.sounds@.len() - i,
        {
            match &theme.sounds[i] {
                Some(d) => {
                    let mut p: Vec<char> = Vec::new();
                    push_str(&mut p, "lcars/");
                    push_str(&mut p, d.event.sound_pattern());
                    push_str(&mut p, ".wav");
                    sounds.push(Some(SoundDefinition { file_path: string_of(&p), ..*d }));
                },
                None => {
                    sounds.push(None);
                },
            }
            i = i + 1;
        }
        theme.sounds = sounds;
        proof {
            lemma_event_slots();
            assert forall|e: EarconEvent| (#[trigger] sound_of(theme, e)) matches Some(d) && d.event == e && d.file_path@
                == "lcars/"@ + e.spec_sound_pattern() + ".wav"@ && d.volume_milli == 1000 by {
                assert(default_sound_slot(sound_of(t_new, e), e));
                let k = event_index(e);
                assert(t0.sounds@[k] == t_new.sounds@[k]);
                assert(match t0.sounds@[k] {
                    Some(d) => theme.sounds@[k] matches Some(n) && n.event == d.event && n.volume_milli == d.volume_milli
                        && n.file_path@ == "lcars/"@ + d.event.spec_sound_pattern() + ".wav"@,
                    None => theme.sounds@[k] is None,
                });
            }
        }
        theme
    }

    /// The files a check of the theme looks for under `base`: one for each
    /// sound that is heard, with its event.
    pub fn sound_files(&self, base: &str) -> (v: Vec<(EarconEvent, String)>)
        ensures
            v@.len() <= self.sounds@.len(),
            forall|k: int| 0 <= k < v@.len() ==> listed_file(self.sounds@, #[trigger] v@[k], base@),
            file_views(v@) == heard_files(
                self.sounds@,
                base@,
                if self.sounds@.len() < 26 { self.sounds@.len() as int } else { 26 },
            ),
    {
        let events = all_events();
        let mut v: Vec<(EarconEvent, String)> = Vec::new();
        let n: usize = if self.sounds.len() < events.len() { self.sounds.len() } else { events.len() };
        let mut i: usize = 0;
        while i < n
            invariant
                n <= self.sounds@.len(),
                n <= 26,
                i <= n,
                events@ == all_events_spec(),
                v@.len() <= i,
                forall|k: int| 0 <= k < v@.len() ==> listed_file(self.sounds@, #[trigger] v@[k], base@),
                file_views(v@) == heard_files(self.sounds@, base@, i as int),
            decreases n - i,
        {
            match &self.sounds[i] {
                Some(d) => {
                    if d.volume_milli > 0 {
                        v.push((events[i], join_path(base, d.file_path.as_str())));
                        assert(heard_file(self.sounds@[i as int], all_events_spec()[i as int], v@[v@.len() - 1], base@));
                    }
                },
                None => {},
            }
            assert(file_views(v@) =~= heard_files(self.sounds@, base@, i + 1));
            i = i + 1;
        }
        v
    }
}

impl MasterSettings {
    pub open spec fn default_spec() -> MasterSettings {
        MasterSettings { master_volume_milli: 1000, global_speed_milli: 1000, compression: false, max_polyphony: 8, debounce_ms: 50 }
    }
}

/// A theme with the default sounds and full master volume plays each event
/// at its category's default volume.
pub proof fn law_default_volume(t: SoundTheme, e: EarconEvent)
    requires
        has_default_sounds(t),
        t.master_settings.master_volume_milli == 1000,
    ensures
        volume_of(t, e) == e.spec_category().spec_default_volume_milli(),
{
    assert(default_sound_slot(sound_of(t, e), e));
    assert(default_category_slot(category_of(t, e.spec_category()), e.spec_category()));
    let c = e.spec_category().spec_default_volume_milli() as int;
    assert(1000 * c * 1000 / 1_000_000 == c) by (nonlinear_arith);
}

/// The minimal theme plays no event louder than the default theme.
pub proof fn law_minimal_is_quieter(minimal: SoundTheme, default: SoundTheme, e: EarconEvent)
    requires
        has_default_sounds(default),
        default.master_settings.master_volume_milli == 1000,
        minimal.master_settings.master_volume_milli == 500,
        sound_of(minimal, EarconEvent::ButtonHover) matches Some(d) && d.volume_milli == 0,
        sound_of(minimal, EarconEvent::ModeSwitch) matches Some(d) && d.volume_milli == 0,
        forall|x: EarconEvent| x != EarconEvent::ButtonHover && x != EarconEvent::ModeSwitch ==> default_sound_slot(#[trigger] sound_of(minimal, x), x),
        forall|c: EarconCategory| default_category_slot(#[trigger] category_of(minimal, c), c),
    ensures
        volume_of(minimal, e) <= volume_of(default, e),
{
    law_default_volume(default, e);
    assert(default_category_slot(category_of(minimal, e.spec_category()), e.spec_category()));
    let c = e.spec_category().spec_default_volume_milli() as int;
    if e == EarconEvent::ButtonHover || e == EarconEvent::ModeSwitch {
        assert(500 * c * 0 / 1_000_000 == 0) by (nonlinear_arith);
    } else {
        assert(default_sound_slot(sound_of(minimal, e), e));
        assert(500 * c * 1000 / 1_000_000 <= c) by (nonlinear_arith)
            requires
                0 <= c,
        ;
    }
}

/// The themes by id; a later theme of an id replaces an earlier one.
pub open spec fn themes_map(s: Seq<SoundTheme>) -> Map<Seq<char>, SoundTheme>
    decreases s.len(),
{
    if s.len() == 0 {
        Map::empty()
    } else {
        themes_map(s.drop_last()).insert(s.last().metadata.id@, s.last())
    }
}

/// No two themes share an id.
pub open spec fn ids_distinct(s: Seq<SoundTheme>) -> bool {
    forall|i: int, j: int| 0 <= i < s.len() && 0 <= j < s.len() && i != j ==> s[i].metadata.id@ != s[j].metadata.id@
}

proof fn lemma_themes_map(s: Seq<SoundTheme>)
    requires
        ids_distinct(s),
    ensures
        forall|i: int| 0 <= i < s.len() ==> themes_map(s).dom().contains(#[trigger] s[i].metadata.id@)
            && themes_map(s)[s[i].metadata.id@] == s[i],
        forall|k: Seq<char>| #[trigger] themes_map(s).dom().contains(k) ==> exists|i: int| 0 <= i < s.len()
            && s[i].metadata.id@ == k,
    decreases s.len(),
{
    if s.len() > 0 {
        let t = s.drop_last();
        assert(ids_distinct(t)) by {
            assert forall|i: int, j: int| 0 <= i < t.len() && 0 <= j < t.len() && i != j implies t[i].metadata.id@
                != t[j].metadata.id@ by {
                assert(t[i] == s[i] && t[j] == s[j]);
            }
        }
        lemma_themes_map(t);
        assert forall|i: int| 0 <= i < s.len() implies themes_map(s).dom().contains(#[trigger] s[i].metadata.id@)
            && themes_map(s)[s[i].metadata.id@] == s[i] by {
            if i < s.len() - 1 {
                assert(t[i] == s[i]);
                assert(s[i].metadata.id@ != s[s.len() - 1].metadata.id@);
            }
        }
        assert forall|k: Seq<char>| #[trigger] themes_map(s).dom().contains(k) implies exists|i: int| 0 <= i < s.len()
            && s[i].metadata.id@ == k by {
            if k != s.last().metadata.id@ {
                assert(themes_map(t).dom().contains(k));
                let i = choose|i: int| 0 <= i < t.len() && t[i].metadata.id@ == k;
                assert(s[i] == t[i]);
            } else {
                assert(s[s.len() - 1].metadata.id@ == k);
            }
        }
    }
}

/// The manager of the installed sound themes.
#[derive(Debug)]
pub struct ThemeManager {
    themes: Vec<SoundTheme>,
    active_theme: String,
    search_paths: Vec<String>,
    default_theme: SoundTheme,
}

impl ThemeManager {
    #[verifier::type_invariant]
    spec fn distinct(self) -> bool {
        ids_distinct(self.themes@)
    }

    /// The loaded themes, by id.
    pub closed spec fn themes(self) -> Map<Seq<char>, SoundTheme> {
        themes_map(self.themes@)
    }

    /// The id of the active theme.
    pub closed spec fn active(self) -> Seq<char> {
        self.active_theme@
    }

    /// Where themes are looked for.
    pub closed spec fn paths(self) -> Seq<Seq<char>> {
        crate::model::string_views(self.search_paths@)
    }

    /// How many themes are loaded.
    pub closed spec fn count(self) -> nat {
        self.themes@.len()
    }

    /// The theme used when the active one is not loaded.
    pub closed spec fn fallback(self) -> SoundTheme {
        self.default_theme
    }

    fn index_of(&self, id: &str) -> (r: Option<usize>)
        ensures
            match r {
                Some(i) => i < self.themes@.len() && self.themes@[i as int].metadata.id@ == id@,
                None => forall|i: int| 0 <= i < self.themes@.len() ==> self.themes@[i].metadata.id@ != id@,
            },
    {
        let want = chars_of(id);
        let mut i: usize = 0;
        while i < self.themes.len()
            invariant
                i <= self.themes@.len(),
                want@ == id@,
                forall|j: int| 0 <= j < i ==> self.themes@[j].metadata.id@ != id@,
            decreases self.themes@.len() - i,
        {
            let have = chars_of(self.themes[i].metadata.id.as_str());
            if chars_eq(&have, &want) {
                return Some(i);
            }
            i = i + 1;
        }
        None
    }

    /// A manager holding the default theme, which is active.
    pub fn new() -> (m: ThemeManager)
        ensures
            m.themes().dom() == set!["default"@],
            m.themes()["default"@].metadata.id@ == "default"@,
            has_default_sounds(m.themes()["default"@]),
            m.active() == "default"@,
            m.paths() == Seq::<Seq<char>>::empty(),
            m.fallback().metadata.id@ == "default"@,
            has_default_sounds(m.fallback()),
    {
        let mut themes: Vec<SoundTheme> = Vec::new();
        themes.push(SoundTheme::default_theme());
        let m = ThemeManager {
            themes,
            active_theme: String::from_str("default"),
            search_paths: Vec::new(),
            default_theme: SoundTheme::default_theme(),
        };
        proof {
            reveal_strlit("default");
            assert(m.themes@.drop_last() =~= Seq::<SoundTheme>::empty());
            assert(themes_map(Seq::<SoundTheme>::empty()) == Map::<Seq<char>, SoundTheme>::empty());
            assert(themes_map(m.themes@) == themes_map(m.themes@.drop_last()).insert(m.themes@.last().metadata.id@, m.themes@.last()));
            assert(themes_map(m.themes@) =~= Map::<Seq<char>, SoundTheme>::empty().insert("default"@, m.themes@[0]));
            assert(m.themes().dom() =~= set!["default"@]);
            assert(crate::model::string_views(m.search_paths@) =~= Seq::<Seq<char>>::empty());
        }
        m
    }

    /// Adds a place to look for themes.
    pub fn add_search_path(&mut self, path: &str)
        ensures
            final(self).paths() == old(self).paths().push(path@),
            final(self).themes() == old(self).themes(),
            final(self).active() == old(self).active(),
    {
        proof {
            use_type_invariant(&*self);
        }
        let mut paths: Vec<String> = Vec::new();
        std::mem::swap(&mut paths, &mut self.search_paths);
        paths.push(String::from_str(path));
        self.search_paths = paths;
        assert(crate::model::string_views(self.search_paths@) =~= crate::model::string_views(old(self).search_paths@).push(path@));
    }

    /// Looks for themes in the user's data directory, if there is one, and
    /// in the system's shared directories.
    pub fn set_default_paths(&mut self)
        ensures
            exists|extra: Seq<Seq<char>>| extra.len() <= 1 && final(self).paths() == old(self).paths() + extra + seq![
                "/usr/share/tos/themes"@,
                "/usr/local/share/tos/themes"@,
            ],
            final(self).themes() == old(self).themes(),
            final(self).active() == old(self).active(),
    {
        proof {
            use_type_invariant(&*self);
        }
        let ghost p0 = crate::model::string_views(self.search_paths@);
        let mut paths: Vec<String> = Vec::new();
        std::mem::swap(&mut paths, &mut self.search_paths);
        match crate::clock::data_dir() {
            Some(d) => {
                paths.push(join_path(d.as_str(), "tos/themes"));
            },
            None => {},
        }
        let ghost extra = crate::model::string_views(paths@).skip(p0.len() as int);
        paths.push(String::from_str("/usr/share/tos/themes"));
        paths.push(String::from_str("/usr/local/share/tos/themes"));
        self.search_paths = paths;
        assert(crate::model::string_views(self.search_paths@) =~= p0 + extra + seq![
            "/usr/share/tos/themes"@,
            "/usr/local/share/tos/themes"@,
        ]);
    }

    /// Loads a theme, replacing any of the same id.
    pub fn insert_theme(&mut self, theme: SoundTheme)
        ensures
            final(self).themes() == old(self).themes().insert(theme.metadata.id@, theme),
            final(self).active() == old(self).active(),
            final(self).paths() == old(self).paths(),
            final(self).fallback() == old(self).fallback(),
    {
        proof {
            use_type_invariant(&*self);
        }
        let ghost id = theme.metadata.id@;
        let ghost s0 = self.themes@;
        let mut themes: Vec<SoundTheme> = Vec::new();
        std::mem::swap(&mut themes, &mut self.themes);
        match self.index_of_in(&themes, theme.metadata.id.as_str()) {
            Some(i) => {
                themes.set(i, theme);
            },
            None => {
                themes.push(theme);
            },
        }
        proof {
            assert(ids_distinct(themes@)) by {
                assert forall|a: int, b: int| 0 <= a < themes@.len() && 0 <= b < themes@.len() && a != b implies themes@[a].metadata.id@
                    != themes@[b].metadata.id@ by {
                    if a < s0.len() && b < s0.len() {
                        if themes@[a] != s0[a] || themes@[b] != s0[b] {
                        }
                    }
                }
            }
            lemma_themes_map(s0);
            lemma_themes_map(themes@);
            let n = themes@;
            let target = themes_map(s0).insert(id, theme);
            assert forall|k: Seq<char>| themes_map(n).dom().contains(k) <==> target.dom().contains(k) by {
                if themes_map(n).dom().contains(k) {
                    let j = choose|j: int| 0 <= j < n.len() && n[j].metadata.id@ == k;
                    if k != id {
                        assert(n[j] == s0[j]);
                        assert(themes_map(s0).dom().contains(s0[j].metadata.id@));
                    }
                }
                if target.dom().contains(k) && k != id {
                    let j = choose|j: int| 0 <= j < s0.len() && s0[j].metadata.id@ == k;
                    assert(n[j] == s0[j]);
                    assert(themes_map(n).dom().contains(n[j].metadata.id@));
                }
                if k == id {
                    if n.len() > s0.len() {
                        assert(themes_map(n).dom().contains(n[n.len() - 1].metadata.id@));
                    } else {
                        let i = choose|i: int| 0 <= i < s0.len() && s0[i].metadata.id@ == id;
                        assert(themes_map(n).dom().contains(n[i].metadata.id@));
                    }
                }
            }
            assert forall|k: Seq<char>| themes_map(n).dom().contains(k) implies themes_map(n)[k] == target[k] by {
                let j = choose|j: int| 0 <= j < n.len() && n[j].metadata.id@ == k;
                assert(themes_map(n)[n[j].metadata.id@] == n[j]);
                if k != id {
                    assert(n[j] == s0[j]);
                    assert(themes_map(s0)[s0[j].metadata.id@] == s0[j]);
                }
            }
            assert(themes_map(n) =~= target);
        }
        self.themes = themes;
    }

    fn index_of_in(&self, themes: &Vec<SoundTheme>, id: &str) -> (r: Option<usize>)
        ensures
            match r {
                Some(i) => i < themes@.len() && themes@[i as int].metadata.id@ == id@,
                None => forall|i: int| 0 <= i < themes@.len() ==> themes@[i].metadata.id@ != id@,
            },
    {
        let want = chars_of(id);
        let mut i: usize = 0;
        while i < themes.len()
            invariant
                i <= themes@.len(),
                want@ == id@,
                forall|j: int| 0 <= j < i ==> themes@[j].metadata.id@ != id@,
            decreases themes@.len() - i,
        {
            let have = chars_of(themes[i].metadata.id.as_str());
            if chars_eq(&have, &want) {
                return Some(i);
            }
            i = i + 1;
        }
        None
    }

    /// The theme of an id, if loaded.
    pub fn get_theme(&self, id: &str) -> (r: Option<&SoundTheme>)
        ensures
            match r {
                Some(t) => self.themes().dom().contains(id@) && *t == self.themes()[id@],
                None => !self.themes().dom().contains(id@),
            },
    {
        proof {
            use_type_invariant(self);
            lemma_themes_map(self.themes@);
        }
        match self.index_of(id) {
            Some(i) => Some(&self.themes[i]),
            None => None,
        }
    }

    /// The active theme, or the default one if it is not loaded.
    pub fn active_theme(&self) -> (r: &SoundTheme)
        ensures
            self.themes().dom().contains(self.active()) ==> *r == self.themes()[self.active()],
            !self.themes().dom().contains(self.active()) ==> *r == self.fallback(),
    {
        match self.get_theme(self.active_theme.as_str()) {
            Some(t) => t,
            None => &self.default_theme,
        }
    }

    /// Makes a loaded theme active.
    pub fn switch_theme(&mut self, id: &str) -> (r: Result<(), ThemeError>)
        ensures
            r is Ok <==> old(self).themes().dom().contains(id@),
            r is Ok ==> final(self).active() == id@,
            r matches Err(e) ==> (e matches ThemeError::ThemeNotFound(m) && m@ == id@),
            r is Err ==> final(self).active() == old(self).active(),
            final(self).themes() == old(self).themes(),
            final(self).paths() == old(self).paths(),
            final(self).fallback() == old(self).fallback(),
    {
        proof {
            use_type_invariant(&*self);
        }
        if self.get_theme(id).is_some() {
            self.active_theme = String::from_str(id);
            Ok(())
        } else {
            Err(ThemeError::ThemeNotFound(String::from_str(id)))
        }
    }

    /// The ids of the loaded themes.
    pub fn available_themes(&self) -> (v: Vec<&String>)
        ensures
            forall|k: Seq<char>| self.themes().dom().contains(k) <==> exists|i: int| 0 <= i < v@.len() && (#[trigger] v@[i])@ == k,
            v@.len() == self.count(),
    {
        proof {
            use_type_invariant(self);
            lemma_themes_map(self.themes@);
        }
        let mut v: Vec<&String> = Vec::new();
        let mut i: usize = 0;
        while i < self.themes.len()
            invariant
                i <= self.themes@.len(),
                v@.len() == i,
                forall|j: int| 0 <= j < i ==> (#[trigger] v@[j])@ == self.themes@[j].metadata.id@,
            decreases self.themes@.len() - i,
        {
            v.push(&self.themes[i].metadata.id);
            i = i + 1;
        }
        proof {
            assert forall|k: Seq<char>| self.themes().dom().contains(k) implies exists|i: int| 0 <= i < v@.len()
                && (#[trigger] v@[i])@ == k by {
                let i = choose|i: int| 0 <= i < self.themes@.len() && self.themes@[i].metadata.id@ == k;
                assert(v@[i]@ == k);
            }
            assert forall|k: Seq<char>| (exists|i: int| 0 <= i < v@.len() && (#[trigger] v@[i])@ == k) implies self.themes().dom().contains(k) by {
                let i = choose|i: int| 0 <= i < v@.len() && (#[trigger] v@[i])@ == k;
                assert(self.themes@[i].metadata.id@ == k);
            }
        }
        v
    }

    /// The metadata of the loaded themes.
    pub fn available_themes_with_metadata(&self) -> (v: Vec<&ThemeMetadata>)
        ensures
            v@.len() == self.count(),
            forall|i: int| 0 <= i < v@.len() ==> self.themes().dom().contains((#[trigger] v@[i]).id@)
                && self.themes()[v@[i].id@].metadata == *v@[i],
            forall|k: Seq<char>| #[trigger] self.themes().dom().contains(k) ==> exists|i: int| 0 <= i < v@.len() && v@[i].id@ == k,
    {
        proof {
            use_type_invariant(self);
            lemma_themes_map(self.themes@);
        }
        let mut v: Vec<&ThemeMetadata> = Vec::new();
        let mut i: usize = 0;
        while i < self.themes.len()
            invariant
                i <= self.themes@.len(),
                v@.len() == i,
                forall|j: int| 0 <= j < i ==> *(#[trigger] v@[j]) == self.themes@[j].metadata,
            decreases self.themes@.len() - i,
        {
            v.push(&self.themes[i].metadata);
            i = i + 1;
        }
        proof {
            assert forall|i: int| 0 <= i < v@.len() implies self.themes().dom().contains((#[trigger] v@[i]).id@)
                && self.themes()[v@[i].id@].metadata == *v@[i] by {
                assert(self.themes@[i].metadata.id@ == v@[i].id@);
            }
            assert forall|k: Seq<char>| #[trigger] self.themes().dom().contains(k) implies exists|i: int| 0 <= i < v@.len()
                && v@[i].id@ == k by {
                let i = choose|i: int| 0 <= i < self.themes@.len() && self.themes@[i].metadata.id@ == k;
                assert(v@[i].id@ == k);
            }
        }
        v
    }

    /// Forgets a theme, returning to the default if it was active; the
    /// default theme stays.
    pub fn uninstall_theme(&mut self, id: &str) -> (r: Result<(), ThemeError>)
        ensures
            id@ == "default"@ ==> (r matches Err(ThemeError::InvalidTheme(m)) && m@ == "Cannot uninstall default theme"@),
            id@ == "default"@ ==> final(self).themes() == old(self).themes() && final(self).active() == old(self).active(),
            id@ != "default"@ ==> r is Ok && final(self).themes() == old(self).themes().remove(id@)
                && final(self).active() == (if old(self).active() == id@ { "default"@ } else { old(self).active() }),
            final(self).paths() == old(self).paths(),
            final(self).fallback() == old(self).fallback(),
    {
        proof {
            use_type_invariant(&*self);
        }
        let c = chars_of(id);
        if eq_str(&c, "default") {
            return Err(ThemeError::InvalidTheme(String::from_str("Cannot uninstall default theme")));
        }
        let ghost s0 = self.themes@;
        let mut themes: Vec<SoundTheme> = Vec::new();
        std::mem::swap(&mut themes, &mut self.themes);
        match self.index_of_in(&themes, id) {
            Some(i) => {
                themes.remove(i);
                assert forall|j: int| 0 <= j < themes@.len() implies exists|x: int| 0 <= x < s0.len() && s0[x] == #[trigger] themes@[j] by {
                    if j < i {
                        assert(s0[j] == themes@[j]);
                    } else {
                        assert(s0[j + 1] == themes@[j]);
                    }
                }
                assert forall|x: int| 0 <= x < s0.len() && s0[x].metadata.id@ != id@ implies exists|j: int| 0 <= j < themes@.len() && #[trigger] themes@[j] == s0[x] by {
                    if x < i {
                        assert(themes@[x] == s0[x]);
                    } else {
                        assert(x != i);
                        assert(themes@[x - 1] == s0[x]);
                    }
                }
            },
            None => {},
        }
        proof {
            assert(ids_distinct(themes@)) by {
                assert forall|a: int, b: int| 0 <= a < themes@.len() && 0 <= b < themes@.len() && a != b implies themes@[a].metadata.id@
                    != themes@[b].metadata.id@ by {
                }
            }
            lemma_themes_map(s0);
            lemma_themes_map(themes@);
            let n = themes@;
            let target = themes_map(s0).remove(id@);
            assert forall|k: Seq<char>| themes_map(n).dom().contains(k) <==> target.dom().contains(k) by {
                if themes_map(n).dom().contains(k) {
                    let j = choose|j: int| 0 <= j < n.len() && n[j].metadata.id@ == k;
                    assert(exists|i: int| 0 <= i < s0.len() && s0[i] == n[j]);
                    let i = choose|i: int| 0 <= i < s0.len() && s0[i] == n[j];
                    assert(themes_map(s0).dom().contains(s0[i].metadata.id@));
                }
                if target.dom().contains(k) {
                    let i = choose|i: int| 0 <= i < s0.len() && s0[i].metadata.id@ == k;
                    assert(exists|j: int| 0 <= j < n.len() && n[j] == s0[i]);
                    let j = choose|j: int| 0 <= j < n.len() && n[j] == s0[i];
                    assert(themes_map(n).dom().contains(n[j].metadata.id@));
                }
            }
            assert forall|k: Seq<char>| themes_map(n).dom().contains(k) implies themes_map(n)[k] == target[k] by {
                let j = choose|j: int| 0 <= j < n.len() && n[j].metadata.id@ == k;
                assert(themes_map(n)[n[j].metadata.id@] == n[j]);
                assert(exists|i: int| 0 <= i < s0.len() && s0[i] == n[j]);
                let i = choose|i: int| 0 <= i < s0.len() && s0[i] == n[j];
                assert(themes_map(s0)[s0[i].metadata.id@] == s0[i]);
            }
            assert(themes_map(n) =~= target);
        }
        self.themes = themes;
        let a = chars_of(self.active_theme.as_str());
        if chars_eq(&a, &c) {
            self.active_theme = String::from_str("default");
        }
        Ok(())
    }
}

} // verus!
