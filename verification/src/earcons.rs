//! Earcons: the short sounds that give feedback on navigation, commands,
//! system status, collaboration and bezel interactions.
use vstd::prelude::*;

verus! {

/// Categories of earcons.
#[derive(Debug, Clone, Copy, PartialEq, Eq, Hash, Structural)]
pub enum EarconCategory {
    /// Navigation sounds (zoom, level changes, focus changes)
    Navigation,
    /// Command feedback (accepted, error, dangerous command warning)
    CommandFeedback,
    /// System status (notifications, alerts, battery)
    SystemStatus,
    /// Collaboration events (user join/leave, cursor sharing)
    Collaboration,
    /// Bezel and UI interactions (expand/collapse, button hover, mode switch)
    BezelUi,
}

impl EarconCategory {
    pub open spec fn spec_description(self) -> Seq<char> {
        match self {
            EarconCategory::Navigation => "Navigation sounds"@,
            EarconCategory::CommandFeedback => "Command feedback"@,
            EarconCategory::SystemStatus => "System status alerts"@,
            EarconCategory::Collaboration => "Collaboration events"@,
            EarconCategory::BezelUi => "UI interactions"@,
        }
    }

    pub open spec fn spec_default_volume_milli(self) -> u32 {
        match self {
            EarconCategory::Navigation => 700,
            EarconCategory::CommandFeedback => 800,
            EarconCategory::SystemStatus => 900,
            EarconCategory::Collaboration => 600,
            EarconCategory::BezelUi => 500,
        }
    }

    /// Default volume of the category, in thousandths.
    pub fn default_volume_milli(&self) -> (v: u32)
        ensures
            v == self.spec_default_volume_milli(),
    {
        match self {
            EarconCategory::Navigation => 700,
            EarconCategory::CommandFeedback => 800,
            EarconCategory::SystemStatus => 900,
            EarconCategory::Collaboration => 600,
            EarconCategory::BezelUi => 500,
        }
    }

    /// Description of the category.
    pub fn description(&self) -> (s: &'static str)
        ensures
            s@ == self.spec_description(),
    {
        match self {
            EarconCategory::Navigation => "Navigation sounds",
            EarconCategory::CommandFeedback => "Command feedback",
            EarconCategory::SystemStatus => "System status alerts",
            EarconCategory::Collaboration => "Collaboration events",
            EarconCategory::BezelUi => "UI interactions",
        }
    }
}

/// Specific earcon events.
#[derive(Debug, Clone, Copy, PartialEq, Eq, Hash, Structural)]
pub enum EarconEvent {
    ZoomIn,
    ZoomOut,
    LevelChange,
    FocusChange,
    SplitViewCreated,
    SplitViewClosed,
    CommandAccepted,
    CommandError,
    CommandCompleted,
    DangerousCommandWarning,
    AutoCompleteSuggestion,
    Notification,
    TacticalAlert,
    BatteryLow,
    BatteryCritical,
    PerformanceWarning,
    UserJoined,
    UserLeft,
    CursorShared,
    FollowingStarted,
    FollowingEnded,
    BezelExpand,
    BezelCollapse,
    ButtonHover,
    ModeSwitch,
    ToggleHiddenFiles,
}

impl EarconEvent {
    pub open spec fn spec_category(self) -> EarconCategory {
        match self {
            EarconEvent::ZoomIn | EarconEvent::ZoomOut | EarconEvent::LevelChange
            | EarconEvent::FocusChange | EarconEvent::SplitViewCreated
            | EarconEvent::SplitViewClosed => EarconCategory::Navigation,
            EarconEvent::CommandAccepted | EarconEvent::CommandError
            | EarconEvent::CommandCompleted | EarconEvent::DangerousCommandWarning
            | EarconEvent::AutoCompleteSuggestion => EarconCategory::CommandFeedback,
            EarconEvent::Notification | EarconEvent::TacticalAlert | EarconEvent::BatteryLow
            | EarconEvent::BatteryCritical
            | EarconEvent::PerformanceWarning => EarconCategory::SystemStatus,
            EarconEvent::UserJoined | EarconEvent::UserLeft | EarconEvent::CursorShared
            | EarconEvent::FollowingStarted
            | EarconEvent::FollowingEnded => EarconCategory::Collaboration,
            EarconEvent::BezelExpand | EarconEvent::BezelCollapse | EarconEvent::ButtonHover
            | EarconEvent::ModeSwitch | EarconEvent::ToggleHiddenFiles => EarconCategory::BezelUi,
        }
    }

    /// The category of the event.
    pub fn category(&self) -> (c: EarconCategory)
        ensures
            c == self.spec_category(),
    {
        match self {
            EarconEvent::ZoomIn | EarconEvent::ZoomOut | EarconEvent::LevelChange
            | EarconEvent::FocusChange | EarconEvent::SplitViewCreated
            | EarconEvent::SplitViewClosed => EarconCategory::Navigation,
            EarconEvent::CommandAccepted | EarconEvent::CommandError
            | EarconEvent::CommandCompleted | EarconEvent::DangerousCommandWarning
            | EarconEvent::AutoCompleteSuggestion => EarconCategory::CommandFeedback,
            EarconEvent::Notification | EarconEvent::TacticalAlert | EarconEvent::BatteryLow
            | EarconEvent::BatteryCritical
            | EarconEvent::PerformanceWarning => EarconCategory::SystemStatus,
            EarconEvent::UserJoined | EarconEvent::UserLeft | EarconEvent::CursorShared
            | EarconEvent::FollowingStarted
            | EarconEvent::FollowingEnded => EarconCategory::Collaboration,
            EarconEvent::BezelExpand | EarconEvent::BezelCollapse | EarconEvent::ButtonHover
            | EarconEvent::ModeSwitch | EarconEvent::ToggleHiddenFiles => EarconCategory::BezelUi,
        }
    }

    pub open spec fn spec_priority(self) -> u8 {
        match self {
            EarconEvent::DangerousCommandWarning | EarconEvent::TacticalAlert
            | EarconEvent::BatteryCritical => 10,
            EarconEvent::CommandError | EarconEvent::PerformanceWarning | EarconEvent::BatteryLow
            | EarconEvent::UserJoined | EarconEvent::UserLeft => 8,
            EarconEvent::CommandAccepted | EarconEvent::CommandCompleted
            | EarconEvent::Notification | EarconEvent::ZoomIn | EarconEvent::ZoomOut
            | EarconEvent::LevelChange => 5,
            EarconEvent::ButtonHover | EarconEvent::AutoCompleteSuggestion
            | EarconEvent::FocusChange => 2,
            _ => 1,
        }
    }

    /// The default priority: higher is more important and less likely to be
    /// skipped.
    pub fn priority(&self) -> (p: u8)
        ensures
            p == self.spec_priority(),
    {
        match self {
            EarconEvent::DangerousCommandWarning | EarconEvent::TacticalAlert
            | EarconEvent::BatteryCritical => 10,
            EarconEvent::CommandError | EarconEvent::PerformanceWarning | EarconEvent::BatteryLow
            | EarconEvent::UserJoined | EarconEvent::UserLeft => 8,
            EarconEvent::CommandAccepted | EarconEvent::CommandCompleted
            | EarconEvent::Notification | EarconEvent::ZoomIn | EarconEvent::ZoomOut
            | EarconEvent::LevelChange => 5,
            EarconEvent::ButtonHover | EarconEvent::AutoCompleteSuggestion
            | EarconEvent::FocusChange => 2,
            EarconEvent::BezelExpand | EarconEvent::BezelCollapse | EarconEvent::ModeSwitch
            | EarconEvent::ToggleHiddenFiles | EarconEvent::CursorShared
            | EarconEvent::FollowingStarted | EarconEvent::FollowingEnded
            | EarconEvent::SplitViewCreated | EarconEvent::SplitViewClosed => 1,
        }
    }

    pub open spec fn spec_sound_pattern(self) -> Seq<char> {
        match self {
            EarconEvent::ZoomIn => "ascending_chime"@,
            EarconEvent::ZoomOut => "descending_chime"@,
            EarconEvent::LevelChange => "whoosh_transition"@,
            EarconEvent::FocusChange => "soft_tick"@,
            EarconEvent::SplitViewCreated => "split_chime"@,
            EarconEvent::SplitViewClosed => "merge_chime"@,
            EarconEvent::CommandAccepted => "positive_beep"@,
            EarconEvent::CommandError => "error_buzz"@,
            EarconEvent::CommandCompleted => "success_chime"@,
            EarconEvent::DangerousCommandWarning => "warning_alert"@,
            EarconEvent::AutoCompleteSuggestion => "soft_pop"@,
            EarconEvent::Notification => "notification_ping"@,
            EarconEvent::TacticalAlert => "urgent_alarm"@,
            EarconEvent::BatteryLow => "battery_warning"@,
            EarconEvent::BatteryCritical => "critical_alarm"@,
            EarconEvent::PerformanceWarning => "performance_chirp"@,
            EarconEvent::UserJoined => "door_chime"@,
            EarconEvent::UserLeft => "exit_whoosh"@,
            EarconEvent::CursorShared => "share_ping"@,
            EarconEvent::FollowingStarted => "follow_beep"@,
            EarconEvent::FollowingEnded => "unfollow_beep"@,
            EarconEvent::BezelExpand => "expand_slide"@,
            EarconEvent::BezelCollapse => "collapse_slide"@,
            EarconEvent::ButtonHover => "hover_tick"@,
            EarconEvent::ModeSwitch => "mode_switch"@,
            EarconEvent::ToggleHiddenFiles => "toggle_click"@,
        }
    }

    /// The name of the sound pattern, for documentation and theming.
    pub fn sound_pattern(&self) -> (s: &'static str)
        ensures
            s@ == self.spec_sound_pattern(),
    {
        match self {
            EarconEvent::ZoomIn => "ascending_chime",
            EarconEvent::ZoomOut => "descending_chime",
            EarconEvent::LevelChange => "whoosh_transition",
            EarconEvent::FocusChange => "soft_tick",
            EarconEvent::SplitViewCreated => "split_chime",
            EarconEvent::SplitViewClosed => "merge_chime",
            EarconEvent::CommandAccepted => "positive_beep",
            EarconEvent::CommandError => "error_buzz",
            EarconEvent::CommandCompleted => "success_chime",
            EarconEvent::DangerousCommandWarning => "warning_alert",
            EarconEvent::AutoCompleteSuggestion => "soft_pop",
            EarconEvent::Notification => "notification_ping",
            EarconEvent::TacticalAlert => "urgent_alarm",
            EarconEvent::BatteryLow => "battery_warning",
            EarconEvent::BatteryCritical => "critical_alarm",
            EarconEvent::PerformanceWarning => "performance_chirp",
            EarconEvent::UserJoined => "door_chime",
            EarconEvent::UserLeft => "exit_whoosh",
            EarconEvent::CursorShared => "share_ping",
            EarconEvent::FollowingStarted => "follow_beep",
            EarconEvent::FollowingEnded => "unfollow_beep",
            EarconEvent::BezelExpand => "expand_slide",
            EarconEvent::BezelCollapse => "collapse_slide",
            EarconEvent::ButtonHover => "hover_tick",
            EarconEvent::ModeSwitch => "mode_switch",
            EarconEvent::ToggleHiddenFiles => "toggle_click",
        }
    }
}

/// The lowest priority among the sounds playing (0 when none plays).
pub open spec fn min_priority(active: Seq<EarconEvent>) -> u8
    decreases active.len(),
{
    if active.len() == 0 {
        0
    } else {
        let rest = min_priority(active.drop_last());
        let p = active.last().spec_priority();
        if active.len() == 1 || p < rest {
            p
        } else {
            rest
        }
    }
}

/// Whether a new sound for `event` is played given the sounds playing: when
/// the concurrent limit is reached, it must outrank every playing sound.
pub open spec fn admits(active: Seq<EarconEvent>, max_concurrent: usize, event: EarconEvent) -> bool {
    active.len() < max_concurrent || event.spec_priority() > min_priority(active)
}

/// The concurrency decision of playback.
pub fn admits_sound(active: &Vec<EarconEvent>, max_concurrent: usize, event: EarconEvent) -> (b: bool)
    ensures
        b == admits(active@, max_concurrent, event),
{
    if active.len() < max_concurrent {
        return true;
    }
    let mut min: u8 = 0;
    let mut i: usize = 0;
    while i < active.len()
        invariant
            0 <= i <= active@.len(),
            min == min_priority(active@.take(i as int)),
        decreases active@.len() - i,
    {
        assert(active@.take(i + 1).drop_last() =~= active@.take(i as int));
        let p = active[i].priority();
        if i == 0 || p < min {
            min = p;
        }
        i = i + 1;
    }
    assert(active@.take(i as int) =~= active@);
    event.priority() > min
}

/// The lowest playing priority is the priority of a playing sound, and no
/// playing sound ranks lower.
pub proof fn lemma_min_priority(active: Seq<EarconEvent>)
    requires
        active.len() > 0,
    ensures
        exists|i: int| 0 <= i < active.len() && active[i].spec_priority() == min_priority(active),
        forall|i: int| 0 <= i < active.len() ==> min_priority(active) <= #[trigger] active[i].spec_priority(),
    decreases active.len(),
{
    if active.len() > 1 {
        lemma_min_priority(active.drop_last());
        assert(forall|i: int| 0 <= i < active.len() - 1 ==> active.drop_last()[i] == active[i]);
        let w = choose|i: int| 0 <= i < active.len() - 1 && active.drop_last()[i].spec_priority()
            == min_priority(active.drop_last());
        assert(active[w].spec_priority() == min_priority(active.drop_last()));
        assert(active[active.len() - 1] == active.last());
    } else {
        assert(active[0] == active.last());
    }
}

/// A sound is skipped at the concurrent limit only when every playing sound
/// ranks at least as high; so a sound that outranks all playing sounds is
/// always played.
pub proof fn law_outranking_sound_is_played(active: Seq<EarconEvent>, max_concurrent: usize, event: EarconEvent)
    requires
        active.len() > 0,
        forall|i: int| 0 <= i < active.len() ==> #[trigger] active[i].spec_priority() < event.spec_priority(),
    ensures
        admits(active, max_concurrent, event),
{
    lemma_min_priority(active);
}

/// Every earcon has a sound pattern of its own: two different events never
/// share one, so their default sound files differ.
#[verifier::rlimit(50)]
pub proof fn law_sound_patterns_distinct(a: EarconEvent, b: EarconEvent)
    requires
        a != b,
    ensures
        a.spec_sound_pattern() != b.spec_sound_pattern(),
{
    reveal_strlit("ascending_chime");
    reveal_strlit("descending_chime");
    reveal_strlit("whoosh_transition");
    reveal_strlit("soft_tick");
    reveal_strlit("split_chime");
    reveal_strlit("merge_chime");
    reveal_strlit("positive_beep");
    reveal_strlit("error_buzz");
    reveal_strlit("success_chime");
    reveal_strlit("warning_alert");
    reveal_strlit("soft_pop");
    reveal_strlit("notification_ping");
    reveal_strlit("urgent_alarm");
    reveal_strlit("battery_warning");
    reveal_strlit("critical_alarm");
    reveal_strlit("performance_chirp");
    reveal_strlit("door_chime");
    reveal_strlit("exit_whoosh");
    reveal_strlit("share_ping");
    reveal_strlit("follow_beep");
    reveal_strlit("unfollow_beep");
    reveal_strlit("expand_slide");
    reveal_strlit("collapse_slide");
    reveal_strlit("hover_tick");
    reveal_strlit("mode_switch");
    reveal_strlit("toggle_click");
    let pa = a.spec_sound_pattern();
    let pb = b.spec_sound_pattern();
    if pa == pb {
        assert(pa.len() == pb.len() && pa[0] == pb[0] && pa[1] == pb[1]);
    }
}

} // verus!
