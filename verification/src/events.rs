//! Semantic input events: what a key, button or voice command means to the
//! compositor, independent of the device that produced it.
use vstd::prelude::*;

verus! {

/// A semantic input event.
#[derive(Debug, Clone, Copy, PartialEq, Eq, Structural)]
pub enum SemanticEvent {
    ZoomIn,
    ZoomOut,
    NextElement,
    PrevElement,
    NextViewport,
    Select,
    SecondarySelect,
    MultiSelectToggle,
    CycleMode,
    ModeCommand,
    ModeDirectory,
    ModeActivity,
    ModeSearch,
    ModeAi,
    ToggleHiddenFiles,
    ToggleBezel,
    SplitViewport,
    CloseViewport,
    /// Level 1: sector reset
    TacticalReset,
    /// Level 2: system reset dialog
    SystemReset,
    OpenGlobalOverview,
    SubmitPrompt,
    HistoryPrev,
    HistoryNext,
    VoiceCommandStart,
    AiSubmit,
    AiStop,
    AiModeToggle,
    RaiseHand,
    StopOperation,
    ToggleMiniMap,
    ToggleComms,
}

} // verus!
