//! Advanced input devices: game controllers, VR/AR controllers, hand and eye
//! tracking and accessibility switches, their mappings to semantic actions,
//! and the resolution of conflicts between devices.
//!
//! Analog quantities (thresholds, dead zones) are kept in thousandths.
use vstd::prelude::*;
use crate::text::{push_str, push_u64, string_of, dec};

verus! {

/// Kinds of advanced input device.
#[derive(Debug, Clone, Copy, PartialEq, Eq, Hash, Structural)]
pub enum InputDeviceType {
    /// Game controller (gamepad/joystick)
    GameController,
    /// VR headset controller (left/right)
    VRController,
    /// AR controller or hand tracking
    ARController,
    /// Hand tracking (camera-based)
    HandTracking,
    /// Eye tracking (gaze-based)
    EyeTracking,
    /// Accessibility switches
    AccessibilitySwitch,
}

impl InputDeviceType {
    pub open spec fn spec_display_name(self) -> Seq<char> {
        match self {
            InputDeviceType::GameController => "Game Controller"@,
            InputDeviceType::VRController => "VR Controller"@,
            InputDeviceType::ARController => "AR Controller"@,
            InputDeviceType::HandTracking => "Hand Tracking"@,
            InputDeviceType::EyeTracking => "Eye Tracking"@,
            InputDeviceType::AccessibilitySwitch => "Accessibility Switch"@,
        }
    }

    /// Human-readable name of the device type.
    pub fn display_name(&self) -> (s: &'static str)
        ensures
            s@ == self.spec_display_name(),
    {
        match self {
            InputDeviceType::GameController => "Game Controller",
            InputDeviceType::VRController => "VR Controller",
            InputDeviceType::ARController => "AR Controller",
            InputDeviceType::HandTracking => "Hand Tracking",
            InputDeviceType::EyeTracking => "Eye Tracking",
            InputDeviceType::AccessibilitySwitch => "Accessibility Switch",
        }
    }

    pub open spec fn spec_supports_haptics(self) -> bool {
        self == InputDeviceType::GameController || self == InputDeviceType::VRController || self
            == InputDeviceType::ARController
    }

    /// Whether the device type gives haptic feedback.
    pub fn supports_haptics(&self) -> (b: bool)
        ensures
            b == self.spec_supports_haptics(),
    {
        match self {
            InputDeviceType::GameController | InputDeviceType::VRController
            | InputDeviceType::ARController => true,
            _ => false,
        }
    }

    pub open spec fn spec_is_spatial(self) -> bool {
        self == InputDeviceType::VRController || self == InputDeviceType::ARController || self
            == InputDeviceType::HandTracking || self == InputDeviceType::EyeTracking
    }

    /// Whether the device type provides spatial data.
    pub fn is_spatial(&self) -> (b: bool)
        ensures
            b == self.spec_is_spatial(),
    {
        match self {
            InputDeviceType::VRController | InputDeviceType::ARController
            | InputDeviceType::HandTracking | InputDeviceType::EyeTracking => true,
            _ => false,
        }
    }
}

/// Identifier of one input device.
#[derive(Debug, Clone, PartialEq, Eq, Hash)]
pub struct DeviceId {
    /// Device type
    pub device_type: InputDeviceType,
    /// Instance index (for multiple devices of same type)
    pub instance: u32,
    /// Hardware identifier (if available)
    pub hardware_id: Option<String>,
}

impl DeviceId {
    pub open spec fn spec_display_name(self) -> Seq<char> {
        self.device_type.spec_display_name() + " #"@ + dec(self.instance as nat) + match self.hardware_id {
            Some(hw) => " ("@ + hw@ + ")"@,
            None => seq![],
        }
    }

    /// A device of the given type and instance, without hardware id.
    pub fn new(device_type: InputDeviceType, instance: u32) -> (d: DeviceId)
        ensures
            d == (DeviceId { device_type, instance, hardware_id: None }),
    {
        DeviceId { device_type, instance, hardware_id: None }
    }

    /// A device with a hardware id.
    pub fn with_hardware_id(device_type: InputDeviceType, instance: u32, hardware_id: String) -> (d: DeviceId)
        ensures
            d == (DeviceId { device_type, instance, hardware_id: Some(hardware_id) }),
    {
        DeviceId { device_type, instance, hardware_id: Some(hardware_id) }
    }

    /// `"<type> #<instance>"`, followed by `" (<hardware id>)"` when known.
    pub fn display_name(&self) -> (s: String)
        ensures
            s@ == self.spec_display_name(),
    {
        let mut out: Vec<char> = Vec::new();
        push_str(&mut out, self.device_type.display_name());
        push_str(&mut out, " #");
        push_u64(&mut out, self.instance as u64);
        match &self.hardware_id {
            Some(hw) => {
                push_str(&mut out, " (");
                push_str(&mut out, hw.as_str());
                push_str(&mut out, ")");
            },
            None => {},
        }
        assert(out@ =~= self.spec_display_name());
        string_of(&out)
    }

    /// Same type, instance and hardware id.
    pub open spec fn same_as(self, other: DeviceId) -> bool {
        self.device_type == other.device_type && self.instance == other.instance
            && crate::shell_api::opt_view(self.hardware_id) == crate::shell_api::opt_view(other.hardware_id)
    }

    /// A copy of the identifier.
    pub fn duplicate(&self) -> (d: DeviceId)
        ensures
            d == *self,
    {
        DeviceId {
            device_type: self.device_type,
            instance: self.instance,
            hardware_id: match &self.hardware_id {
                Some(h) => Some(h.clone()),
                None => None,
            },
        }
    }

    /// Whether two identifiers name the same device.
    pub fn same(&self, other: &DeviceId) -> (b: bool)
        ensures
            b == self.same_as(*other),
    {
        if self.device_type != other.device_type || self.instance != other.instance {
            return false;
        }
        match (&self.hardware_id, &other.hardware_id) {
            (Some(a), Some(b)) => {
                *a == *b
            },
            (None, None) => true,
            _ => false,
        }
    }
}

/// D-pad directional state.
#[derive(Debug, Clone, Copy, Default, PartialEq, Eq)]
pub struct DPadState {
    pub up: bool,
    pub down: bool,
    pub left: bool,
    pub right: bool,
}

/// Handedness of a tracked hand.
#[derive(Debug, Clone, Copy, PartialEq, Eq, Default)]
pub enum Handedness {
    #[default]
    Unknown,
    Left,
    Right,
}

/// Hand gestures.
#[derive(Debug, Clone, Copy, PartialEq, Eq, Hash, Structural)]
pub enum HandGesture {
    /// Pinch (thumb and index finger together)
    Pinch,
    /// Grab (all fingers curled)
    Grab,
    /// Open palm (all fingers extended)
    OpenPalm,
    /// Point (index extended, others curled)
    Point,
    /// Two-hand spread (both hands moving apart)
    TwoHandSpread,
    /// Thumbs up
    ThumbsUp,
    /// Peace sign
    PeaceSign,
    /// Fist
    Fist,
}

/// Blink patterns for input.
#[derive(Debug, Clone, Copy, PartialEq, Eq, Hash)]
pub enum BlinkPattern {
    SingleBlink,
    DoubleBlink,
    ExtendedBlink,
    WinkLeft,
    WinkRight,
}

/// Accessibility switch state.
#[derive(Debug, Clone, Copy, Default, PartialEq, Eq)]
pub struct SwitchState {
    /// Switch is pressed
    pub pressed: bool,
    /// Time since last press, in milliseconds
    pub time_since_last_press_ms: u64,
    /// Number of rapid presses (for multi-switch patterns)
    pub rapid_press_count: u32,
}

/// Semantic actions that advanced input can trigger.
#[derive(Debug, Clone, Copy, PartialEq, Eq, Hash)]
pub enum SemanticAction {
    ZoomIn,
    ZoomOut,
    PanLeft,
    PanRight,
    PanUp,
    PanDown,
    RotateLeft,
    RotateRight,
    NextElement,
    PreviousElement,
    Select,
    SecondarySelect,
    MultiSelectToggle,
    Grab,
    Release,
    ToggleBezel,
    OpenMenu,
    GoBack,
    TacticalReset,
    CycleMode,
    SetModeCommand,
    SetModeDirectory,
    SetModeActivity,
    CursorMove,
    TextDelete,
    TextAccept,
}

/// Strategy when several devices give input.
#[derive(Debug, Clone, Copy, PartialEq, Eq, Structural)]
pub enum ConflictResolution {
    /// Last device wins
    LastWins,
    /// First device wins
    FirstWins,
    /// Average all inputs
    Average,
    /// Priority-based (certain device types have priority)
    PriorityBased,
    /// Require confirmation from multiple devices
    MultiConfirm,
}


/// An analog axis mapped to an action; threshold and dead zone are in
/// thousandths of full deflection.
#[derive(Debug, Clone, PartialEq, Eq)]
pub struct AxisMapping {
    pub axis: String,
    pub action: SemanticAction,
    pub threshold_milli: u32,
    pub absolute: bool,
    pub deadzone_milli: u32,
}

/// The mapping of one device type's controls to actions.
#[derive(Debug, Clone, PartialEq, Eq)]
pub struct InputMapping {
    pub device_type: InputDeviceType,
    pub button_mappings: Vec<(String, SemanticAction)>,
    pub axis_mappings: Vec<AxisMapping>,
    pub gesture_mappings: Vec<(HandGesture, SemanticAction)>,
    /// Eye tracking dwell time for selection (ms)
    pub dwell_select_ms: u32,
    pub dwell_enabled: bool,
}

pub struct AxisView {
    pub axis: Seq<char>,
    pub action: SemanticAction,
    pub threshold_milli: u32,
    pub absolute: bool,
    pub deadzone_milli: u32,
}

pub struct MappingView {
    pub device_type: InputDeviceType,
    pub buttons: Seq<(Seq<char>, SemanticAction)>,
    pub axes: Seq<AxisView>,
    pub gestures: Seq<(HandGesture, SemanticAction)>,
    pub dwell_select_ms: u32,
    pub dwell_enabled: bool,
}

impl View for InputMapping {
    type V = MappingView;

    open spec fn view(&self) -> MappingView {
        MappingView {
            device_type: self.device_type,
            buttons: self.button_mappings@.map_values(|b: (String, SemanticAction)| (b.0@, b.1)),
            axes: self.axis_mappings@.map_values(
                |a: AxisMapping|
                    AxisView {
                        axis: a.axis@,
                        action: a.action,
                        threshold_milli: a.threshold_milli,
                        absolute: a.absolute,
                        deadzone_milli: a.deadzone_milli,
                    },
            ),
            gestures: self.gesture_mappings@,
            dwell_select_ms: self.dwell_select_ms,
            dwell_enabled: self.dwell_enabled,
        }
    }
}

pub open spec fn axis(name: Seq<char>, action: SemanticAction, threshold: u32, deadzone: u32) -> AxisView {
    AxisView { axis: name, action, threshold_milli: threshold, absolute: false, deadzone_milli: deadzone }
}

/// The default mappings: game controller, VR controller, hand tracking and
/// eye tracking.
pub open spec fn default_mappings() -> Seq<MappingView> {
    seq![
        MappingView {
            device_type: InputDeviceType::GameController,
            buttons: seq![
                ("A"@, SemanticAction::Select),
                ("B"@, SemanticAction::GoBack),
                ("X"@, SemanticAction::ToggleBezel),
                ("Y"@, SemanticAction::OpenMenu),
                ("Start"@, SemanticAction::TacticalReset),
                ("LB"@, SemanticAction::ZoomOut),
                ("RB"@, SemanticAction::ZoomIn),
            ],
            axes: seq![
                axis("LeftStickX"@, SemanticAction::PanLeft, 500, 150),
                axis("LeftStickY"@, SemanticAction::PanUp, 500, 150),
                axis("RightStickX"@, SemanticAction::RotateLeft, 500, 150),
                axis("DPadX"@, SemanticAction::NextElement, 500, 0),
            ],
            gestures: seq![],
            dwell_select_ms: 1000,
            dwell_enabled: false,
        },
        MappingView {
            device_type: InputDeviceType::VRController,
            buttons: seq![
                ("Trigger"@, SemanticAction::Select),
                ("Grip"@, SemanticAction::Grab),
                ("Primary"@, SemanticAction::ToggleBezel),
                ("Secondary"@, SemanticAction::GoBack),
                ("Menu"@, SemanticAction::OpenMenu),
            ],
            axes: seq![
                axis("ThumbstickX"@, SemanticAction::PanLeft, 400, 200),
                axis("ThumbstickY"@, SemanticAction::PanUp, 400, 200),
            ],
            gestures: seq![],
            dwell_select_ms: 0,
            dwell_enabled: false,
        },
        MappingView {
            device_type: InputDeviceType::HandTracking,
            buttons: seq![],
            axes: seq![],
            gestures: seq![
                (HandGesture::Pinch, SemanticAction::Select),
                (HandGesture::Grab, SemanticAction::Grab),
                (HandGesture::OpenPalm, SemanticAction::Release),
                (HandGesture::Point, SemanticAction::CursorMove),
            ],
            dwell_select_ms: 0,
            dwell_enabled: false,
        },
        MappingView {
            device_type: InputDeviceType::EyeTracking,
            buttons: seq![("Blink"@, SemanticAction::Select), ("DoubleBlink"@, SemanticAction::GoBack)],
            axes: seq![],
            gestures: seq![],
            dwell_select_ms: 1500,
            dwell_enabled: true,
        },
    ]
}

fn button(name: &str, action: SemanticAction) -> (b: (String, SemanticAction))
    ensures
        b.0@ == name@,
        b.1 == action,
{
    (String::from_str(name), action)
}

fn mk_axis(name: &str, action: SemanticAction, threshold: u32, deadzone: u32) -> (a: AxisMapping)
    ensures
        a.axis@ == name@,
        a.action == action,
        a.threshold_milli == threshold,
        !a.absolute,
        a.deadzone_milli == deadzone,
{
    AxisMapping { axis: String::from_str(name), action, threshold_milli: threshold, absolute: false, deadzone_milli: deadzone }
}

fn default_mapping_list() -> (v: Vec<InputMapping>)
    ensures
        v@.map_values(|m: InputMapping| m@) == default_mappings(),
{
    let mut gb: Vec<(String, SemanticAction)> = Vec::new();
    gb.push(button("A", SemanticAction::Select));
    gb.push(button("B", SemanticAction::GoBack));
    gb.push(button("X", SemanticAction::ToggleBezel));
    gb.push(button("Y", SemanticAction::OpenMenu));
    gb.push(button("Start", SemanticAction::TacticalReset));
    gb.push(button("LB", SemanticAction::ZoomOut));
    gb.push(button("RB", SemanticAction::ZoomIn));
    let mut ga: Vec<AxisMapping> = Vec::new();
    ga.push(mk_axis("LeftStickX", SemanticAction::PanLeft, 500, 150));
    ga.push(mk_axis("LeftStickY", SemanticAction::PanUp, 500, 150));
    ga.push(mk_axis("RightStickX", SemanticAction::RotateLeft, 500, 150));
    ga.push(mk_axis("DPadX", SemanticAction::NextElement, 500, 0));
    let gamepad = InputMapping {
        device_type: InputDeviceType::GameController,
        button_mappings: gb,
        axis_mappings: ga,
        gesture_mappings: Vec::new(),
        dwell_select_ms: 1000,
        dwell_enabled: false,
    };
    let mut vb: Vec<(String, SemanticAction)> = Vec::new();
    vb.push(button("Trigger", SemanticAction::Select));
    vb.push(button("Grip", SemanticAction::Grab));
    vb.push(button("Primary", SemanticAction::ToggleBezel));
    vb.push(button("Secondary", SemanticAction::GoBack));
    vb.push(button("Menu", SemanticAction::OpenMenu));
    let mut va: Vec<AxisMapping> = Vec::new();
    va.push(mk_axis("ThumbstickX", SemanticAction::PanLeft, 400, 200));
    va.push(mk_axis("ThumbstickY", SemanticAction::PanUp, 400, 200));
    let vr = InputMapping {
        device_type: InputDeviceType::VRController,
        button_mappings: vb,
        axis_mappings: va,
        gesture_mappings: Vec::new(),
        dwell_select_ms: 0,
        dwell_enabled: false,
    };
    let mut hg: Vec<(HandGesture, SemanticAction)> = Vec::new();
    hg.push((HandGesture::Pinch, SemanticAction::Select));
    hg.push((HandGesture::Grab, SemanticAction::Grab));
    hg.push((HandGesture::OpenPalm, SemanticAction::Release));
    hg.push((HandGesture::Point, SemanticAction::CursorMove));
    let hand = InputMapping {
        device_type: InputDeviceType::HandTracking,
        button_mappings: Vec::new(),
        axis_mappings: Vec::new(),
        gesture_mappings: hg,
        dwell_select_ms: 0,
        dwell_enabled: false,
    };
    let mut eb: Vec<(String, SemanticAction)> = Vec::new();
    eb.push(button("Blink", SemanticAction::Select));
    eb.push(button("DoubleBlink", SemanticAction::GoBack));
    let eye = InputMapping {
        device_type: InputDeviceType::EyeTracking,
        button_mappings: eb,
        axis_mappings: Vec::new(),
        gesture_mappings: Vec::new(),
        dwell_select_ms: 1500,
        dwell_enabled: true,
    };
    assert(gamepad@.buttons =~= default_mappings()[0].buttons);
    assert(gamepad@.axes =~= default_mappings()[0].axes);
    assert(gamepad@.gestures =~= default_mappings()[0].gestures);
    assert(gamepad@ =~= default_mappings()[0]);
    assert(vr@.buttons =~= default_mappings()[1].buttons);
    assert(vr@.axes =~= default_mappings()[1].axes);
    assert(vr@.gestures =~= default_mappings()[1].gestures);
    assert(vr@ =~= default_mappings()[1]);
    assert(hand@.buttons =~= default_mappings()[2].buttons);
    assert(hand@.axes =~= default_mappings()[2].axes);
    assert(hand@.gestures =~= default_mappings()[2].gestures);
    assert(hand@ =~= default_mappings()[2]);
    assert(eye@.buttons =~= default_mappings()[3].buttons);
    assert(eye@.axes =~= default_mappings()[3].axes);
    assert(eye@.gestures =~= default_mappings()[3].gestures);
    assert(eye@ =~= default_mappings()[3]);
    let mut v: Vec<InputMapping> = Vec::new();
    v.push(gamepad);
    v.push(vr);
    v.push(hand);
    v.push(eye);
    assert(v@.map_values(|m: InputMapping| m@) =~= default_mappings());
    v
}


/// Device priority for priority-based resolution: a lower number wins.
pub open spec fn priority_of(t: InputDeviceType) -> u8 {
    match t {
        InputDeviceType::AccessibilitySwitch => 1,
        InputDeviceType::GameController => 2,
        InputDeviceType::VRController => 3,
        InputDeviceType::HandTracking => 4,
        InputDeviceType::EyeTracking => 5,
        InputDeviceType::ARController => 6,
    }
}

/// The priority of a device type.
pub fn device_priority(t: InputDeviceType) -> (p: u8)
    ensures
        p == priority_of(t),
{
    match t {
        InputDeviceType::AccessibilitySwitch => 1,
        InputDeviceType::GameController => 2,
        InputDeviceType::VRController => 3,
        InputDeviceType::HandTracking => 4,
        InputDeviceType::EyeTracking => 5,
        InputDeviceType::ARController => 6,
    }
}

/// A connected device.
#[derive(Debug, Clone, PartialEq, Eq)]
pub struct DeviceState {
    pub device: DeviceId,
    pub connected: bool,
    /// Time of the last input, in milliseconds
    pub last_activity_ms: i64,
    pub haptic_enabled: bool,
}

/// What a game controller reports that input acts on. Triggers are
/// thousandths of their travel.
#[derive(Debug, Clone, Copy, PartialEq, Eq)]
pub struct ControllerState {
    pub left_trigger_milli: u32,
    pub right_trigger_milli: u32,
    pub dpad_up: bool,
    pub dpad_down: bool,
    pub dpad_left: bool,
    pub dpad_right: bool,
    /// The A, B, X and Y buttons (or their equivalents)
    pub face_buttons: [bool; 4],
}

/// What a VR controller reports that input acts on, in thousandths:
/// trigger and grip pressure, and the thumbstick's vertical position
/// (-1000 down to 1000 up).
#[derive(Debug, Clone, Copy, PartialEq, Eq)]
pub struct VrState {
    pub trigger_milli: u32,
    pub grip_milli: u32,
    pub thumbstick_y_milli: i32,
}

/// What hand tracking reports that input acts on: the hand, its detected
/// gestures, and the tips of thumb and index finger (in thousandths of a
/// metre).
#[derive(Debug, Clone, PartialEq, Eq)]
pub struct HandState {
    pub hand: Handedness,
    pub gestures: Vec<HandGesture>,
    pub thumb_tip: Point3,
    pub index_tip: Point3,
}

/// A point in space, in thousandths of a metre.
#[derive(Debug, Clone, Copy, PartialEq, Eq)]
pub struct Point3 {
    pub x: i32,
    pub y: i32,
    pub z: i32,
}

/// A point on the screen, in thousandths of its extent.
#[derive(Debug, Clone, Copy, PartialEq, Eq)]
pub struct ScreenPoint {
    pub x: i32,
    pub y: i32,
}

/// What eye tracking reports that input acts on: whether the eyes are
/// tracked, the gaze point (thousandths of the screen, -1000 to 1000) and
/// the blink patterns seen.
#[derive(Debug, Clone, PartialEq, Eq)]
pub struct EyeState {
    pub is_tracking: bool,
    pub gaze_x_milli: i32,
    pub gaze_y_milli: i32,
    pub blink_patterns: Vec<BlinkPattern>,
}

/// Dwell clicking: the point the gaze rests on, since when, and whether
/// that dwell has selected already.
#[derive(Debug, Clone, Copy, PartialEq, Eq)]
pub struct DwellState {
    pub current_target: Option<ScreenPoint>,
    pub dwell_start_ms: Option<i64>,
    pub dwell_triggered: bool,
}

/// The input events: device states, switches, gestures, and devices coming
/// and going.
#[derive(Debug, Clone, PartialEq, Eq)]
pub enum InputEvent {
    GameController { device: DeviceId, state: ControllerState },
    VRController { device: DeviceId, state: VrState },
    HandTracking { device: DeviceId, state: HandState },
    EyeTracking { device: DeviceId, state: EyeState },
    Switch { device: DeviceId, state: SwitchState },
    Gesture { device: DeviceId, gesture: HandGesture, hand: Handedness },
    DeviceConnected(DeviceId),
    DeviceDisconnected(DeviceId),
}

/// `i` is the first position of device `id`.
pub open spec fn device_at(s: Seq<DeviceState>, id: DeviceId, i: int) -> bool {
    0 <= i < s.len() && s[i].device.same_as(id) && forall|j: int| 0 <= j < i ==> !s[j].device.same_as(id)
}

pub open spec fn has_device(s: Seq<DeviceState>, id: DeviceId) -> bool {
    exists|i: int| 0 <= i < s.len() && s[i].device.same_as(id)
}

/// Time elapsed from `then` to `now`, never negative.
pub open spec fn elapsed(now: i64, then: i64) -> int {
    if now >= then {
        now - then
    } else {
        0
    }
}

/// Whether the conflict policy drops the input of `current` at `now`.
pub open spec fn blocked(devices: Seq<DeviceState>, current: DeviceId, policy: ConflictResolution, now: i64) -> bool {
    match policy {
        ConflictResolution::FirstWins => exists|i: int|
            0 <= i < devices.len() && #[trigger] devices[i].connected && !devices[i].device.same_as(current)
                && elapsed(now, devices[i].last_activity_ms) < 100,
        ConflictResolution::PriorityBased => exists|i: int|
            0 <= i < devices.len() && #[trigger] devices[i].connected && !devices[i].device.same_as(current)
                && priority_of(devices[i].device.device_type) < priority_of(current.device_type)
                && elapsed(now, devices[i].last_activity_ms) < 150,
        _ => false,
    }
}

/// The action mapped to a gesture: the last entry for it, as a map built
/// from the entries would hold.
pub open spec fn gesture_action(gs: Seq<(HandGesture, SemanticAction)>, g: HandGesture) -> Option<SemanticAction>
    decreases gs.len(),
{
    if gs.len() == 0 {
        None
    } else if gs.last().0 == g {
        Some(gs.last().1)
    } else {
        gesture_action(gs.drop_last(), g)
    }
}

/// The built-in meaning of a gesture.
pub open spec fn default_gesture_action(g: HandGesture) -> Option<SemanticAction> {
    match g {
        HandGesture::Pinch => Some(SemanticAction::Select),
        HandGesture::Grab => Some(SemanticAction::Grab),
        HandGesture::OpenPalm => Some(SemanticAction::Release),
        HandGesture::ThumbsUp => Some(SemanticAction::GoBack),
        _ => None,
    }
}

pub open spec fn opt_seq(o: Option<SemanticAction>) -> Seq<SemanticAction> {
    match o {
        Some(a) => seq![a],
        None => seq![],
    }
}

/// The first mapping for a device type.
pub open spec fn mapping_at(ms: Seq<InputMapping>, t: InputDeviceType, i: int) -> bool {
    0 <= i < ms.len() && ms[i].device_type == t && forall|j: int| 0 <= j < i ==> ms[j].device_type != t
}

/// Actions of a gesture: the device type's mapping, then the built-in
/// meaning.
pub open spec fn gesture_actions(ms: Seq<InputMapping>, t: InputDeviceType, g: HandGesture) -> Seq<SemanticAction> {
    let mapped = if exists|i: int| mapping_at(ms, t, i) {
        gesture_action(ms[choose|i: int| mapping_at(ms, t, i)].gesture_mappings@, g)
    } else {
        None
    };
    opt_seq(mapped) + opt_seq(default_gesture_action(g))
}

/// Actions of a switch: a press selects.
pub open spec fn switch_actions(state: SwitchState) -> Seq<SemanticAction> {
    if state.pressed {
        seq![SemanticAction::Select]
    } else {
        seq![]
    }
}

/// `a` when `b` holds, else nothing.
pub open spec fn when(b: bool, a: SemanticAction) -> Seq<SemanticAction> {
    if b {
        seq![a]
    } else {
        seq![]
    }
}

pub open spec fn has_mapping(ms: Seq<InputMapping>, t: InputDeviceType) -> bool {
    exists|i: int| mapping_at(ms, t, i)
}

/// The mapping for a device type, if there is one.
pub open spec fn mapping_for(ms: Seq<InputMapping>, t: InputDeviceType) -> Option<InputMapping> {
    if has_mapping(ms, t) {
        Some(ms[choose|i: int| mapping_at(ms, t, i)])
    } else {
        None
    }
}

/// Actions of a game controller with a mapping: triggers past half zoom,
/// the d-pad pans, A selects and B goes back.
pub open spec fn controller_actions(ms: Seq<InputMapping>, t: InputDeviceType, st: ControllerState) -> Seq<SemanticAction> {
    if has_mapping(ms, t) {
        when(st.left_trigger_milli > 500, SemanticAction::ZoomOut) + when(st.right_trigger_milli > 500, SemanticAction::ZoomIn)
            + when(st.dpad_up, SemanticAction::PanUp) + when(st.dpad_down, SemanticAction::PanDown) + when(
            st.dpad_left,
            SemanticAction::PanLeft,
        ) + when(st.dpad_right, SemanticAction::PanRight) + when(st.face_buttons@[0], SemanticAction::Select) + when(
            st.face_buttons@[1],
            SemanticAction::GoBack,
        )
    } else {
        seq![]
    }
}

/// Actions of a VR controller: a firm trigger selects, a firm grip grabs,
/// the thumbstick past half zooms.
pub open spec fn vr_actions(st: VrState) -> Seq<SemanticAction> {
    when(st.trigger_milli > 800, SemanticAction::Select) + when(st.grip_milli > 800, SemanticAction::Grab) + if st.thumbstick_y_milli
        > 500 {
        seq![SemanticAction::ZoomIn]
    } else if st.thumbstick_y_milli < -500 {
        seq![SemanticAction::ZoomOut]
    } else {
        seq![]
    }
}

/// The actions of the first `n` gestures.
pub open spec fn gestures_actions(ms: Seq<InputMapping>, t: InputDeviceType, gs: Seq<HandGesture>, n: nat) -> Seq<SemanticAction>
    decreases n,
{
    if n == 0 {
        seq![]
    } else {
        gestures_actions(ms, t, gs, (n - 1) as nat) + gesture_actions(ms, t, gs[n - 1])
    }
}

/// Thumb and index tips closer than two centimetres.
pub open spec fn pinched(a: Point3, b: Point3) -> bool {
    let dx = a.x - b.x;
    let dy = a.y - b.y;
    let dz = a.z - b.z;
    dx * dx + dy * dy + dz * dz < 400
}

/// Actions of hand tracking: those of its gestures, then a select for a
/// pinch of thumb and index.
pub open spec fn hand_actions(ms: Seq<InputMapping>, t: InputDeviceType, st: HandState) -> Seq<SemanticAction> {
    gestures_actions(ms, t, st.gestures@, st.gestures@.len()) + when(pinched(st.thumb_tip, st.index_tip), SemanticAction::Select)
}

/// Actions of the first `n` blinks: a single blink selects, a double one
/// goes back.
pub open spec fn blink_actions(bs: Seq<BlinkPattern>, n: nat) -> Seq<SemanticAction>
    decreases n,
{
    if n == 0 {
        seq![]
    } else {
        blink_actions(bs, (n - 1) as nat) + match bs[n - 1] {
            BlinkPattern::SingleBlink => seq![SemanticAction::Select],
            BlinkPattern::DoubleBlink => seq![SemanticAction::GoBack],
            _ => seq![],
        }
    }
}

/// Two coordinates less than five hundredths of the screen apart.
pub open spec fn near(a: i32, b: i32) -> bool {
    a - b < 50 && b - a < 50
}

/// Eye tracking at `now`: the blinks' actions, and dwell clicking where
/// the mapping enables it. A gaze resting near its target selects once
/// its dwell time has passed (milliseconds counted modulo 2^32); moving
/// away starts over at the new point.
pub open spec fn eye_step(m: Option<InputMapping>, st: EyeState, d: DwellState, now: i64) -> (Seq<SemanticAction>, DwellState) {
    if !st.is_tracking {
        (seq![], d)
    } else {
        let blinks = blink_actions(st.blink_patterns@, st.blink_patterns@.len());
        let g = ScreenPoint { x: st.gaze_x_milli, y: st.gaze_y_milli };
        match m {
            Some(map) => if map.dwell_enabled {
                match d.current_target {
                    Some(t) => if near(g.x, t.x) && near(g.y, t.y) {
                        match d.dwell_start_ms {
                            Some(start) => if elapsed(now, start) % 0x1_0000_0000 >= map.dwell_select_ms && !d.dwell_triggered {
                                (blinks.push(SemanticAction::Select), DwellState { dwell_triggered: true, ..d })
                            } else {
                                (blinks, d)
                            },
                            None => (blinks, DwellState { dwell_start_ms: Some(now), dwell_triggered: false, ..d }),
                        }
                    } else {
                        (blinks, DwellState { current_target: Some(g), dwell_start_ms: None, dwell_triggered: false })
                    },
                    None => (blinks, DwellState { current_target: Some(g), dwell_start_ms: Some(now), dwell_triggered: false }),
                }
            } else {
                (blinks, d)
            },
            None => (blinks, d),
        }
    }
}

fn is_pinched(a: Point3, b: Point3) -> (r: bool)
    ensures
        r == pinched(a, b),
{
    let dx = a.x as i128 - b.x as i128;
        let dy = a.y as i128 - b.y as i128;
        let dz = a.z as i128 - b.z as i128;
        assert(0 <= dx * dx <= 0x1_0000_0000_0000_0000) by (nonlinear_arith)
            requires
                -0x1_0000_0000 <= dx <= 0x1_0000_0000,
        ;
        assert(0 <= dy * dy <= 0x1_0000_0000_0000_0000) by (nonlinear_arith)
            requires
                -0x1_0000_0000 <= dy <= 0x1_0000_0000,
        ;
        assert(0 <= dz * dz <= 0x1_0000_0000_0000_0000) by (nonlinear_arith)
            requires
                -0x1_0000_0000 <= dz <= 0x1_0000_0000,
        ;
        dx * dx + dy * dy + dz * dz < 400
}

fn push_when(v: &mut Vec<SemanticAction>, b: bool, a: SemanticAction)
    ensures
        final(v)@ == old(v)@ + when(b, a),
{
    if b {
        v.push(a);
    }
    assert(v@ =~= old(v)@ + when(b, a));
}

fn find_device(s: &Vec<DeviceState>, id: &DeviceId) -> (r: Option<usize>)
    ensures
        match r {
            Some(i) => device_at(s@, *id, i as int),
            None => !has_device(s@, *id),
        },
{
    let mut i: usize = 0;
    while i < s.len()
        invariant
            0 <= i <= s@.len(),
            forall|j: int| 0 <= j < i ==> !s@[j].device.same_as(*id),
        decreases s@.len() - i,
    {
        if s[i].device.same(id) {
            return Some(i);
        }
        i = i + 1;
    }
    None
}

fn find_mapping(ms: &Vec<InputMapping>, t: InputDeviceType) -> (r: Option<usize>)
    ensures
        match r {
            Some(i) => mapping_at(ms@, t, i as int),
            None => !exists|i: int| mapping_at(ms@, t, i),
        },
{
    let mut i: usize = 0;
    while i < ms.len()
        invariant
            0 <= i <= ms@.len(),
            forall|j: int| 0 <= j < i ==> ms@[j].device_type != t,
        decreases ms@.len() - i,
    {
        if ms[i].device_type == t {
            return Some(i);
        }
        i = i + 1;
    }
    None
}

fn lookup_gesture(gs: &Vec<(HandGesture, SemanticAction)>, g: HandGesture) -> (r: Option<SemanticAction>)
    ensures
        r == gesture_action(gs@, g),
{
    let mut found: Option<SemanticAction> = None;
    let mut i: usize = 0;
    while i < gs.len()
        invariant
            0 <= i <= gs@.len(),
            found == gesture_action(gs@.take(i as int), g),
        decreases gs@.len() - i,
    {
        assert(gs@.take(i + 1).drop_last() =~= gs@.take(i as int));
        if gs[i].0 == g {
            found = Some(gs[i].1);
        }
        i = i + 1;
    }
    assert(gs@.take(i as int) =~= gs@);
    found
}

/// The devices after input from `id` at `now`: its last activity is now.
pub open spec fn touched(old: Seq<DeviceState>, new: Seq<DeviceState>, id: DeviceId, now: i64) -> bool {
    if has_device(old, id) {
        exists|i: int| device_at(old, id, i) && new == old.update(i, DeviceState { last_activity_ms: now, ..old[i] })
    } else {
        new == old
    }
}

/// The advanced input manager.
#[derive(Debug)]
pub struct AdvancedInputManager {
    /// Known devices, each once
    pub devices: Vec<DeviceState>,
    /// Mappings, one per device type
    pub mappings: Vec<InputMapping>,
    pub conflict_resolution: ConflictResolution,
    pub last_active_device: Option<DeviceId>,
    pub enabled: bool,
    /// Dwell clicking of eye tracking
    pub dwell: DwellState,
}

impl AdvancedInputManager {
    /// An enabled manager with no device, the default mappings, and the
    /// last device winning conflicts.
    pub fn new() -> (m: AdvancedInputManager)
        ensures
            m.devices@.len() == 0,
            m.mappings@.map_values(|x: InputMapping| x@) == default_mappings(),
            m.conflict_resolution == ConflictResolution::LastWins,
            m.last_active_device is None,
            m.enabled,
            m.dwell == (DwellState { current_target: None, dwell_start_ms: None, dwell_triggered: false }),
    {
        AdvancedInputManager {
            devices: Vec::new(),
            mappings: default_mapping_list(),
            conflict_resolution: ConflictResolution::LastWins,
            last_active_device: None,
            enabled: true,
            dwell: DwellState { current_target: None, dwell_start_ms: None, dwell_triggered: false },
        }
    }

    /// The actions of a gesture on `device`.
    pub fn process_gesture(&self, device: &DeviceId, gesture: HandGesture, hand: Handedness) -> (v: Vec<SemanticAction>)
        ensures
            v@ == gesture_actions(self.mappings@, device.device_type, gesture),
    {
        let mut actions: Vec<SemanticAction> = Vec::new();
        let ghost mapped: Option<SemanticAction> = None;
        match find_mapping(&self.mappings, device.device_type) {
            Some(i) => {
                match lookup_gesture(&self.mappings[i].gesture_mappings, gesture) {
                    Some(a) => actions.push(a),
                    None => {},
                }
                proof {
                    mapped = gesture_action(self.mappings@[i as int].gesture_mappings@, gesture);
                    assert(exists|j: int| mapping_at(self.mappings@, device.device_type, j));
                    let c = choose|j: int| mapping_at(self.mappings@, device.device_type, j);
                    assert(c == i);
                }
            },
            None => {},
        }
        assert(actions@ =~= opt_seq(mapped));
        match gesture {
            HandGesture::Pinch => actions.push(SemanticAction::Select),
            HandGesture::Grab => actions.push(SemanticAction::Grab),
            HandGesture::OpenPalm => actions.push(SemanticAction::Release),
            HandGesture::ThumbsUp => actions.push(SemanticAction::GoBack),
            _ => {},
        }
        assert(actions@ =~= gesture_actions(self.mappings@, device.device_type, gesture));
        actions
    }

    /// The actions of a switch: a press selects.
    pub fn process_switch(&self, device: &DeviceId, state: &SwitchState) -> (v: Vec<SemanticAction>)
        ensures
            v@ == switch_actions(*state),
    {
        let mut actions: Vec<SemanticAction> = Vec::new();
        if state.pressed {
            actions.push(SemanticAction::Select);
        }
        assert(actions@ =~= switch_actions(*state));
        actions
    }

    /// Whether the conflict policy drops input from `current` at `now`.
    pub fn is_blocked(&self, current: &DeviceId, now: i64) -> (b: bool)
        ensures
            b == blocked(self.devices@, *current, self.conflict_resolution, now),
    {
        let policy = self.conflict_resolution;
        if policy != ConflictResolution::FirstWins && policy != ConflictResolution::PriorityBased {
            return false;
        }
        let mine = device_priority(current.device_type);
        let mut i: usize = 0;
        while i < self.devices.len()
            invariant
                0 <= i <= self.devices@.len(),
                policy == self.conflict_resolution,
                policy == ConflictResolution::FirstWins || policy == ConflictResolution::PriorityBased,
                mine == priority_of(current.device_type),
                forall|j: int| 0 <= j < i ==> !({
                    let d = #[trigger] self.devices@[j];
                    &&& d.connected
                    &&& !d.device.same_as(*current)
                    &&& (policy == ConflictResolution::PriorityBased ==> priority_of(d.device.device_type) < mine)
                    &&& elapsed(now, d.last_activity_ms) < (if policy == ConflictResolution::FirstWins { 100int } else { 150int })
                }),
            decreases self.devices@.len() - i,
        {
            let d = &self.devices[i];
            if d.connected && !d.device.same(current) {
                let e: i128 = if now >= d.last_activity_ms {
                    now as i128 - d.last_activity_ms as i128
                } else {
                    0
                };
                let hit = if policy == ConflictResolution::FirstWins {
                    e < 100
                } else {
                    device_priority(d.device.device_type) < mine && e < 150
                };
                if hit {
                    return true;
                }
            }
            i = i + 1;
        }
        false
    }

    /// Handles a discrete input event at time `now`, and returns the
    /// actions it triggers after conflict resolution.
    pub fn process_event(&mut self, event: InputEvent, now: i64) -> (v: Vec<SemanticAction>)
        ensures
            !old(self).enabled ==> v@.len() == 0 && final(self).devices@ == old(self).devices@ && final(self).dwell
                == old(self).dwell,
            !(event is EyeTracking) ==> final(self).dwell == old(self).dwell,
            final(self).mappings@ == old(self).mappings@,
            final(self).conflict_resolution == old(self).conflict_resolution,
            final(self).enabled == old(self).enabled,
            old(self).enabled ==> match event {
                InputEvent::GameController { device, state } => {
                    &&& touched(old(self).devices@, final(self).devices@, device, now)
                    &&& final(self).last_active_device == Some(device)
                    &&& v@ == if blocked(final(self).devices@, device, old(self).conflict_resolution, now) {
                        Seq::<SemanticAction>::empty()
                    } else {
                        controller_actions(old(self).mappings@, device.device_type, state)
                    }
                },
                InputEvent::VRController { device, state } => {
                    &&& touched(old(self).devices@, final(self).devices@, device, now)
                    &&& final(self).last_active_device == Some(device)
                    &&& v@ == if blocked(final(self).devices@, device, old(self).conflict_resolution, now) {
                        Seq::<SemanticAction>::empty()
                    } else {
                        vr_actions(state)
                    }
                },
                InputEvent::HandTracking { device, state } => {
                    &&& touched(old(self).devices@, final(self).devices@, device, now)
                    &&& final(self).last_active_device == Some(device)
                    &&& v@ == if blocked(final(self).devices@, device, old(self).conflict_resolution, now) {
                        Seq::<SemanticAction>::empty()
                    } else {
                        hand_actions(old(self).mappings@, device.device_type, state)
                    }
                },
                InputEvent::EyeTracking { device, state } => {
                    let (a, d) = eye_step(mapping_for(old(self).mappings@, device.device_type), state, old(self).dwell, now);
                    &&& touched(old(self).devices@, final(self).devices@, device, now)
                    &&& final(self).last_active_device == Some(device)
                    &&& final(self).dwell == d
                    &&& v@ == if blocked(final(self).devices@, device, old(self).conflict_resolution, now) {
                        Seq::<SemanticAction>::empty()
                    } else {
                        a
                    }
                },
                InputEvent::DeviceConnected(id) => {
                    &&& v@.len() == 0
                    &&& ({
                        let st = DeviceState {
                            device: id,
                            connected: true,
                            last_activity_ms: now,
                            haptic_enabled: id.device_type.spec_supports_haptics(),
                        };
                        if has_device(old(self).devices@, id) {
                            exists|i: int| device_at(old(self).devices@, id, i)
                                && final(self).devices@ == old(self).devices@.update(i, st)
                        } else {
                            final(self).devices@ == old(self).devices@.push(st)
                        }
                    })
                },
                InputEvent::DeviceDisconnected(id) => {
                    &&& v@.len() == 0
                    &&& if has_device(old(self).devices@, id) {
                        exists|i: int| device_at(old(self).devices@, id, i)
                            && final(self).devices@ == old(self).devices@.remove(i)
                    } else {
                        final(self).devices@ == old(self).devices@
                    }
                },
                InputEvent::Switch { device, state } => {
                    &&& touched(old(self).devices@, final(self).devices@, device, now)
                    &&& final(self).last_active_device == Some(device)
                    &&& v@ == if blocked(final(self).devices@, device, old(self).conflict_resolution, now) {
                        Seq::<SemanticAction>::empty()
                    } else {
                        switch_actions(state)
                    }
                },
                InputEvent::Gesture { device, gesture, hand } => {
                    &&& touched(old(self).devices@, final(self).devices@, device, now)
                    &&& final(self).last_active_device == Some(device)
                    &&& v@ == if blocked(final(self).devices@, device, old(self).conflict_resolution, now) {
                        Seq::<SemanticAction>::empty()
                    } else {
                        gesture_actions(old(self).mappings@, device.device_type, gesture)
                    }
                },
            },
    {
        if !self.enabled {
            return Vec::new();
        }
        match event {
            InputEvent::GameController { device, state } => {
                self.touch(&device, now);
                let actions = self.process_game_controller(&device, &state);
                self.finish(device, actions, now)
            },
            InputEvent::VRController { device, state } => {
                self.touch(&device, now);
                let actions = self.process_vr_controller(&device, &state);
                self.finish(device, actions, now)
            },
            InputEvent::HandTracking { device, state } => {
                self.touch(&device, now);
                let actions = self.process_hand_tracking(&device, &state);
                self.finish(device, actions, now)
            },
            InputEvent::EyeTracking { device, state } => {
                self.touch(&device, now);
                let actions = self.process_eye_tracking(&device, &state, now);
                self.finish(device, actions, now)
            },
            InputEvent::DeviceConnected(id) => {
                let haptic = id.device_type.supports_haptics();
                match find_device(&self.devices, &id) {
                    Some(i) => {
                        self.devices.set(i, DeviceState { device: id, connected: true, last_activity_ms: now, haptic_enabled: haptic });
                    },
                    None => {
                        self.devices.push(DeviceState { device: id, connected: true, last_activity_ms: now, haptic_enabled: haptic });
                    },
                }
                Vec::new()
            },
            InputEvent::DeviceDisconnected(id) => {
                match find_device(&self.devices, &id) {
                    Some(i) => {
                        self.devices.remove(i);
                    },
                    None => {},
                }
                Vec::new()
            },
            InputEvent::Switch { device, state } => {
                self.touch(&device, now);
                let actions = self.process_switch(&device, &state);
                let blocked = self.is_blocked(&device, now);
                self.last_active_device = Some(device);
                if blocked {
                    Vec::new()
                } else {
                    actions
                }
            },
            InputEvent::Gesture { device, gesture, hand } => {
                self.touch(&device, now);
                let actions = self.process_gesture(&device, gesture, hand);
                let blocked = self.is_blocked(&device, now);
                self.last_active_device = Some(device);
                if blocked {
                    Vec::new()
                } else {
                    actions
                }
            },
        }
    }

    /// Records the device as the last active one and drops the actions
    /// when the conflict policy blocks it.
    fn finish(&mut self, device: DeviceId, actions: Vec<SemanticAction>, now: i64) -> (v: Vec<SemanticAction>)
        ensures
            final(self).devices@ == old(self).devices@,
            final(self).mappings@ == old(self).mappings@,
            final(self).conflict_resolution == old(self).conflict_resolution,
            final(self).enabled == old(self).enabled,
            final(self).dwell == old(self).dwell,
            final(self).last_active_device == Some(device),
            v@ == if blocked(old(self).devices@, device, old(self).conflict_resolution, now) {
                Seq::<SemanticAction>::empty()
            } else {
                actions@
            },
    {
        let b = self.is_blocked(&device, now);
        self.last_active_device = Some(device);
        if b {
            Vec::new()
        } else {
            actions
        }
    }

    /// The actions of a game controller.
    pub fn process_game_controller(&self, device: &DeviceId, state: &ControllerState) -> (v: Vec<SemanticAction>)
        ensures
            v@ == controller_actions(self.mappings@, device.device_type, *state),
    {
        let mut actions: Vec<SemanticAction> = Vec::new();
        match find_mapping(&self.mappings, device.device_type) {
            Some(_) => {
                push_when(&mut actions, state.left_trigger_milli > 500, SemanticAction::ZoomOut);
                push_when(&mut actions, state.right_trigger_milli > 500, SemanticAction::ZoomIn);
                push_when(&mut actions, state.dpad_up, SemanticAction::PanUp);
                push_when(&mut actions, state.dpad_down, SemanticAction::PanDown);
                push_when(&mut actions, state.dpad_left, SemanticAction::PanLeft);
                push_when(&mut actions, state.dpad_right, SemanticAction::PanRight);
                push_when(&mut actions, state.face_buttons[0], SemanticAction::Select);
                push_when(&mut actions, state.face_buttons[1], SemanticAction::GoBack);
            },
            None => {},
        }
        assert(actions@ =~= controller_actions(self.mappings@, device.device_type, *state));
        actions
    }

    /// The actions of a VR controller.
    pub fn process_vr_controller(&self, device: &DeviceId, state: &VrState) -> (v: Vec<SemanticAction>)
        ensures
            v@ == vr_actions(*state),
    {
        let mut actions: Vec<SemanticAction> = Vec::new();
        if state.trigger_milli > 800 {
            actions.push(SemanticAction::Select);
        }
        if state.grip_milli > 800 {
            actions.push(SemanticAction::Grab);
        }
        if state.thumbstick_y_milli > 500 {
            actions.push(SemanticAction::ZoomIn);
        } else if state.thumbstick_y_milli < -500 {
            actions.push(SemanticAction::ZoomOut);
        }
        assert(actions@ =~= vr_actions(*state));
        actions
    }

    /// The actions of hand tracking.
    pub fn process_hand_tracking(&self, device: &DeviceId, state: &HandState) -> (v: Vec<SemanticAction>)
        ensures
            v@ == hand_actions(self.mappings@, device.device_type, *state),
    {
        let mut actions: Vec<SemanticAction> = Vec::new();
        let mut k: usize = 0;
        while k < state.gestures.len()
            invariant
                0 <= k <= state.gestures@.len(),
                actions@ == gestures_actions(self.mappings@, device.device_type, state.gestures@, k as nat),
            decreases state.gestures@.len() - k,
        {
            let mut more = self.process_gesture(device, state.gestures[k], state.hand);
            actions.append(&mut more);
            k = k + 1;
        }
        if is_pinched(state.thumb_tip, state.index_tip) {
            actions.push(SemanticAction::Select);
        }
        assert(actions@ =~= hand_actions(self.mappings@, device.device_type, *state));
        actions
    }

    /// The actions of eye tracking at `now`, updating dwell clicking.
    pub fn process_eye_tracking(&mut self, device: &DeviceId, state: &EyeState, now: i64) -> (v: Vec<SemanticAction>)
        ensures
            (v@, final(self).dwell) == eye_step(mapping_for(old(self).mappings@, device.device_type), *state, old(self).dwell, now),
            final(self).devices@ == old(self).devices@,
            final(self).mappings@ == old(self).mappings@,
            final(self).conflict_resolution == old(self).conflict_resolution,
            final(self).enabled == old(self).enabled,
            final(self).last_active_device == old(self).last_active_device,
    {
        let mut actions: Vec<SemanticAction> = Vec::new();
        if !state.is_tracking {
            return actions;
        }
        let mut k: usize = 0;
        while k < state.blink_patterns.len()
            invariant
                0 <= k <= state.blink_patterns@.len(),
                actions@ == blink_actions(state.blink_patterns@, k as nat),
            decreases state.blink_patterns@.len() - k,
        {
            match state.blink_patterns[k] {
                BlinkPattern::SingleBlink => actions.push(SemanticAction::Select),
                BlinkPattern::DoubleBlink => actions.push(SemanticAction::GoBack),
                _ => {},
            }
            k = k + 1;
        }
        let ghost blinks = actions@;
        let ghost ms = self.mappings@;
        match find_mapping(&self.mappings, device.device_type) {
            Some(i) => {
                proof {
                    assert(has_mapping(ms, device.device_type));
                    let c = choose|j: int| mapping_at(ms, device.device_type, j);
                    assert(c == i);
                }
                if self.mappings[i].dwell_enabled {
                    let g = ScreenPoint { x: state.gaze_x_milli, y: state.gaze_y_milli };
                    let select_ms = self.mappings[i].dwell_select_ms;
                    match self.dwell.current_target {
                        Some(t) => {
                            let near_x = (g.x as i64) - (t.x as i64) < 50 && (t.x as i64) - (g.x as i64) < 50;
                            let near_y = (g.y as i64) - (t.y as i64) < 50 && (t.y as i64) - (g.y as i64) < 50;
                            if near_x && near_y {
                                match self.dwell.dwell_start_ms {
                                    Some(start) => {
                                        let e: u128 = if now >= start {
                                            (now as i128 - start as i128) as u128
                                        } else {
                                            0
                                        };
                                        if e % 0x1_0000_0000 >= select_ms as u128 && !self.dwell.dwell_triggered {
                                            actions.push(SemanticAction::Select);
                                            self.dwell.dwell_triggered = true;
                                        }
                                    },
                                    None => {
                                        self.dwell.dwell_start_ms = Some(now);
                                        self.dwell.dwell_triggered = false;
                                    },
                                }
                            } else {
                                self.dwell = DwellState { current_target: Some(g), dwell_start_ms: None, dwell_triggered: false };
                            }
                        },
                        None => {
                            self.dwell = DwellState {
                                current_target: Some(g),
                                dwell_start_ms: Some(now),
                                dwell_triggered: false,
                            };
                        },
                    }
                }
            },
            None => {},
        }
        actions
    }

    fn touch(&mut self, device: &DeviceId, now: i64)
        ensures
            touched(old(self).devices@, final(self).devices@, *device, now),
            final(self).mappings@ == old(self).mappings@,
            final(self).conflict_resolution == old(self).conflict_resolution,
            final(self).enabled == old(self).enabled,
            final(self).last_active_device == old(self).last_active_device,
            final(self).dwell == old(self).dwell,
    {
        match find_device(&self.devices, device) {
            Some(i) => {
                let old_d = &self.devices[i];
                let d = DeviceState {
                    device: old_d.device.duplicate(),
                    connected: old_d.connected,
                    last_activity_ms: now,
                    haptic_enabled: old_d.haptic_enabled,
                };
                self.devices.set(i, d);
            },
            None => {},
        }
    }

    /// Sets the conflict resolution strategy.
    /// Whether haptic feedback of `intensity_milli` for `duration_ms` goes
    /// to `device`: it does where the device is known and has haptics
    /// enabled.
    pub fn trigger_haptic(&self, device: &DeviceId, intensity_milli: u32, duration_ms: u32) -> (sent: bool)
        ensures
            sent == exists|i: int| device_at(self.devices@, *device, i) && self.devices@[i].haptic_enabled,
    {
        match find_device(&self.devices, device) {
            Some(i) => self.devices[i].haptic_enabled,
            None => false,
        }
    }

    pub fn set_conflict_resolution(&mut self, strategy: ConflictResolution)
        ensures
            *final(self) == (AdvancedInputManager { conflict_resolution: strategy, ..*old(self) }),
    {
        self.conflict_resolution = strategy;
    }

    /// Enables or disables advanced input.
    pub fn set_enabled(&mut self, enabled: bool)
        ensures
            *final(self) == (AdvancedInputManager { enabled, ..*old(self) }),
    {
        self.enabled = enabled;
    }

    /// Whether advanced input is enabled.
    pub fn is_enabled(&self) -> (b: bool)
        ensures
            b == self.enabled,
    {
        self.enabled
    }

    /// The device that gave the last input.
    pub fn last_active_device(&self) -> (d: Option<&DeviceId>)
        ensures
            match d {
                Some(x) => self.last_active_device == Some(*x),
                None => self.last_active_device is None,
            },
    {
        match &self.last_active_device {
            Some(x) => Some(x),
            None => None,
        }
    }

    /// The connected devices, in the order they were first seen.
    pub fn connected_devices(&self) -> (v: Vec<DeviceId>)
        ensures
            v@ == self.devices@.filter(|d: DeviceState| d.connected).map_values(|d: DeviceState| d.device),
    {
        let mut out: Vec<DeviceId> = Vec::new();
        let ghost f = |d: DeviceState| d.connected;
        let mut i: usize = 0;
        while i < self.devices.len()
            invariant
                0 <= i <= self.devices@.len(),
                f == (|d: DeviceState| d.connected),
                out@ == self.devices@.take(i as int).filter(f).map_values(|d: DeviceState| d.device),
            decreases self.devices@.len() - i,
        {
            reveal_with_fuel(Seq::filter, 1);
            assert(self.devices@.take(i + 1).drop_last() =~= self.devices@.take(i as int));
            if self.devices[i].connected {
                out.push(self.devices[i].device.duplicate());
            }
            assert(out@ =~= self.devices@.take(i + 1).filter(f).map_values(|d: DeviceState| d.device));
            i = i + 1;
        }
        assert(self.devices@.take(i as int) =~= self.devices@);
        out
    }

    /// Sets the mapping of a device type, replacing the previous one.
    pub fn update_mapping(&mut self, mapping: InputMapping)
        ensures
            forall|i: int| mapping_at(old(self).mappings@, mapping.device_type, i)
                ==> final(self).mappings@ == old(self).mappings@.update(i, mapping),
            !(exists|i: int| mapping_at(old(self).mappings@, mapping.device_type, i))
                ==> final(self).mappings@ == old(self).mappings@.push(mapping),
            final(self).devices@ == old(self).devices@,
            final(self).enabled == old(self).enabled,
    {
        match find_mapping(&self.mappings, mapping.device_type) {
            Some(i) => {
                self.mappings.set(i, mapping);
            },
            None => {
                self.mappings.push(mapping);
            },
        }
    }

    /// The mapping of a device type.
    pub fn get_mapping(&self, device_type: InputDeviceType) -> (r: Option<&InputMapping>)
        ensures
            match r {
                Some(m) => exists|i: int| mapping_at(self.mappings@, device_type, i) && self.mappings@[i] == *m,
                None => !exists|i: int| mapping_at(self.mappings@, device_type, i),
            },
    {
        match find_mapping(&self.mappings, device_type) {
            Some(i) => Some(&self.mappings[i]),
            None => None,
        }
    }
}

/// A gesture mapped for its device type is acted on first, before its
/// built-in meaning; a pinch always selects.
pub proof fn law_pinch_selects(ms: Seq<InputMapping>, t: InputDeviceType)
    ensures
        gesture_actions(ms, t, HandGesture::Pinch).last() == SemanticAction::Select,
        gesture_actions(ms, t, HandGesture::Pinch).len() >= 1,
{
}

/// Without conflicts to resolve (the last device wins), input is never
/// dropped.
pub proof fn law_last_wins_never_blocks(devices: Seq<DeviceState>, current: DeviceId, now: i64)
    ensures
        !blocked(devices, current, ConflictResolution::LastWins, now),
{
}

/// The VR thumbstick zooms by its direction: pushed up past half it zooms
/// in, pushed down past half it zooms out, and within half it does neither.
pub proof fn law_thumbstick_direction_zooms(st: VrState)
    ensures
        st.thumbstick_y_milli > 500 ==> vr_actions(st).contains(SemanticAction::ZoomIn) && !vr_actions(
            st,
        ).contains(SemanticAction::ZoomOut),
        st.thumbstick_y_milli < -500 ==> vr_actions(st).contains(SemanticAction::ZoomOut) && !vr_actions(
            st,
        ).contains(SemanticAction::ZoomIn),
        -500 <= st.thumbstick_y_milli <= 500 ==> !vr_actions(st).contains(SemanticAction::ZoomIn) && !vr_actions(
            st,
        ).contains(SemanticAction::ZoomOut),
{
    let v = vr_actions(st);
    let n = v.len() - 1;
    if st.thumbstick_y_milli > 500 {
        assert(v[n] == SemanticAction::ZoomIn);
    } else if st.thumbstick_y_milli < -500 {
        assert(v[n] == SemanticAction::ZoomOut);
    }
}

} // verus!
