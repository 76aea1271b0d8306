use tos_dream::advanced_input::{
    AdvancedInputManager, BlinkPattern, ConflictResolution, ControllerState, DeviceId, EyeState, HandGesture,
    HandState, Handedness, InputDeviceType, InputEvent, Point3, SemanticAction, SwitchState, VrState,
};

#[test]
fn test_device_id_creation() {
    let id = DeviceId::new(InputDeviceType::GameController, 0);
    assert_eq!(id.device_type, InputDeviceType::GameController);
    assert_eq!(id.instance, 0);
}

#[test]
fn test_input_manager_creation() {
    let manager = AdvancedInputManager::new();
    assert!(manager.is_enabled());
    assert!(manager.connected_devices().is_empty());
}

#[test]
fn test_gesture_processing() {
    let mut manager = AdvancedInputManager::new();
    let device = DeviceId::new(InputDeviceType::HandTracking, 0);
    let event = InputEvent::Gesture { device, gesture: HandGesture::Pinch, hand: Handedness::Right };
    let actions = manager.process_event(event, 0);
    assert!(actions.contains(&SemanticAction::Select));
    assert_eq!(actions, vec![SemanticAction::Select, SemanticAction::Select]);
}

#[test]
fn test_device_connection() {
    let mut manager = AdvancedInputManager::new();
    let device = DeviceId::new(InputDeviceType::GameController, 0);
    manager.process_event(InputEvent::DeviceConnected(device), 0);
    assert_eq!(manager.connected_devices().len(), 1);
    assert_eq!(manager.connected_devices()[0].device_type, InputDeviceType::GameController);
    manager.process_event(InputEvent::DeviceDisconnected(DeviceId::new(InputDeviceType::GameController, 0)), 5);
    assert!(manager.connected_devices().is_empty());
}

#[test]
fn test_conflict_resolution_setting() {
    let mut manager = AdvancedInputManager::new();
    manager.set_conflict_resolution(ConflictResolution::PriorityBased);
    assert_eq!(manager.conflict_resolution, ConflictResolution::PriorityBased);
}

#[test]
fn priority_resolution_drops_lower_priority_input() {
    let mut manager = AdvancedInputManager::new();
    manager.set_conflict_resolution(ConflictResolution::PriorityBased);
    let switch = DeviceId::new(InputDeviceType::AccessibilitySwitch, 0);
    let hand = DeviceId::new(InputDeviceType::HandTracking, 0);
    manager.process_event(InputEvent::DeviceConnected(switch.clone()), 1_000);
    manager.process_event(InputEvent::DeviceConnected(hand.clone()), 1_000);
    let a = manager.process_event(
        InputEvent::Gesture { device: hand.clone(), gesture: HandGesture::Grab, hand: Handedness::Left },
        1_100,
    );
    assert!(a.is_empty());
    let a = manager.process_event(
        InputEvent::Gesture { device: hand, gesture: HandGesture::Grab, hand: Handedness::Left },
        1_200,
    );
    assert_eq!(a, vec![SemanticAction::Grab, SemanticAction::Grab]);
    let s = manager.process_event(
        InputEvent::Switch { device: switch, state: SwitchState { pressed: true, time_since_last_press_ms: 0, rapid_press_count: 1 } },
        1_250,
    );
    assert_eq!(s, vec![SemanticAction::Select]);
}

#[test]
fn disabled_manager_ignores_input() {
    let mut manager = AdvancedInputManager::new();
    manager.set_enabled(false);
    let d = DeviceId::new(InputDeviceType::HandTracking, 0);
    assert!(manager.process_event(InputEvent::Gesture { device: d, gesture: HandGesture::Pinch, hand: Handedness::Left }, 0).is_empty());
}

#[test]
fn test_device_display_name() {
    let id = DeviceId::with_hardware_id(InputDeviceType::GameController, 0, "Xbox Controller".to_string());
    let name = id.display_name();
    assert!(name.contains("Xbox Controller"));
    assert_eq!(name, "Game Controller #0 (Xbox Controller)");
    assert_eq!(DeviceId::new(InputDeviceType::EyeTracking, 12).display_name(), "Eye Tracking #12");
}

#[test]
fn test_hand_gesture_defaults() {
    assert_eq!(HandGesture::Pinch as i32, HandGesture::Pinch as i32);
    assert_ne!(HandGesture::Pinch, HandGesture::Grab);
}

#[test]
fn device_type_properties() {
    assert!(InputDeviceType::VRController.supports_haptics());
    assert!(!InputDeviceType::EyeTracking.supports_haptics());
    assert!(InputDeviceType::EyeTracking.is_spatial());
    assert!(!InputDeviceType::GameController.is_spatial());
    assert_eq!(InputDeviceType::AccessibilitySwitch.display_name(), "Accessibility Switch");
}

#[test]
fn default_mappings_are_installed() {
    let manager = AdvancedInputManager::new();
    let m = manager.get_mapping(InputDeviceType::EyeTracking).unwrap();
    assert!(m.dwell_enabled);
    assert_eq!(m.dwell_select_ms, 1500);
    assert!(manager.get_mapping(InputDeviceType::ARController).is_none());
}

#[test]
fn test_game_controller_processing() {
    let mut manager = AdvancedInputManager::new();
    let device = DeviceId::new(InputDeviceType::GameController, 0);
    let state = ControllerState {
        left_trigger_milli: 0,
        right_trigger_milli: 0,
        dpad_up: true,
        dpad_down: false,
        dpad_left: false,
        dpad_right: false,
        face_buttons: [true, false, false, false],
    };
    let actions = manager.process_event(InputEvent::GameController { device, state }, 10);
    assert!(!actions.is_empty());
    assert!(actions.contains(&SemanticAction::Select));
    assert!(actions.contains(&SemanticAction::PanUp));
    assert_eq!(actions, vec![SemanticAction::PanUp, SemanticAction::Select]);
}

#[test]
fn test_vr_controller_processing() {
    let mut manager = AdvancedInputManager::new();
    let device = DeviceId::new(InputDeviceType::VRController, 0);
    let state = VrState { trigger_milli: 900, grip_milli: 0, thumbstick_y_milli: 600 };
    let actions = manager.process_event(InputEvent::VRController { device, state }, 10);
    assert!(actions.contains(&SemanticAction::Select));
    assert!(actions.contains(&SemanticAction::ZoomIn));
    assert_eq!(actions.len(), 2);
}

#[test]
fn hand_tracking_pinch_selects() {
    let mut manager = AdvancedInputManager::new();
    let device = DeviceId::new(InputDeviceType::HandTracking, 0);
    let state = HandState {
        hand: Handedness::Right,
        gestures: vec![],
        thumb_tip: Point3 { x: 0, y: 0, z: 0 },
        index_tip: Point3 { x: 10, y: 10, z: 0 },
    };
    let actions = manager.process_event(InputEvent::HandTracking { device: device.clone(), state }, 10);
    assert_eq!(actions, vec![SemanticAction::Select]);
    let apart = HandState {
        hand: Handedness::Right,
        gestures: vec![],
        thumb_tip: Point3 { x: 0, y: 0, z: 0 },
        index_tip: Point3 { x: 30, y: 0, z: 0 },
    };
    let actions = manager.process_event(InputEvent::HandTracking { device, state: apart }, 11);
    assert!(actions.is_empty());
}

#[test]
fn eye_tracking_blinks_and_untracked() {
    let mut manager = AdvancedInputManager::new();
    let device = DeviceId::new(InputDeviceType::EyeTracking, 0);
    let untracked = EyeState {
        is_tracking: false,
        gaze_x_milli: 0,
        gaze_y_milli: 0,
        blink_patterns: vec![BlinkPattern::SingleBlink],
    };
    let actions = manager.process_event(InputEvent::EyeTracking { device: device.clone(), state: untracked }, 10);
    assert!(actions.is_empty());
    let watching = EyeState {
        is_tracking: true,
        gaze_x_milli: 0,
        gaze_y_milli: 0,
        blink_patterns: vec![BlinkPattern::SingleBlink, BlinkPattern::DoubleBlink],
    };
    let actions = manager.process_event(InputEvent::EyeTracking { device, state: watching }, 20);
    assert_eq!(actions, vec![SemanticAction::Select, SemanticAction::GoBack]);
}

#[test]
fn test_haptic_trigger() {
    let mut manager = AdvancedInputManager::new();
    let device = DeviceId::new(InputDeviceType::VRController, 0);
    assert!(!manager.trigger_haptic(&device, 500, 100));
    manager.process_event(InputEvent::DeviceConnected(device.clone()), 1);
    assert!(manager.trigger_haptic(&device, 500, 100));
    let eyes = DeviceId::new(InputDeviceType::EyeTracking, 0);
    manager.process_event(InputEvent::DeviceConnected(eyes.clone()), 2);
    assert!(!manager.trigger_haptic(&eyes, 500, 100));
}
