use tos_dream::remote::ConnectionType;
use tos_dream::collaboration::{
    CollaborationManager, CollaborationRole, FollowingMode, Participant, PermissionAction,
    PermissionDeniedError, PermissionSet, ViewState,
};

use tos_dream::model::{HierarchyLevel, Sector, TosState, Viewport};

fn participant(id: u128, name: &str, role: CollaborationRole) -> Participant {
    Participant {
        id,
        name: name.to_string(),
        color: "#ff0000".to_string(),
        avatar_url: None,
        role,
        following_host_id: None,
    }
}

#[test]
fn test_collaboration_role_from_str() {
    assert_eq!(CollaborationRole::from_str("co-owner").unwrap(), CollaborationRole::CoOwner);
    assert_eq!(CollaborationRole::from_str("operator").unwrap(), CollaborationRole::Operator);
    assert_eq!(CollaborationRole::from_str("viewer").unwrap(), CollaborationRole::Viewer);
    assert!(CollaborationRole::from_str("unknown").is_err());
}

#[test]
fn role_names_ignore_case_and_hyphens() {
    assert_eq!(CollaborationRole::from_str("Co-Owner").unwrap(), CollaborationRole::CoOwner);
    assert_eq!(CollaborationRole::from_str("OWNER").unwrap(), CollaborationRole::CoOwner);
    assert_eq!(CollaborationRole::from_str("view-er").unwrap(), CollaborationRole::Viewer);
    assert_eq!(CollaborationRole::CoOwner.to_string(), "Co-Owner");
    assert_eq!(CollaborationRole::CoOwner.as_str(), "Co-owner");
    assert!(CollaborationRole::Operator.can_interact());
    assert!(!CollaborationRole::Viewer.can_interact());
    assert!(!CollaborationRole::Operator.can_manage());
}

#[test]
fn test_permission_set_check() {
    let co_owner = PermissionSet::for_role(CollaborationRole::CoOwner);
    let operator = PermissionSet::for_role(CollaborationRole::Operator);
    let viewer = PermissionSet::for_role(CollaborationRole::Viewer);
    assert!(co_owner.check(PermissionAction::ShellInput));
    assert!(co_owner.check(PermissionAction::SectorReset));
    assert!(co_owner.check(PermissionAction::ParticipantInvite));
    assert!(operator.check(PermissionAction::ShellInput));
    assert!(!operator.check(PermissionAction::SectorReset));
    assert!(!operator.check(PermissionAction::ParticipantInvite));
    assert!(!viewer.check(PermissionAction::ShellInput));
    assert!(!viewer.check(PermissionAction::AppLaunch));
    assert!(!viewer.check(PermissionAction::ViewportControl));
}

#[test]
fn test_following_mode() {
    let host_id = uuid::Uuid::new_v4().as_u128();
    let mut following = FollowingMode::new(host_id);
    assert!(following.active);
    assert!(following.should_sync(1_000));
    following.mark_synced(
        ViewState {
            hierarchy_level: HierarchyLevel::GlobalOverview,
            sector_index: 0,
            hub_index: 0,
            viewport_index: 0,
            active_app_index: None,
        },
        1_000,
    );
    assert!(!following.should_sync(1_000));
    assert!(following.should_sync(1_100));
    following.stop();
    assert!(!following.active);
}

#[test]
fn test_permission_denied_error() {
    let err = PermissionDeniedError::ActionNotAllowed {
        participant: "TestUser".to_string(),
        role: CollaborationRole::Viewer,
        action: PermissionAction::ShellInput,
    };
    let msg = err.to_string();
    assert!(msg.contains("TestUser"));
    assert!(msg.contains("Viewer"));
    assert!(msg.contains("shell input"));
    assert_eq!(
        PermissionDeniedError::NoSession(1).to_string(),
        "No active session for participant: 00000000-0000-0000-0000-000000000001"
    );
}

#[test]
fn test_collaboration_manager_add_remove_participant() {
    let mut manager = CollaborationManager::new();
    let p = participant(uuid::Uuid::new_v4().as_u128(), "TestUser", CollaborationRole::Operator);
    let id = p.id;
    manager.add_participant(p);
    assert!(manager.participants.contains_key(id));
    assert!(manager.sessions.contains_key(id));
    manager.remove_participant(id);
    assert!(!manager.participants.contains_key(id));
    assert!(!manager.sessions.contains_key(id));
    assert!(!manager.check_permission(id, PermissionAction::ShellInput));
}

#[test]
fn test_start_stop_following() {
    let mut manager = CollaborationManager::new();
    let host_id = uuid::Uuid::new_v4().as_u128();
    let guest_id = uuid::Uuid::new_v4().as_u128();
    manager.add_participant(participant(host_id, "Host", CollaborationRole::CoOwner));
    manager.add_participant(participant(guest_id, "Guest", CollaborationRole::Viewer));
    assert!(manager.start_following(guest_id, host_id).is_ok());
    assert!(manager.is_following(guest_id));
    assert_eq!(manager.get_following_host(guest_id), Some(host_id));
    manager.stop_following(guest_id);
    assert!(!manager.is_following(guest_id));
    assert!(manager.get_following_host(guest_id).is_none());
}

#[test]
fn start_following_unknown_guest_is_refused() {
    let mut manager = CollaborationManager::new();
    let r = manager.start_following(5, 6);
    assert_eq!(r, Err("Guest participant 00000000-0000-0000-0000-000000000005 not found".to_string()));
    manager.add_participant(participant(5, "Guest", CollaborationRole::Viewer));
    let r = manager.start_following(5, 6);
    assert_eq!(r, Err("Host participant 00000000-0000-0000-0000-000000000006 not found".to_string()));
}

#[test]
fn test_synchronize_followers() {
    let mut manager = CollaborationManager::new();
    let host_id = uuid::Uuid::new_v4().as_u128();
    let guest_id = uuid::Uuid::new_v4().as_u128();
    manager.add_participant(participant(host_id, "Host", CollaborationRole::CoOwner));
    manager.add_participant(participant(guest_id, "Guest", CollaborationRole::Viewer));
    manager.start_following(guest_id, host_id).unwrap();
    let host_view = ViewState {
        hierarchy_level: HierarchyLevel::CommandHub,
        sector_index: 1,
        hub_index: 0,
        viewport_index: 0,
        active_app_index: Some(0),
    };
    manager.update_view_state(host_id, host_view);
    let updates = manager.synchronize_followers();
    assert_eq!(updates.len(), 1);
    assert_eq!(updates[0].0, guest_id);
    assert_eq!(updates[0].1.sector_index, 1);
}

#[test]
fn synchronising_again_sends_nothing_new() {
    let mut manager = CollaborationManager::new();
    manager.add_participant(participant(1, "Host", CollaborationRole::CoOwner));
    manager.add_participant(participant(2, "Guest", CollaborationRole::Viewer));
    manager.start_following(2, 1).unwrap();
    let v = ViewState {
        hierarchy_level: HierarchyLevel::GlobalOverview,
        sector_index: 0,
        hub_index: 0,
        viewport_index: 0,
        active_app_index: None,
    };
    manager.update_view_state(1, v);
    assert_eq!(manager.synchronize_followers_at(10_000).len(), 1);
    assert_eq!(manager.synchronize_followers_at(10_500).len(), 0);
}

#[test]
fn test_enforce_action_logging() {
    let mut manager = CollaborationManager::new();
    let participant_id = uuid::Uuid::new_v4().as_u128();
    manager.add_participant(participant(participant_id, "ViewerUser", CollaborationRole::Viewer));
    assert!(!manager.enforce_action(participant_id, PermissionAction::ShellInput));
    let co_owner_id = uuid::Uuid::new_v4().as_u128();
    manager.add_participant(participant(co_owner_id, "Owner", CollaborationRole::CoOwner));
    assert!(manager.enforce_action(co_owner_id, PermissionAction::ShellInput));
}

#[test]
fn invitations_are_redeemed_once() {
    let mut manager = CollaborationManager::new();
    let token = manager.create_invitation_at(7, CollaborationRole::Operator, 42, 43, 1_000);
    assert_eq!(token, "00000000-0000-0000-0000-00000000002a");
    assert_eq!(manager.redeem_invitation_at(&token, 2_000), Some((7, CollaborationRole::Operator)));
    assert_eq!(manager.redeem_invitation_at(&token, 2_000), None);
    let t2 = manager.create_invitation_at(8, CollaborationRole::Viewer, 50, 51, 0);
    assert_eq!(manager.redeem_invitation_at(&t2, 86_400_000), None);
    assert_eq!(manager.redeem_invitation_at("nope", 0), None);
}

#[test]
fn view_state_round_trip_through_state() {
    let mut st = TosState {
        current_level: HierarchyLevel::GlobalOverview,
        sectors: vec![
            Sector { id: 1, name: "A".to_string(), color: "#ff9900".to_string(), host: "localhost".to_string(), connection_type: ConnectionType::Local, hubs: vec![], participants: vec![], active_hub_index: 0, icon: String::new(), portal_active: false, portal_url: None, description: String::new(), sector_type_name: String::new() },
            Sector { id: 2, name: "B".to_string(), color: "#ff9900".to_string(), host: "localhost".to_string(), connection_type: ConnectionType::Local, hubs: vec![], participants: vec![], active_hub_index: 0, icon: String::new(), portal_active: false, portal_url: None, description: String::new(), sector_type_name: String::new() },
        ],
        viewports: vec![Viewport { sector_index: 0, hub_index: 0, active_app_index: None, current_level: HierarchyLevel::CommandHub, bezel_expanded: false }],
        active_viewport_index: 0,
        tactical_lockdown: false,
        escape_count: 0,
        settings_open: false,
        performance_alert: false,
        fps_milli: 60_000,
        comms_visible: false,
        comms_messages: vec![],
    };
    let v = ViewState {
        hierarchy_level: HierarchyLevel::ApplicationFocus,
        sector_index: 1,
        hub_index: 0,
        viewport_index: 3,
        active_app_index: None,
    };
    v.apply_to_state(&mut st);
    assert_eq!(st.current_level, HierarchyLevel::ApplicationFocus);
    assert_eq!(st.viewports[0].sector_index, 1);
    assert_eq!(st.active_viewport_index, 0);
}

#[test]
fn role_names_read_back() {
    for r in [CollaborationRole::CoOwner, CollaborationRole::Operator, CollaborationRole::Viewer] {
        assert_eq!(CollaborationRole::from_str(r.as_str()), Ok(r));
        assert_eq!(CollaborationRole::from_str(&r.to_string()), Ok(r));
    }
    assert_eq!(CollaborationRole::from_str("Co-Owner"), Ok(CollaborationRole::CoOwner));
    assert_eq!(CollaborationRole::from_str("Co-owner"), Ok(CollaborationRole::CoOwner));
}

#[test]
fn participants_listed_by_role_in_join_order() {
    let mut manager = CollaborationManager::new();
    manager.add_participant(participant(1, "Ann", CollaborationRole::Operator));
    manager.add_participant(participant(2, "Bob", CollaborationRole::Viewer));
    manager.add_participant(participant(3, "Cy", CollaborationRole::Operator));
    let all: Vec<&str> = manager.get_active_participants().iter().map(|p| p.name.as_str()).collect();
    assert_eq!(all, vec!["Ann", "Bob", "Cy"]);
    let ops: Vec<&str> = manager
        .get_participants_by_role(CollaborationRole::Operator)
        .iter()
        .map(|p| p.name.as_str())
        .collect();
    assert_eq!(ops, vec!["Ann", "Cy"]);
    assert!(manager.get_participants_by_role(CollaborationRole::CoOwner).is_empty());
}
