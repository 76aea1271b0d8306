use tos_dream::model::{CommandHub, CommandHubMode, Sector};
use tos_dream::remote::{
    ConnectionType, FrameBufferFormat, RemoteConnection, RemoteFrameBuffer, RemoteManager,
    RemoteNodeInfo, RemoteStatus, SyncPacket,
};

#[test]
fn test_remote_frame_buffer() {
    let fb = RemoteFrameBuffer::new(1920, 1080, 1_000);
    assert_eq!(fb.width, 1920);
    assert_eq!(fb.height, 1080);
    assert_eq!(fb.data.len(), 1920 * 1080 * 4);
    assert!(!fb.is_stale(1000, 1_000));
    assert!(fb.is_stale(5, 1_010));
}

#[test]
fn test_frame_buffer_update() {
    let mut conn = RemoteConnection::new(7, ConnectionType::TOSNative, 0);
    let packet = SyncPacket::FrameBufferUpdate { width: 800, height: 600, data: vec![255; 800 * 600 * 4], timestamp: 1234567890 };
    conn.update_frame_buffer(packet, 5);
    assert!(conn.frame_buffer.is_some());
    let fb = conn.frame_buffer.unwrap();
    assert_eq!(fb.width, 800);
    assert_eq!(fb.height, 600);
    assert_eq!(fb.format, FrameBufferFormat::RGBA);
}

#[test]
fn test_create_frame_buffer_packet() {
    let manager = RemoteManager::new();
    let packet = manager.create_frame_buffer_packet(1024, 768, vec![0; 1024 * 768 * 4], 99);
    match packet {
        SyncPacket::FrameBufferUpdate { width, height, .. } => {
            assert_eq!(width, 1024);
            assert_eq!(height, 768);
        }
        _ => panic!("Expected FrameBufferUpdate packet"),
    }
}

#[test]
fn test_command_relay_queue() {
    let mut manager = RemoteManager::new();
    let hub_id = 11;
    manager.command_queue.push((hub_id, "ls -la".to_string()));
    let result = manager.execute_command_relay(hub_id, "ls -la");
    assert!(result.is_ok());
    assert!(result.unwrap().contains("Executed"));
    assert_eq!(manager.execute_command_relay(12, "x"), Err("Command not found in queue".to_string()));
}

#[test]
fn test_auth_packet_processing() {
    let mut manager = RemoteManager::new();
    let node_id = 5;
    manager.auth_store.insert(node_id, "secret-token".to_string());
    manager.active_connections.insert(node_id, RemoteConnection::new(node_id, ConnectionType::TOSNative, 0));
    let mut sectors = Vec::new();
    let result = manager.process_packet(node_id, SyncPacket::AuthRequest { token: "secret-token".to_string() }, &mut sectors, 1);
    assert!(result.is_ok());
    assert!(manager.active_connections.get(node_id).unwrap().authenticated);
    manager.process_packet(node_id, SyncPacket::AuthRequest { token: "wrong".to_string() }, &mut sectors, 2).unwrap();
    assert!(!manager.active_connections.get(node_id).unwrap().authenticated);
}

#[test]
fn frame_buffer_packets_reach_the_connection() {
    let mut manager = RemoteManager::new();
    manager.active_connections.insert(3, RemoteConnection::new(3, ConnectionType::TOSNative, 0));
    let mut sectors = Vec::new();
    manager
        .process_packet(3, SyncPacket::FrameBufferUpdate { width: 2, height: 2, data: vec![1; 16], timestamp: 0 }, &mut sectors, 50)
        .unwrap();
    assert_eq!(manager.get_frame_buffer(3).unwrap().data, vec![1; 16]);
    assert!(!manager.is_frame_buffer_stale(3, 100, 100));
    assert!(manager.is_frame_buffer_stale(4, 100, 100));
}

fn hub(id: u128) -> CommandHub {
    CommandHub {
        id,
        mode: CommandHubMode::Command,
        prompt: String::new(),
        applications: Vec::new(),
        active_app_index: None,
        terminal_output: Vec::new(),
        confirmation_required: None,
        current_directory: "/".to_string(),
        show_hidden_files: false,
        selected_files: vec![],
        context_menu: None,
        shell_listing: None,
        output_mode_centered: false,
        left_region_visible: true,
    }
}

#[test]
fn terminal_deltas_and_sector_states() {
    let mut manager = RemoteManager::new();
    let mut sectors = vec![Sector { id: 1, name: "A".to_string(), color: "#ff9900".to_string(), host: "localhost".to_string(), connection_type: ConnectionType::Local, hubs: vec![hub(10), hub(11)], participants: vec![], active_hub_index: 0, icon: String::new(), portal_active: false, portal_url: None, description: String::new(), sector_type_name: String::new() }];
    manager.process_packet(9, SyncPacket::TerminalDelta { hub_id: 11, line: "hello".to_string() }, &mut sectors, 0).unwrap();
    assert_eq!(sectors[0].hubs[1].terminal_output, vec!["hello".to_string()]);
    manager.process_packet(9, SyncPacket::SectorState(Sector { id: 1, name: "B".to_string(), color: "#ff9900".to_string(), host: "localhost".to_string(), connection_type: ConnectionType::Local, hubs: vec![], participants: vec![], active_hub_index: 0, icon: String::new(), portal_active: false, portal_url: None, description: String::new(), sector_type_name: String::new() }), &mut sectors, 0).unwrap();
    assert_eq!(sectors.len(), 1);
    assert_eq!(sectors[0].name, "B");
    manager.process_packet(9, SyncPacket::SectorState(Sector { id: 2, name: "C".to_string(), color: "#ff9900".to_string(), host: "localhost".to_string(), connection_type: ConnectionType::Local, hubs: vec![], participants: vec![], active_hub_index: 0, icon: String::new(), portal_active: false, portal_url: None, description: String::new(), sector_type_name: String::new() }), &mut sectors, 0).unwrap();
    assert_eq!(sectors.len(), 2);
    manager.process_packet(9, SyncPacket::CommandRelay { hub_id: 4, command: "ls".to_string() }, &mut sectors, 0).unwrap();
    assert_eq!(manager.command_queue, vec![(4, "ls".to_string())]);
}

#[test]
fn connect_requires_registered_node() {
    let mut manager = RemoteManager::new();
    assert_eq!(
        manager.connect(1, ConnectionType::SSH, 0).unwrap_err(),
        "Node 00000000-0000-0000-0000-000000000001 not found"
    );
    manager.register_node(RemoteNodeInfo {
        id: 1,
        hostname: "h".to_string(),
        address: "10.0.0.1".to_string(),
        os_type: "Linux".to_string(),
        version: "1".to_string(),
        status: RemoteStatus::Online,
    });
    assert!(manager.connect(1, ConnectionType::SSH, 0).is_ok());
    assert!(manager.sync_node(1, 10).is_ok());
    manager.disconnect(1);
    assert_eq!(manager.sync_node(1, 10), Err("Not connected".to_string()));
}

#[test]
fn frame_buffer_base64() {
    let fb = RemoteFrameBuffer::new(1, 1, 0);
    assert_eq!(fb.to_base64(), "AAAAAA==");
}

#[test]
fn frame_buffer_base64_of_text() {
    let mut fb = RemoteFrameBuffer::new(1, 1, 0);
    fb.data = b"Many hands make light work.".to_vec();
    assert_eq!(fb.to_base64(), "TWFueSBoYW5kcyBtYWtlIGxpZ2h0IHdvcmsu");
    fb.data = vec![0xff, 0xfe];
    assert_eq!(fb.to_base64(), "//4=");
}
