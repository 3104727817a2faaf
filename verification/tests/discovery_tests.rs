use sendspin_cli::protocol::PlaybackState;

#[test]
fn test_service_type_constant() {
    // Verify the service type format is correct
    let service_type = "_sendspin-server._tcp.local.";

    assert!(service_type.starts_with("_sendspin-server"));
    assert!(service_type.contains("._tcp."));
    assert!(service_type.ends_with(".local."));
}

#[test]
fn test_playback_state_wire_names() {
    assert_eq!(PlaybackState::Playing.wire_name(), "playing");
    assert_eq!(PlaybackState::Paused.wire_name(), "paused");
    assert_eq!(PlaybackState::Stopped.wire_name(), "stopped");
}
