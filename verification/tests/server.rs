use mc_app::commands::server::{
    from_ping, port_to_probe, PingStatus, ServerState, ServerStatus, DEFAULT_PORT,
};

#[test]
fn a_successful_probe_reports_online_with_its_numbers() {
    let status = from_ping(
        "mc.ggy.info:25565".to_string(),
        Some(PingStatus {
            online: Some(12),
            max: Some(120),
            version: Some("1.21.1".to_string()),
        }),
    );

    assert_eq!(status.state, ServerState::Online);
    assert_eq!(status.host, "mc.ggy.info:25565");
    assert_eq!(status.players, Some(12));
    assert_eq!(status.slots, Some(120));
    assert_eq!(status.version.as_deref(), Some("1.21.1"));
}

#[test]
fn a_failed_probe_reports_offline_with_no_numbers() {
    let status = from_ping("mc.ggy.info:25565".to_string(), None);

    assert_eq!(status.state, ServerState::Offline);
    assert_eq!(status.host, "mc.ggy.info:25565");
    assert_eq!(status.players, None);
    assert_eq!(status.slots, None);
    assert_eq!(status.version, None);
}

#[test]
fn the_undeclared_state_carries_no_host() {
    let status = ServerStatus::undeclared();

    assert_eq!(status.state, ServerState::Undeclared);
    assert_eq!(status.host, "");
    assert_eq!(status.players, None);
}

#[test]
fn an_undeclared_port_is_minecraft_s_default() {
    assert_eq!(port_to_probe(None), DEFAULT_PORT);
    assert_eq!(DEFAULT_PORT, 25565);
    assert_eq!(port_to_probe(Some(25570)), 25570);
}
