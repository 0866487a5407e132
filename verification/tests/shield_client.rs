use openbci::shield::{BoardInfo, Endpoint, ShieldInfo, TcpConfig, TcpDataReceiver};

#[test]
fn receiver_keeps_its_port() {
    assert_eq!(TcpDataReceiver::new(3000).port(), 3000);
    assert_eq!(TcpDataReceiver::new(0).port(), 0);
    assert_eq!(TcpDataReceiver::new(u16::MAX).port(), u16::MAX);
}

#[test]
fn stream_configuration() {
    let config = TcpConfig::for_stream("192.168.4.2", 3000, "json", 10000);
    assert_eq!(config.ip, "192.168.4.2");
    assert_eq!(config.port, 3000);
    assert_eq!(config.output, "json");
    assert!(config.delimiter);
    assert_eq!(config.latency, 10000);
    assert_eq!(config.burst, Some(false));
    let raw = TcpConfig::for_stream("", 0, "raw", 0);
    assert_eq!(raw.ip, "");
    assert_eq!(raw.output, "raw");
    assert_eq!(raw.latency, 0);
}

#[test]
fn endpoint_addresses() {
    assert_eq!(Endpoint::Board.url_for("192.168.4.1"), "http://192.168.4.1/board");
    assert_eq!(Endpoint::All.url_for("192.168.4.1"), "http://192.168.4.1/all");
    assert_eq!(Endpoint::Version.url_for("192.168.4.1"), "http://192.168.4.1/version");
    assert_eq!(Endpoint::Tcp.url_for("192.168.4.1"), "http://192.168.4.1/tcp");
    assert_eq!(Endpoint::Command.url_for("192.168.4.1"), "http://192.168.4.1/command");
    assert_eq!(Endpoint::Tcp.url_for("shield.local:8080"), "http://shield.local:8080/tcp");
    assert_eq!(Endpoint::Board.url_for(""), "http:///board");
}

#[test]
fn board_and_shield_values() {
    let board = BoardInfo {
        board_connected: true,
        board_type: "cyton".to_string(),
        num_channels: 8,
        gains: vec![24; 8],
    };
    let copy = board.clone();
    assert_eq!(copy.board_connected, board.board_connected);
    assert_eq!(copy.board_type, "cyton");
    assert_eq!(copy.num_channels, 8);
    assert_eq!(copy.gains, vec![24; 8]);
    let shield = ShieldInfo {
        board_connected: false,
        heap: 1024,
        ip: "192.168.4.1".to_string(),
        mac: "aa:bb".to_string(),
        name: "OpenBCI-E324".to_string(),
        num_channels: 0,
        version: "v2.0.5".to_string(),
        latency: 10000,
    };
    let copy = shield.clone();
    assert_eq!(copy.heap, 1024);
    assert_eq!(copy.name, "OpenBCI-E324");
    assert_eq!(copy.latency, 10000);
}
