use torrent_throttle::client::{ClientOp, ClientOutcome, ClientResponse, ClientStep, TorrentClient};
use torrent_throttle::http::HttpStatus;
use torrent_throttle::qbit::QbitResponse;
use torrent_throttle::config::{ClientKind, Config};
use torrent_throttle::engine::{ClientCall, ClientReply};
use torrent_throttle::sandbox::{is_flatpak, process_names};
use torrent_throttle::tray::{QbitTray, TrayEvent, TrayLabel, TrayMenuItem};

#[test]
fn client_kind_index_and_labels() {
    let all = ClientKind::all();
    for (i, k) in all.iter().enumerate() {
        assert_eq!(k.index(), i);
    }
    assert_eq!(
        ClientKind::labels(),
        vec!["qBittorrent 5.x".to_string(), "qBittorrent 4.x".to_string(), "Transmission".to_string()]
    );
}

#[test]
fn from_config_picks_the_client() {
    let mut c = Config::default();
    c.qbit_url = "http://localhost:9091/".to_string();
    c.client_kind = ClientKind::Transmission;
    match TorrentClient::from_config(&c) {
        TorrentClient::Transmission(t) => assert_eq!(t.rpc_url, "http://localhost:9091/transmission/rpc"),
        other => panic!("expected Transmission, got {other:?}"),
    }
    c.client_kind = ClientKind::QbitV4;
    match TorrentClient::from_config(&c) {
        TorrentClient::Qbit(q) => assert_eq!(q.base_url, "http://localhost:9091"),
        other => panic!("expected qBittorrent, got {other:?}"),
    }
}

#[test]
fn blank_qbit_credentials_skip_login() {
    let mut c = Config::default();
    c.qbit_url = "http://localhost:8080".to_string();
    let mut client = TorrentClient::from_config(&c);
    match client.start(ClientOp::Call(ClientCall::PauseAll)) {
        ClientStep::Send(_, _) => {}
        ClientStep::Done(o) => panic!("expected a request, got {o:?}"),
    }
}

#[test]
fn connection_test_outcome_names_product() {
    let mut c = Config::default();
    c.qbit_url = "http://localhost:8080".to_string();
    let mut client = TorrentClient::from_config(&c);
    let ex = match client.start(ClientOp::TestConnection) {
        ClientStep::Send(ex, _) => ex,
        ClientStep::Done(o) => panic!("expected a request, got {o:?}"),
    };
    let response = ClientResponse::Qbit(QbitResponse::Http {
        status: HttpStatus::from_code(200).unwrap(),
        body: Ok(" v5.0.2\n".to_string()),
    });
    match client.on_response(ex, response) {
        ClientStep::Done(ClientOutcome::Tested(Ok(s))) => assert_eq!(s, "qBittorrent v5.0.2"),
        other => panic!("unexpected {other:?}"),
    }
    let ex = match client.start(ClientOp::Call(ClientCall::ResumeAll)) {
        ClientStep::Send(ex, _) => ex,
        ClientStep::Done(o) => panic!("expected a request, got {o:?}"),
    };
    match client.on_response(ex, ClientResponse::Qbit(QbitResponse::Transport("down".to_string()))) {
        ClientStep::Done(ClientOutcome::Reply(ClientReply::Done(Err(e)))) => {
            assert_eq!(e, "Request failed: down")
        }
        other => panic!("unexpected {other:?}"),
    }
}

#[test]
fn ps_output_becomes_names() {
    assert_eq!(
        process_names("systemd\n  steam \r\n\n   \nkworker/0:1\nlast"),
        vec!["systemd".to_string(), "steam".to_string(), "kworker/0:1".to_string(), "last".to_string()]
    );
    assert!(process_names("").is_empty());
}

#[test]
fn flatpak_detection_follows_info_file() {
    assert_eq!(is_flatpak(), std::path::Path::new("/.flatpak-info").exists());
}

#[test]
fn tray_menu_and_tooltip() {
    let mut tray = QbitTray {
        enabled: true,
        engaged: false,
        status_text: "Monitoring".to_string(),
        throttle_text: Some("Throttle: 100/50 KB/s".to_string()),
        error_text: Some("oops".to_string()),
    };
    assert_eq!(tray.icon_name(), "network-transmit-receive-symbolic");
    assert_eq!(tray.tool_tip_description(), "Monitoring\nThrottle: 100/50 KB/s\noops");
    let menu = tray.menu();
    assert_eq!(menu.len(), 8);
    assert!(matches!(menu[0], TrayMenuItem::Checkmark { label: TrayLabel::Monitoring, checked: true }));
    assert!(matches!(&menu[4], TrayMenuItem::Info { icon_name: Some(i), .. } if i == "dialog-error-symbolic"));
    assert!(matches!(menu[7], TrayMenuItem::Action { event: TrayEvent::Quit, .. }));
    assert_eq!(tray.toggle_monitoring(), TrayEvent::ToggleMonitoring(false));
    assert_eq!(tray.icon_name(), "network-disconnected-symbolic");
}
