use torrent_throttle::config::{ActionMode, ClientKind, Config};
use torrent_throttle::settings::{
    AppModel, ConnectionStatus, ContextPage, MenuAction, Message, MonitoringKey,
};

fn model() -> AppModel {
    let mut c = Config::default();
    c.throttle_download_kbps = 250;
    AppModel::new(c)
}

#[test]
fn throttle_inputs_show_stored_values() {
    let m = model();
    assert_eq!(m.throttle_dl_input, "250");
    assert_eq!(m.throttle_ul_input, "0");
}

#[test]
fn patterns_are_trimmed_and_not_duplicated() {
    let mut m = model();
    m.handle_message(Message::SetNewPattern("  steam ".to_string()));
    let e = m.handle_message(Message::AddPattern(String::new()));
    assert!(e.save_config);
    assert_eq!(m.config.patterns, vec!["steam".to_string()]);
    assert_eq!(m.new_pattern, "");
    let e = m.handle_message(Message::AddPattern("steam".to_string()));
    assert!(!e.save_config);
    let e = m.handle_message(Message::AddPattern("   ".to_string()));
    assert!(!e.save_config);
    m.handle_message(Message::AddPattern("dota".to_string()));
    assert_eq!(m.config.patterns, vec!["steam".to_string(), "dota".to_string()]);
    let e = m.handle_message(Message::RemovePattern(5));
    assert!(!e.save_config);
    m.handle_message(Message::RemovePattern(0));
    assert_eq!(m.config.patterns, vec!["dota".to_string()]);
}

#[test]
fn throttle_input_is_stored_only_when_numeric() {
    let mut m = model();
    let e = m.handle_message(Message::SetThrottleDownload("12x".to_string()));
    assert!(!e.save_config);
    assert_eq!(m.throttle_dl_input, "12x");
    assert_eq!(m.config.throttle_download_kbps, 250);
    let e = m.handle_message(Message::SetThrottleUpload("+64".to_string()));
    assert!(e.save_config);
    assert_eq!(m.config.throttle_upload_kbps, 64);
    let e = m.handle_message(Message::SetThrottleUpload("18446744073709551616".to_string()));
    assert!(!e.save_config);
    assert_eq!(m.config.throttle_upload_kbps, 64);
}

#[test]
fn settings_changes_are_saved() {
    let mut m = model();
    assert!(m.handle_message(Message::SetQbitUrl("http://x".to_string())).save_config);
    assert!(m.handle_message(Message::SetQbitUsername("u".to_string())).save_config);
    assert!(m.handle_message(Message::SetQbitPassword("p".to_string())).save_config);
    assert!(m.handle_message(Message::ToggleEnabled(true)).save_config);
    assert!(m.handle_message(Message::SetActionMode(ActionMode::Throttle)).save_config);
    assert!(m.handle_message(Message::SelectClient(2)).save_config);
    assert_eq!(m.config.client_kind, ClientKind::Transmission);
    assert!(!m.handle_message(Message::SelectClient(3)).save_config);
    assert_eq!(m.config.qbit_url, "http://x");
    assert!(m.config.enabled);
    assert_eq!(m.monitoring_description(), MonitoringKey::NoPatterns);
}

#[test]
fn connection_test_tracks_status() {
    let mut m = model();
    let e = m.handle_message(Message::TestConnection);
    assert!(e.test_connection.is_some());
    assert!(matches!(m.connection_status, Some(ConnectionStatus::Testing)));
    m.handle_message(Message::ConnectionResult(Ok("qBittorrent v5.0.2".to_string())));
    assert!(matches!(&m.connection_status, Some(ConnectionStatus::Connected(v)) if v == "qBittorrent v5.0.2"));
    m.handle_message(Message::ConnectionResult(Err("Authentication failed".to_string())));
    assert!(matches!(&m.connection_status, Some(ConnectionStatus::Failed(e)) if e == "Authentication failed"));
}

#[test]
fn about_page_toggles() {
    let mut m = model();
    let msg = MenuAction::About.message();
    assert!(matches!(msg, Message::ToggleContextPage(ContextPage::About)));
    m.handle_message(msg);
    assert!(m.show_context);
    m.handle_message(Message::ToggleContextPage(ContextPage::About));
    assert!(!m.show_context);
    let e = m.handle_message(Message::LaunchUrl("https://example.org".to_string()));
    assert_eq!(e.launch_url.as_deref(), Some("https://example.org"));
}
