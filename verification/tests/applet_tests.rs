use torrent_throttle::applet::{
    first_run_wings, millis_to_u64, panel_config_id, panel_names, plan_panel, wings_without_applet,
    placement_writes, AppletMessage, AppletModel, AppletTask, PanelPlan, PanelRead, PanelWrite,
    StatusKey,
};
use torrent_throttle::client::SpeedLimits;
use torrent_throttle::config::{ActionMode, Config, MonitorState, QuitSignal};
use torrent_throttle::engine::{ActionTaken, MonitorResult};

const APPLET: &str = "io.github.BlakeGardner.cosmic-ext-applet-torrent-throttle.Applet";

fn config() -> Config {
    let mut c = Config::default();
    c.qbit_url = "http://localhost:8080".to_string();
    c.patterns = vec!["steam".to_string()];
    c.enabled = true;
    c.poll_interval_secs = 2;
    c.action_mode = ActionMode::Throttle;
    c
}

fn leader() -> AppletModel {
    AppletModel::new(config(), true, 1_000, MonitorState::default())
}

fn result(action: ActionTaken, saved: Option<SpeedLimits>) -> MonitorResult {
    MonitorResult {
        matched_processes: vec!["steam".to_string()],
        action_taken: action,
        saved_limits: saved,
        error: None,
    }
}

#[test]
fn tick_runs_a_cycle_only_when_monitoring() {
    let mut m = leader();
    match m.update(AppletMessage::Tick).task {
        AppletTask::RunCycle { was_engaged, saved_limits, .. } => {
            assert!(!was_engaged);
            assert_eq!(saved_limits, None);
        }
        other => panic!("expected a cycle, got {other:?}"),
    }
    m.config.enabled = false;
    assert!(matches!(m.update(AppletMessage::Tick).task, AppletTask::Idle));
}

#[test]
fn throttle_result_is_kept_until_restored() {
    let mut m = leader();
    let limits = SpeedLimits { download: 7, upload: 8 };
    let e = m.update(AppletMessage::MonitorTick(result(ActionTaken::Throttled, Some(limits))));
    assert!(e.save_state);
    assert!(m.is_engaged);
    assert_eq!(m.saved_limits, Some(limits));
    assert_eq!(m.status(), StatusKey::Throttled);
    assert_eq!(m.icon_name(), "media-playback-pause-symbolic");
    match m.update(AppletMessage::Tick).task {
        AppletTask::RunCycle { was_engaged, saved_limits, .. } => {
            assert!(was_engaged);
            assert_eq!(saved_limits, Some(limits));
        }
        other => panic!("expected a cycle, got {other:?}"),
    }
    m.update(AppletMessage::MonitorTick(result(ActionTaken::Unthrottled, None)));
    assert!(!m.is_engaged);
    assert_eq!(m.saved_limits, None);
}

#[test]
fn disabling_while_engaged_disengages() {
    let mut m = leader();
    let limits = SpeedLimits { download: 1, upload: 2 };
    m.update(AppletMessage::MonitorTick(result(ActionTaken::Throttled, Some(limits))));
    let e = m.update(AppletMessage::ToggleMonitoring(false));
    assert!(e.save_config);
    match e.task {
        AppletTask::Disengage { config, saved_limits } => {
            assert!(!config.enabled);
            assert_eq!(saved_limits, Some(limits));
        }
        other => panic!("expected disengage, got {other:?}"),
    }
    assert_eq!(m.saved_limits, None);
}

#[test]
fn mode_change_while_engaged_disengages_with_old_mode() {
    let mut m = leader();
    m.update(AppletMessage::MonitorTick(result(ActionTaken::Throttled, None)));
    let mut new_config = config();
    new_config.action_mode = ActionMode::Pause;
    match m.update(AppletMessage::UpdateConfig(new_config)).task {
        AppletTask::Disengage { config, .. } => assert_eq!(config.action_mode, ActionMode::Throttle),
        other => panic!("expected disengage, got {other:?}"),
    }
    assert_eq!(m.config.action_mode, ActionMode::Pause);
}

#[test]
fn quit_restores_then_exits_and_stale_quits_are_ignored() {
    let mut m = leader();
    m.update(AppletMessage::MonitorTick(result(ActionTaken::Paused, None)));
    assert!(matches!(
        m.update(AppletMessage::QuitRequested(QuitSignal { quit_at_millis: 999 })).task,
        AppletTask::Idle
    ));
    let e = m.update(AppletMessage::Quit);
    assert!(e.broadcast_quit);
    assert!(matches!(e.task, AppletTask::DisengageThenExit { .. }));

    let mut f = AppletModel::new(config(), false, 1_000, MonitorState::default());
    assert!(matches!(
        f.update(AppletMessage::QuitRequested(QuitSignal { quit_at_millis: 1_001 })).task,
        AppletTask::Exit
    ));
}

#[test]
fn follower_mirrors_published_state() {
    let mut m = leader();
    m.update(AppletMessage::MonitorTick(MonitorResult {
        matched_processes: vec!["steam".to_string()],
        action_taken: ActionTaken::Paused,
        saved_limits: None,
        error: Some("Request failed: x".to_string()),
    }));
    let state = m.state_snapshot();
    let mut f = AppletModel::new(config(), false, 5, MonitorState::default());
    f.update(AppletMessage::UpdateState(state.clone()));
    assert!(f.is_engaged);
    assert_eq!(f.matched_processes, vec!["steam".to_string()]);
    assert_eq!(f.last_error.as_deref(), Some("Request failed: x"));
    let f2 = AppletModel::new(config(), false, 5, state);
    assert!(f2.is_engaged);
    assert!(f2.subscriptions().watch_monitor_state);
    assert_eq!(f2.subscriptions().tick_every_secs, None);
}

#[test]
fn restarted_leader_keeps_saved_limits() {
    let mut m = leader();
    let limits = SpeedLimits { download: 300, upload: 400 };
    m.update(AppletMessage::MonitorTick(result(ActionTaken::Throttled, Some(limits))));
    let state = m.state_snapshot();
    assert!(state.has_saved_limits);
    assert_eq!(state.saved_download_limit, 300);
    let restarted = AppletModel::new(config(), true, 2_000, state);
    assert!(restarted.is_engaged);
    assert_eq!(restarted.saved_limits, Some(limits));
    assert!(restarted.matched_processes.is_empty());
}

#[test]
fn leader_ticks_at_least_every_five_seconds() {
    let m = leader();
    assert_eq!(m.subscriptions().tick_every_secs, Some(5));
    let mut m2 = leader();
    m2.config.poll_interval_secs = 30;
    assert_eq!(m2.subscriptions().tick_every_secs, Some(30));
    m2.config.patterns.clear();
    assert_eq!(m2.subscriptions().tick_every_secs, None);
    assert_eq!(m2.status(), StatusKey::NoPatterns);
}

#[test]
fn every_instance_watches_config_quit_and_sigterm() {
    let mut leader_off = leader();
    leader_off.config.enabled = false;
    let follower = AppletModel::new(config(), false, 5, MonitorState::default());
    for m in [leader(), leader_off, follower] {
        let plan = m.subscriptions();
        assert!(plan.watch_config);
        assert!(plan.quit_on_sigterm);
        assert!(plan.watch_quit_signal);
    }
    assert!(!leader().subscriptions().watch_monitor_state);
}

#[test]
fn popup_lists_matches_throttle_and_error() {
    let mut m = leader();
    m.config.throttle_download_kbps = 100;
    m.update(AppletMessage::MonitorTick(MonitorResult {
        matched_processes: vec!["steam".to_string(), "dota2".to_string()],
        action_taken: ActionTaken::NoAction,
        saved_limits: None,
        error: Some("oops".to_string()),
    }));
    let p = m.popup_content();
    assert_eq!(p.status, StatusKey::Running);
    assert_eq!(p.matched_line.as_deref(), Some("steam, dota2"));
    assert_eq!(p.throttle, Some((100, 0)));
    assert_eq!(p.error.as_deref(), Some("oops"));
}

#[test]
fn popup_toggles_and_settings_close_it() {
    let mut m = leader();
    assert!(matches!(m.update(AppletMessage::TogglePopup).task, AppletTask::CreatePopup));
    m.update(AppletMessage::PopupOpened(7));
    let e = m.update(AppletMessage::OpenSettings);
    assert!(e.open_settings);
    assert!(matches!(e.task, AppletTask::DestroyPopup(7)));
    assert_eq!(m.popup, None);
}

#[test]
fn panel_lists_are_stripped_and_first_run_adds_applet() {
    let wings = (vec!["a".to_string(), APPLET.to_string()], vec!["b".to_string()]);
    let (l, r) = wings_without_applet(&wings);
    assert_eq!(l, vec!["a".to_string()]);
    assert_eq!(r, vec!["b".to_string()]);
    match plan_panel(Some(wings), None) {
        PanelPlan::RespawnWings { listed, without } => {
            assert_eq!(listed.0.len(), 2);
            assert_eq!(without.0, vec!["a".to_string()]);
        }
        other => panic!("expected wings toggle, got {other:?}"),
    }
    match plan_panel(None, Some(vec![APPLET.to_string()])) {
        PanelPlan::RespawnCenter { without, .. } => assert!(without.is_empty()),
        other => panic!("expected center toggle, got {other:?}"),
    }
    assert!(matches!(plan_panel(None, None), PanelPlan::NotListed));
    let (l, r) = first_run_wings(Some((vec!["x".to_string()], vec!["y".to_string()])));
    assert_eq!(l, vec!["x".to_string()]);
    assert_eq!(r, vec![APPLET.to_string(), "y".to_string()]);
    assert_eq!(panel_names(None), vec!["Panel".to_string()]);
    assert_eq!(panel_config_id("Dock"), "com.system76.CosmicPanel.Dock");
}

#[test]
fn millis_truncate_like_as_cast() {
    assert_eq!(millis_to_u64(None), 0);
    assert_eq!(millis_to_u64(Some(42)), 42);
    assert_eq!(millis_to_u64(Some((1u128 << 64) + 3)), 3);
}

fn panel(name: &str, wings: Option<(Vec<String>, Vec<String>)>, center: Option<Vec<String>>) -> PanelRead {
    PanelRead { name: name.to_string(), lists: Some((wings, center)) }
}

#[test]
fn placement_skips_respawns_or_adds_on_first_run() {
    let listed = panel("Dock", None, Some(vec![APPLET.to_string(), "x".to_string()]));
    let unlisted = panel("Panel", Some((vec!["a".to_string()], vec!["b".to_string()])), None);
    // An applet instance already runs: nothing is written.
    assert!(placement_writes(true, &vec![listed]).is_empty());
    // Only the panel that lists the applet is toggled.
    let listed = panel("Dock", None, Some(vec![APPLET.to_string(), "x".to_string()]));
    let unlisted2 = panel("Panel", Some((vec!["a".to_string()], vec!["b".to_string()])), None);
    let writes = placement_writes(false, &vec![unlisted2, listed]);
    assert_eq!(writes.len(), 1);
    match &writes[0] {
        PanelWrite::Respawn { panel, plan: PanelPlan::RespawnCenter { without, .. } } => {
            assert_eq!(panel, "Dock");
            assert_eq!(without, &vec!["x".to_string()]);
        }
        other => panic!("unexpected write {other:?}"),
    }
    // No panel lists it: it is added first on the right of the first panel.
    let closed = PanelRead { name: "Other".to_string(), lists: None };
    let writes = placement_writes(false, &vec![unlisted, closed]);
    assert_eq!(writes.len(), 1);
    match &writes[0] {
        PanelWrite::AddToWings { panel, wings } => {
            assert_eq!(panel, "Panel");
            assert_eq!(wings.0, vec!["a".to_string()]);
            assert_eq!(wings.1, vec![APPLET.to_string(), "b".to_string()]);
        }
        other => panic!("unexpected write {other:?}"),
    }
    // The first panel's settings could not be opened: nothing to add to.
    let closed = PanelRead { name: "Other".to_string(), lists: None };
    assert!(placement_writes(false, &vec![closed]).is_empty());
}
