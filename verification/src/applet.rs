//! The panel applet's decisions.
//!
//! The panel spawns one applet process per panel/output. Only the process
//! holding the leader lock runs the monitoring engine; the others mirror its
//! state. [`AppletModel::update`] is the applet's state machine: it takes a
//! message, changes the model and says what the caller must do (run a
//! cycle, disengage, save, exit). Windows, timers and storage are handled
//! outside this crate.

use vstd::prelude::*;
use vstd::string::*;
use crate::client::SpeedLimits;
use crate::config::{ActionMode, Config, ConfigView, MonitorState, MonitorStateView, QuitSignal, clone_strings};
use crate::engine::{ActionTaken, MonitorResult, MonitorResultView, opt_view};
use crate::text::{join, join_strings, views};

verus! {

/// Desktop entry ID the panel uses to spawn the applet.
pub open spec fn applet_id() -> Seq<char> {
    "io.github.BlakeGardner.cosmic-ext-applet-torrent-throttle.Applet"@
}

/// Config ID shared with the settings application.
pub open spec fn config_id() -> Seq<char> {
    "io.github.BlakeGardner.cosmic-ext-applet-torrent-throttle"@
}

/// Desktop entry ID the panel uses to spawn the applet.
pub fn applet_id_string() -> (res: String)
    ensures
        res@ == applet_id(),
{
    String::from_str("io.github.BlakeGardner.cosmic-ext-applet-torrent-throttle.Applet")
}

/// Config ID shared with the settings application.
pub fn config_id_string() -> (res: String)
    ensures
        res@ == config_id(),
{
    String::from_str("io.github.BlakeGardner.cosmic-ext-applet-torrent-throttle")
}

/// The applet's state.
#[derive(Debug)]
pub struct AppletModel {
    pub config: Config,
    /// Whether this instance holds the leader lock and runs the engine.
    pub is_leader: bool,
    /// Used to ignore quit broadcasts that predate this instance.
    pub started_at_millis: u64,
    pub is_engaged: bool,
    pub saved_limits: Option<SpeedLimits>,
    pub matched_processes: Vec<String>,
    pub last_error: Option<String>,
    /// The open popup window, if any.
    pub popup: Option<u64>,
}

/// The plain value of an [`AppletModel`].
pub struct AppletView {
    pub config: ConfigView,
    pub is_leader: bool,
    pub started_at_millis: u64,
    pub is_engaged: bool,
    pub saved_limits: Option<SpeedLimits>,
    pub matched_processes: Seq<Seq<char>>,
    pub last_error: Option<Seq<char>>,
    pub popup: Option<u64>,
}

impl View for AppletModel {
    type V = AppletView;

    open spec fn view(&self) -> AppletView {
        AppletView {
            config: self.config@,
            is_leader: self.is_leader,
            started_at_millis: self.started_at_millis,
            is_engaged: self.is_engaged,
            saved_limits: self.saved_limits,
            matched_processes: views(self.matched_processes@),
            last_error: opt_view(self.last_error),
            popup: self.popup,
        }
    }
}

/// Messages the applet reacts to.
#[derive(Debug)]
pub enum AppletMessage {
    TogglePopup,
    /// The popup window asked for by `CreatePopup` was opened with this id.
    PopupOpened(u64),
    CloseRequested(u64),
    ToggleMonitoring(bool),
    UpdateConfig(Config),
    UpdateState(MonitorState),
    QuitRequested(QuitSignal),
    Tick,
    MonitorTick(MonitorResult),
    OpenSettings,
    Quit,
}

/// The plain value of an [`AppletMessage`].
pub enum AppletMessageView {
    TogglePopup,
    PopupOpened(u64),
    CloseRequested(u64),
    ToggleMonitoring(bool),
    UpdateConfig(ConfigView),
    UpdateState(MonitorStateView),
    QuitRequested(QuitSignal),
    Tick,
    MonitorTick(MonitorResultView),
    OpenSettings,
    Quit,
}

impl View for AppletMessage {
    type V = AppletMessageView;

    open spec fn view(&self) -> AppletMessageView {
        match self {
            AppletMessage::TogglePopup => AppletMessageView::TogglePopup,
            AppletMessage::PopupOpened(id) => AppletMessageView::PopupOpened(*id),
            AppletMessage::CloseRequested(id) => AppletMessageView::CloseRequested(*id),
            AppletMessage::ToggleMonitoring(b) => AppletMessageView::ToggleMonitoring(*b),
            AppletMessage::UpdateConfig(c) => AppletMessageView::UpdateConfig(c@),
            AppletMessage::UpdateState(s) => AppletMessageView::UpdateState(s@),
            AppletMessage::QuitRequested(q) => AppletMessageView::QuitRequested(*q),
            AppletMessage::Tick => AppletMessageView::Tick,
            AppletMessage::MonitorTick(r) => AppletMessageView::MonitorTick(r@),
            AppletMessage::OpenSettings => AppletMessageView::OpenSettings,
            AppletMessage::Quit => AppletMessageView::Quit,
        }
    }
}

/// The long-running work the caller must start after an update.
#[derive(Debug)]
pub enum AppletTask {
    Idle,
    CreatePopup,
    DestroyPopup(u64),
    /// Run one monitoring cycle and deliver its result as `MonitorTick`.
    RunCycle { config: Config, was_engaged: bool, saved_limits: Option<SpeedLimits> },
    /// Disengage and deliver the result as `MonitorTick`.
    Disengage { config: Config, saved_limits: Option<SpeedLimits> },
    /// Disengage (best effort), then exit.
    DisengageThenExit { config: Config, saved_limits: Option<SpeedLimits> },
    Exit,
}

/// The plain value of an [`AppletTask`].
pub enum AppletTaskView {
    Idle,
    CreatePopup,
    DestroyPopup(u64),
    RunCycle(ConfigView, bool, Option<SpeedLimits>),
    Disengage(ConfigView, Option<SpeedLimits>),
    DisengageThenExit(ConfigView, Option<SpeedLimits>),
    Exit,
}

impl View for AppletTask {
    type V = AppletTaskView;

    open spec fn view(&self) -> AppletTaskView {
        match self {
            AppletTask::Idle => AppletTaskView::Idle,
            AppletTask::CreatePopup => AppletTaskView::CreatePopup,
            AppletTask::DestroyPopup(id) => AppletTaskView::DestroyPopup(*id),
            AppletTask::RunCycle { config, was_engaged, saved_limits } => AppletTaskView::RunCycle(
                config@,
                *was_engaged,
                *saved_limits,
            ),
            AppletTask::Disengage { config, saved_limits } => AppletTaskView::Disengage(
                config@,
                *saved_limits,
            ),
            AppletTask::DisengageThenExit { config, saved_limits } => AppletTaskView::DisengageThenExit(
                config@,
                *saved_limits,
            ),
            AppletTask::Exit => AppletTaskView::Exit,
        }
    }
}

/// Everything the caller must do after an update.
#[derive(Debug)]
pub struct AppletEffects {
    pub task: AppletTask,
    /// Write the configuration back to storage.
    pub save_config: bool,
    /// Publish [`AppletModel::state_snapshot`] for the other instances.
    pub save_state: bool,
    /// Tell every other instance to quit.
    pub broadcast_quit: bool,
    /// Launch the settings window.
    pub open_settings: bool,
}

/// The plain value of an [`AppletEffects`].
pub struct EffectsView {
    pub task: AppletTaskView,
    pub save_config: bool,
    pub save_state: bool,
    pub broadcast_quit: bool,
    pub open_settings: bool,
}

impl View for AppletEffects {
    type V = EffectsView;

    open spec fn view(&self) -> EffectsView {
        EffectsView {
            task: self.task@,
            save_config: self.save_config,
            save_state: self.save_state,
            broadcast_quit: self.broadcast_quit,
            open_settings: self.open_settings,
        }
    }
}

/// Effects that only start `task`.
pub open spec fn only(task: AppletTaskView) -> EffectsView {
    EffectsView {
        task,
        save_config: false,
        save_state: false,
        broadcast_quit: false,
        open_settings: false,
    }
}

/// The model after a message, and what the caller must do.
pub open spec fn update_spec(m: AppletView, msg: AppletMessageView) -> (AppletView, EffectsView) {
    match msg {
        AppletMessageView::TogglePopup => match m.popup {
            Some(id) => (AppletView { popup: None, ..m }, only(AppletTaskView::DestroyPopup(id))),
            None => (m, only(AppletTaskView::CreatePopup)),
        },
        AppletMessageView::PopupOpened(id) => (AppletView { popup: Some(id), ..m }, only(AppletTaskView::Idle)),
        AppletMessageView::CloseRequested(id) => if m.popup == Some(id) {
            (AppletView { popup: None, ..m }, only(AppletTaskView::Idle))
        } else {
            (m, only(AppletTaskView::Idle))
        },
        AppletMessageView::ToggleMonitoring(enabled) => {
            let m1 = AppletView { config: ConfigView { enabled, ..m.config }, ..m };
            if m.is_leader && !enabled && m.is_engaged {
                (
                    AppletView { saved_limits: None, ..m1 },
                    EffectsView {
                        save_config: true,
                        ..only(AppletTaskView::Disengage(m1.config, m.saved_limits))
                    },
                )
            } else {
                (m1, EffectsView { save_config: true, ..only(AppletTaskView::Idle) })
            }
        },
        AppletMessageView::UpdateConfig(c) => if m.is_leader && m.is_engaged
            && m.config.action_mode != c.action_mode {
            // Disengage with the old mode's semantics before adopting the new config.
            (
                AppletView { config: c, saved_limits: None, ..m },
                only(AppletTaskView::Disengage(m.config, m.saved_limits)),
            )
        } else if m.is_leader && m.is_engaged && !c.enabled {
            (
                AppletView { config: c, saved_limits: None, ..m },
                only(AppletTaskView::Disengage(c, m.saved_limits)),
            )
        } else {
            (AppletView { config: c, ..m }, only(AppletTaskView::Idle))
        },
        AppletMessageView::UpdateState(s) => if !m.is_leader {
            (
                AppletView {
                    is_engaged: s.is_engaged,
                    matched_processes: s.matched_processes,
                    last_error: if s.last_error.len() > 0 {
                        Some(s.last_error)
                    } else {
                        None
                    },
                    ..m
                },
                only(AppletTaskView::Idle),
            )
        } else {
            (m, only(AppletTaskView::Idle))
        },
        AppletMessageView::QuitRequested(q) => if q.quit_at_millis > m.started_at_millis {
            exit_spec(m)
        } else {
            (m, only(AppletTaskView::Idle))
        },
        AppletMessageView::Tick => if !m.config.enabled || m.config.patterns.len() == 0 {
            (m, only(AppletTaskView::Idle))
        } else {
            (m, only(AppletTaskView::RunCycle(m.config, m.is_engaged, m.saved_limits)))
        },
        AppletMessageView::MonitorTick(r) => {
            let saved = if r.saved_limits is Some {
                r.saved_limits
            } else {
                m.saved_limits
            };
            let m1 = AppletView {
                matched_processes: r.matched_processes,
                last_error: r.error,
                saved_limits: saved,
                ..m
            };
            let m2 = match r.action_taken {
                ActionTaken::Paused | ActionTaken::Throttled => AppletView { is_engaged: true, ..m1 },
                ActionTaken::Resumed | ActionTaken::Unthrottled => AppletView {
                    is_engaged: false,
                    saved_limits: None,
                    ..m1
                },
                ActionTaken::NoAction => m1,
            };
            (m2, EffectsView { save_state: true, ..only(AppletTaskView::Idle) })
        },
        AppletMessageView::OpenSettings => match m.popup {
            Some(id) => (
                AppletView { popup: None, ..m },
                EffectsView { open_settings: true, ..only(AppletTaskView::DestroyPopup(id)) },
            ),
            None => (m, EffectsView { open_settings: true, ..only(AppletTaskView::Idle) }),
        },
        AppletMessageView::Quit => {
            let (m1, e) = exit_spec(m);
            (m1, EffectsView { broadcast_quit: true, ..e })
        },
    }
}

/// Exiting: the leader first restores torrents if they are engaged.
pub open spec fn exit_spec(m: AppletView) -> (AppletView, EffectsView) {
    if m.is_leader && m.is_engaged {
        (
            AppletView { saved_limits: None, ..m },
            only(AppletTaskView::DisengageThenExit(m.config, m.saved_limits)),
        )
    } else {
        (m, only(AppletTaskView::Exit))
    }
}

/// The state the leader publishes.
pub open spec fn snapshot_spec(m: AppletView) -> MonitorStateView {
    MonitorStateView {
        is_engaged: m.is_engaged,
        matched_processes: m.matched_processes,
        last_error: match m.last_error {
            Some(e) => e,
            None => Seq::empty(),
        },
        has_saved_limits: m.saved_limits is Some,
        saved_download_limit: match m.saved_limits {
            Some(l) => l.download,
            None => 0,
        },
        saved_upload_limit: match m.saved_limits {
            Some(l) => l.upload,
            None => 0,
        },
    }
}

/// The model a new instance starts with, given the state last published.
/// A follower mirrors it; the leader takes over whether torrents are
/// engaged and the limits saved before a throttle, so that a restart while
/// throttled still restores them, and starts with no matches and no error.
pub open spec fn init_spec(
    config: ConfigView,
    is_leader: bool,
    started_at_millis: u64,
    persisted: MonitorStateView,
) -> AppletView {
    if is_leader {
        AppletView {
            config,
            is_leader,
            started_at_millis,
            is_engaged: persisted.is_engaged,
            saved_limits: if persisted.has_saved_limits {
                Some(
                    SpeedLimits {
                        download: persisted.saved_download_limit,
                        upload: persisted.saved_upload_limit,
                    },
                )
            } else {
                None
            },
            matched_processes: Seq::empty(),
            last_error: None,
            popup: None,
        }
    } else {
        AppletView {
            config,
            is_leader,
            started_at_millis,
            is_engaged: persisted.is_engaged,
            saved_limits: None,
            matched_processes: persisted.matched_processes,
            last_error: if persisted.last_error.len() > 0 {
                Some(persisted.last_error)
            } else {
                None
            },
            popup: None,
        }
    }
}

fn effects(task: AppletTask) -> (res: AppletEffects)
    ensures
        res@ == only(task@),
{
    AppletEffects {
        task,
        save_config: false,
        save_state: false,
        broadcast_quit: false,
        open_settings: false,
    }
}

fn clone_opt_string(s: &Option<String>) -> (res: Option<String>)
    ensures
        opt_view(res) == opt_view(*s),
{
    match s {
        Some(x) => Some(x.clone()),
        None => None,
    }
}

/// Which icon the panel shows.
pub open spec fn icon_spec(enabled: bool, engaged: bool) -> Seq<char> {
    if !enabled {
        "network-disconnected-symbolic"@
    } else if engaged {
        "media-playback-pause-symbolic"@
    } else {
        "network-transmit-receive-symbolic"@
    }
}

/// The status line shown in the popup, as a message to localize.
#[derive(Debug, Clone, Copy, PartialEq, Eq, Structural)]
pub enum StatusKey {
    Disabled,
    NoPatterns,
    Paused,
    Throttled,
    Running,
}

/// Which status the popup shows.
pub open spec fn status_spec(m: AppletView) -> StatusKey {
    if !m.config.enabled {
        StatusKey::Disabled
    } else if m.config.patterns.len() == 0 {
        StatusKey::NoPatterns
    } else if m.is_engaged {
        match m.config.action_mode {
            ActionMode::Pause => StatusKey::Paused,
            ActionMode::Throttle => StatusKey::Throttled,
        }
    } else {
        StatusKey::Running
    }
}

/// What the popup lists below the monitoring toggle.
#[derive(Debug)]
pub struct PopupContent {
    pub status: StatusKey,
    /// The matched processes, joined by ", ", when there are any.
    pub matched_line: Option<String>,
    /// The configured throttle (download, upload KB/s) in throttle mode.
    pub throttle: Option<(u64, u64)>,
    pub error: Option<String>,
}

/// The timers and watches the applet needs.
#[derive(Debug, Clone, Copy, PartialEq, Eq, Structural)]
pub struct SubscriptionPlan {
    /// Watch the stored configuration and answer changes with `UpdateConfig`.
    pub watch_config: bool,
    /// Answer SIGTERM (e.g. the panel shutting down) with `Quit`.
    pub quit_on_sigterm: bool,
    /// Watch the quit broadcast and answer it with `QuitRequested`.
    pub watch_quit_signal: bool,
    /// Poll interval of the monitoring tick, when the applet ticks.
    pub tick_every_secs: Option<u64>,
    /// Whether to mirror the leader's published state.
    pub watch_monitor_state: bool,
}

/// Every instance watches the configuration and the quit broadcast and
/// quits on SIGTERM. The leader also ticks, at least five seconds apart,
/// while monitoring is on and patterns are set; followers instead watch the
/// leader's state.
pub open spec fn subscription_spec(m: AppletView) -> SubscriptionPlan {
    SubscriptionPlan {
        watch_config: true,
        quit_on_sigterm: true,
        watch_quit_signal: true,
        tick_every_secs: if m.is_leader && m.config.enabled && m.config.patterns.len() > 0 {
            Some(
                if m.config.poll_interval_secs < 5 {
                    5
                } else {
                    m.config.poll_interval_secs
                },
            )
        } else {
            None
        },
        watch_monitor_state: !m.is_leader,
    }
}

impl AppletModel {
    /// A new instance's model; see [`init_spec`].
    pub fn new(config: Config, is_leader: bool, started_at_millis: u64, persisted: MonitorState) -> (res:
        AppletModel)
        ensures
            res@ == init_spec(config@, is_leader, started_at_millis, persisted@),
    {
        if is_leader {
            let saved_limits = if persisted.has_saved_limits {
                Some(
                    SpeedLimits {
                        download: persisted.saved_download_limit,
                        upload: persisted.saved_upload_limit,
                    },
                )
            } else {
                None
            };
            let res = AppletModel {
                config,
                is_leader,
                started_at_millis,
                is_engaged: persisted.is_engaged,
                saved_limits,
                matched_processes: Vec::new(),
                last_error: None,
                popup: None,
            };
            proof {
                assert(res@.matched_processes =~= Seq::<Seq<char>>::empty());
            }
            res
        } else {
            let last_error = if persisted.last_error.unicode_len() > 0 {
                Some(persisted.last_error)
            } else {
                None
            };
            AppletModel {
                config,
                is_leader,
                started_at_millis,
                is_engaged: persisted.is_engaged,
                saved_limits: None,
                matched_processes: persisted.matched_processes,
                last_error,
                popup: None,
            }
        }
    }

    /// Whether this instance runs the monitoring engine.
    pub fn is_leader(&self) -> (res: bool)
        ensures
            res == self.is_leader,
    {
        self.is_leader
    }

    /// The state the leader publishes for the other instances.
    pub fn state_snapshot(&self) -> (res: MonitorState)
        ensures
            res@ == snapshot_spec(self@),
    {
        let last_error = match &self.last_error {
            Some(e) => e.clone(),
            None => String::new(),
        };
        let (has, down, up) = match self.saved_limits {
            Some(l) => (true, l.download, l.upload),
            None => (false, 0, 0),
        };
        MonitorState {
            is_engaged: self.is_engaged,
            matched_processes: clone_strings(&self.matched_processes),
            last_error,
            has_saved_limits: has,
            saved_download_limit: down,
            saved_upload_limit: up,
        }
    }

    /// The icon name for the panel button.
    pub fn icon_name(&self) -> (res: String)
        ensures
            res@ == icon_spec(self.config.enabled, self.is_engaged),
    {
        if !self.config.enabled {
            String::from_str("network-disconnected-symbolic")
        } else if self.is_engaged {
            String::from_str("media-playback-pause-symbolic")
        } else {
            String::from_str("network-transmit-receive-symbolic")
        }
    }

    /// Which status the popup shows.
    pub fn status(&self) -> (res: StatusKey)
        ensures
            res == status_spec(self@),
    {
        if !self.config.enabled {
            StatusKey::Disabled
        } else if self.config.patterns.len() == 0 {
            StatusKey::NoPatterns
        } else if self.is_engaged {
            match self.config.action_mode {
                ActionMode::Pause => StatusKey::Paused,
                ActionMode::Throttle => StatusKey::Throttled,
            }
        } else {
            StatusKey::Running
        }
    }

    /// What the popup lists: the status, the matched processes joined by
    /// ", " when there are any, the throttle in throttle mode, and the last
    /// error.
    pub fn popup_content(&self) -> (res: PopupContent)
        ensures
            res.status == status_spec(self@),
            self.matched_processes@.len() == 0 ==> res.matched_line is None,
            self.matched_processes@.len() > 0 ==> (res.matched_line matches Some(line) && line@
                == join(views(self.matched_processes@), ", "@)),
            res.throttle == (if self.config.action_mode == ActionMode::Throttle {
                Some((self.config.throttle_download_kbps, self.config.throttle_upload_kbps))
            } else {
                None
            }),
            opt_view(res.error) == opt_view(self.last_error),
    {
        let matched_line = if self.matched_processes.len() > 0 {
            Some(join_strings(&self.matched_processes, ", "))
        } else {
            None
        };
        let throttle = match self.config.action_mode {
            ActionMode::Throttle => Some(
                (self.config.throttle_download_kbps, self.config.throttle_upload_kbps),
            ),
            ActionMode::Pause => None,
        };
        PopupContent {
            status: self.status(),
            matched_line,
            throttle,
            error: clone_opt_string(&self.last_error),
        }
    }

    /// The timers and watches this instance needs.
    pub fn subscriptions(&self) -> (res: SubscriptionPlan)
        ensures
            res == subscription_spec(self@),
    {
        let tick = if self.is_leader && self.config.enabled && self.config.patterns.len() > 0 {
            Some(
                if self.config.poll_interval_secs < 5 {
                    5
                } else {
                    self.config.poll_interval_secs
                },
            )
        } else {
            None
        };
        SubscriptionPlan {
            watch_config: true,
            quit_on_sigterm: true,
            watch_quit_signal: true,
            tick_every_secs: tick,
            watch_monitor_state: !self.is_leader,
        }
    }

    fn exit(&mut self) -> (res: AppletEffects)
        ensures
            (final(self)@, res@) == exit_spec(old(self)@),
    {
        if self.is_leader && self.is_engaged {
            let saved_limits = self.saved_limits;
            self.saved_limits = None;
            effects(AppletTask::DisengageThenExit { config: self.config.clone(), saved_limits })
        } else {
            effects(AppletTask::Exit)
        }
    }

    /// Reacts to one message; see [`update_spec`].
    pub fn update(&mut self, message: AppletMessage) -> (res: AppletEffects)
        ensures
            (final(self)@, res@) == update_spec(old(self)@, message@),
    {
        match message {
            AppletMessage::TogglePopup => match self.popup {
                Some(id) => {
                    self.popup = None;
                    effects(AppletTask::DestroyPopup(id))
                },
                None => effects(AppletTask::CreatePopup),
            },
            AppletMessage::PopupOpened(id) => {
                self.popup = Some(id);
                effects(AppletTask::Idle)
            },
            AppletMessage::CloseRequested(id) => {
                if self.popup == Some(id) {
                    self.popup = None;
                }
                effects(AppletTask::Idle)
            },
            AppletMessage::ToggleMonitoring(enabled) => {
                self.config.enabled = enabled;
                let mut e = if self.is_leader && !enabled && self.is_engaged {
                    let saved_limits = self.saved_limits;
                    self.saved_limits = None;
                    effects(AppletTask::Disengage { config: self.config.clone(), saved_limits })
                } else {
                    effects(AppletTask::Idle)
                };
                e.save_config = true;
                e
            },
            AppletMessage::UpdateConfig(config) => {
                if self.is_leader && self.is_engaged && self.config.action_mode
                    != config.action_mode {
                    let saved_limits = self.saved_limits;
                    self.saved_limits = None;
                    let mut previous = config;
                    std::mem::swap(&mut self.config, &mut previous);
                    effects(AppletTask::Disengage { config: previous, saved_limits })
                } else if self.is_leader && self.is_engaged && !config.enabled {
                    let saved_limits = self.saved_limits;
                    self.saved_limits = None;
                    let task_config = config.clone();
                    self.config = config;
                    effects(AppletTask::Disengage { config: task_config, saved_limits })
                } else {
                    self.config = config;
                    effects(AppletTask::Idle)
                }
            },
            AppletMessage::UpdateState(state) => {
                if !self.is_leader {
                    self.is_engaged = state.is_engaged;
                    self.matched_processes = state.matched_processes;
                    self.last_error = if state.last_error.unicode_len() > 0 {
                        Some(state.last_error)
                    } else {
                        None
                    };
                }
                effects(AppletTask::Idle)
            },
            AppletMessage::QuitRequested(signal) => {
                if signal.quit_at_millis > self.started_at_millis {
                    self.exit()
                } else {
                    effects(AppletTask::Idle)
                }
            },
            AppletMessage::Tick => {
                if !self.config.enabled || self.config.patterns.len() == 0 {
                    effects(AppletTask::Idle)
                } else {
                    effects(
                        AppletTask::RunCycle {
                            config: self.config.clone(),
                            was_engaged: self.is_engaged,
                            saved_limits: self.saved_limits,
                        },
                    )
                }
            },
            AppletMessage::MonitorTick(result) => {
                let MonitorResult { matched_processes, action_taken, saved_limits, error } = result;
                self.matched_processes = matched_processes;
                self.last_error = error;
                if saved_limits.is_some() {
                    self.saved_limits = saved_limits;
                }
                match action_taken {
                    ActionTaken::Paused | ActionTaken::Throttled => {
                        self.is_engaged = true;
                    },
                    ActionTaken::Resumed | ActionTaken::Unthrottled => {
                        self.is_engaged = false;
                        self.saved_limits = None;
                    },
                    ActionTaken::NoAction => {},
                }
                let mut e = effects(AppletTask::Idle);
                e.save_state = true;
                e
            },
            AppletMessage::OpenSettings => {
                let mut e = match self.popup {
                    Some(id) => {
                        self.popup = None;
                        effects(AppletTask::DestroyPopup(id))
                    },
                    None => effects(AppletTask::Idle),
                };
                e.open_settings = true;
                e
            },
            AppletMessage::Quit => {
                let mut e = self.exit();
                e.broadcast_quit = true;
                e
            },
        }
    }
}


// ---------------------------------------------------------------------------
// Laws
// ---------------------------------------------------------------------------

/// A monitoring tick does nothing while monitoring is off or no pattern is
/// set.
pub proof fn lemma_tick_idle_when_off(m: AppletView)
    requires
        !m.config.enabled || m.config.patterns.len() == 0,
    ensures
        update_spec(m, AppletMessageView::Tick) == (m, only(AppletTaskView::Idle)),
{
}

/// The limits read before a throttle are kept until the throttle is lifted:
/// after a throttling cycle the leader is engaged with those limits saved,
/// the next tick hands them to the engine, and once the matches are gone the
/// engine sets exactly those limits again.
pub proof fn lemma_saved_limits_restored(m: AppletView, r: MonitorResultView, before: SpeedLimits)
    requires
        m.is_leader,
        m.config.enabled,
        m.config.patterns.len() > 0,
        m.config.action_mode == ActionMode::Throttle,
        r.action_taken == ActionTaken::Throttled,
        r.saved_limits == Some(before),
    ensures
        ({
            let m1 = update_spec(m, AppletMessageView::MonitorTick(r)).0;
            &&& m1.is_engaged
            &&& m1.saved_limits == Some(before)
            &&& update_spec(m1, AppletMessageView::Tick).1.task == AppletTaskView::RunCycle(
                m.config,
                true,
                Some(before),
            )
            &&& crate::engine::start_spec(m.config, true, Some(before), Seq::empty())
                matches crate::engine::CycleStepView::Call(_, c) && c
                == crate::engine::ClientCall::SetSpeedLimits(before)
        }),
{
}

/// Lifting the throttle or resuming forgets the saved limits and the
/// engaged state; pausing or throttling records the engaged state.
pub proof fn lemma_monitor_tick_engagement(m: AppletView, r: MonitorResultView)
    ensures
        ({
            let m1 = update_spec(m, AppletMessageView::MonitorTick(r)).0;
            &&& (r.action_taken == ActionTaken::Resumed || r.action_taken == ActionTaken::Unthrottled)
                ==> !m1.is_engaged && m1.saved_limits is None
            &&& (r.action_taken == ActionTaken::Paused || r.action_taken == ActionTaken::Throttled)
                ==> m1.is_engaged
            &&& r.action_taken == ActionTaken::NoAction ==> m1.is_engaged == m.is_engaged
            &&& m1.matched_processes == r.matched_processes
            &&& m1.last_error == r.error
        }),
{
}

/// Turning monitoring off while the leader has torrents engaged disengages
/// them, handing over the saved limits.
pub proof fn lemma_disable_disengages(m: AppletView)
    requires
        m.is_leader,
        m.is_engaged,
    ensures
        ({
            let (m1, e) = update_spec(m, AppletMessageView::ToggleMonitoring(false));
            &&& e.save_config
            &&& e.task == AppletTaskView::Disengage(m1.config, m.saved_limits)
            &&& !m1.config.enabled
        }),
{
}

/// Monitoring switched off in Settings, while the leader has torrents
/// engaged, disengages them in the mode they were engaged in, handing over
/// the saved limits, just as switching it off in the popup does; the new
/// configuration is adopted and the saved limits are forgotten.
pub proof fn lemma_disabling_config_disengages(m: AppletView, c: ConfigView)
    requires
        m.is_leader,
        m.is_engaged,
        !c.enabled,
    ensures
        ({
            let (m1, e) = update_spec(m, AppletMessageView::UpdateConfig(c));
            let (t1, te) = update_spec(m, AppletMessageView::ToggleMonitoring(false));
            &&& e.task matches AppletTaskView::Disengage(cfg, saved) && saved == m.saved_limits
                && cfg.action_mode == m.config.action_mode
            &&& te.task matches AppletTaskView::Disengage(_, saved) && saved == m.saved_limits
            &&& m1.config == c
            &&& m1.saved_limits is None
            &&& t1.saved_limits is None
        }),
{
}

/// The status line says what monitoring is doing: disabled, or without
/// patterns, or, while monitoring, paused or throttled (by the action mode)
/// when torrents are engaged and running when they are not.
pub proof fn lemma_status_reports_engagement(m: AppletView)
    ensures
        !m.config.enabled ==> status_spec(m) == StatusKey::Disabled,
        m.config.enabled && m.config.patterns.len() == 0 ==> status_spec(m) == StatusKey::NoPatterns,
        m.config.enabled && m.config.patterns.len() > 0 && m.is_engaged && m.config.action_mode
            == ActionMode::Pause ==> status_spec(m) == StatusKey::Paused,
        m.config.enabled && m.config.patterns.len() > 0 && m.is_engaged && m.config.action_mode
            == ActionMode::Throttle ==> status_spec(m) == StatusKey::Throttled,
        m.config.enabled && m.config.patterns.len() > 0 && !m.is_engaged ==> status_spec(m)
            == StatusKey::Running,
{
}

/// After a cycle, while monitoring with patterns set, the status shows what
/// the engine did: paused after pausing, throttled after throttling, and
/// running after resuming or lifting the throttle.
pub proof fn lemma_status_after_cycle(m: AppletView, r: MonitorResultView)
    requires
        m.config.enabled,
        m.config.patterns.len() > 0,
    ensures
        ({
            let s = status_spec(update_spec(m, AppletMessageView::MonitorTick(r)).0);
            &&& r.action_taken == ActionTaken::Paused && m.config.action_mode == ActionMode::Pause ==> s
                == StatusKey::Paused
            &&& r.action_taken == ActionTaken::Throttled && m.config.action_mode == ActionMode::Throttle
                ==> s == StatusKey::Throttled
            &&& r.action_taken == ActionTaken::Resumed || r.action_taken == ActionTaken::Unthrottled ==> s
                == StatusKey::Running
        }),
{
}

/// Quitting from any instance tells the others to quit, and the leader
/// restores engaged torrents before it exits.
pub proof fn lemma_quit_restores_first(m: AppletView)
    ensures
        ({
            let e = update_spec(m, AppletMessageView::Quit).1;
            &&& e.broadcast_quit
            &&& (m.is_leader && m.is_engaged) ==> e.task == AppletTaskView::DisengageThenExit(
                m.config,
                m.saved_limits,
            )
            &&& !(m.is_leader && m.is_engaged) ==> e.task == AppletTaskView::Exit
        }),
{
}

/// A quit broadcast made before this instance started is ignored.
pub proof fn lemma_stale_quit_ignored(m: AppletView, q: QuitSignal)
    requires
        q.quit_at_millis <= m.started_at_millis,
    ensures
        update_spec(m, AppletMessageView::QuitRequested(q)) == (m, only(AppletTaskView::Idle)),
{
}

/// A leader that restarts from the state it published is still engaged and
/// still holds the limits saved before the throttle.
pub proof fn lemma_restart_keeps_saved_limits(m: AppletView, config: ConfigView, started: u64)
    ensures
        ({
            let m1 = init_spec(config, true, started, snapshot_spec(m));
            &&& m1.is_engaged == m.is_engaged
            &&& m1.saved_limits == m.saved_limits
        }),
{
}

/// A follower shows what the leader published: whether torrents are
/// engaged, the matched processes and the last error, at start and on
/// every update. The leader ignores published state.
pub proof fn lemma_follower_mirrors_leader(
    leader: AppletView,
    f: AppletView,
    config: ConfigView,
    started: u64,
)
    requires
        leader.is_leader,
        !f.is_leader,
        leader.last_error != Some(Seq::<char>::empty()),
    ensures
        ({
            let s = snapshot_spec(leader);
            let f0 = init_spec(config, false, started, s);
            let f1 = update_spec(f, AppletMessageView::UpdateState(s)).0;
            &&& f0.is_engaged == leader.is_engaged
            &&& f0.matched_processes == leader.matched_processes
            &&& f0.last_error == leader.last_error
            &&& f1.is_engaged == leader.is_engaged
            &&& f1.matched_processes == leader.matched_processes
            &&& f1.last_error == leader.last_error
            &&& update_spec(leader, AppletMessageView::UpdateState(s)).0 == leader
        }),
{
    if let Some(e) = leader.last_error {
        if e.len() == 0 {
            assert(e =~= Seq::<char>::empty());
        }
    }
}

/// Whatever its state, every instance follows configuration changes and
/// quits on SIGTERM and on a quit broadcast.
pub proof fn lemma_always_listening(m: AppletView)
    ensures
        subscription_spec(m).watch_config,
        subscription_spec(m).quit_on_sigterm,
        subscription_spec(m).watch_quit_signal,
{
}

/// Only the leader ticks, and never more often than every five seconds.
pub proof fn lemma_only_leader_ticks(m: AppletView)
    ensures
        !m.is_leader ==> subscription_spec(m).tick_every_secs is None,
        subscription_spec(m).tick_every_secs matches Some(s) ==> s >= 5 && m.is_leader
            && m.config.enabled && m.config.patterns.len() > 0,
{
}

// ---------------------------------------------------------------------------
// Panel placement
// ---------------------------------------------------------------------------

/// `ids` without the applet's entry.
pub open spec fn without_applet(ids: Seq<Seq<char>>) -> Seq<Seq<char>> {
    ids.filter(|id: Seq<char>| id != applet_id())
}

/// `ids` without the applet's entry.
pub fn ids_without_applet(ids: &Vec<String>) -> (res: Vec<String>)
    ensures
        views(res@) == without_applet(views(ids@)),
{
    let applet = applet_id_string();
    let mut res: Vec<String> = Vec::new();
    let mut i: usize = 0;
    while i < ids.len()
        invariant
            i <= ids.len(),
            applet@ == applet_id(),
            views(res@) == without_applet(views(ids@).take(i as int)),
        decreases ids.len() - i,
    {
        let ghost prev = views(res@);
        proof {
            let t = views(ids@).take(i + 1);
            assert(t.drop_last() == views(ids@).take(i as int));
            assert(t.last() == ids@[i as int]@);
            reveal_with_fuel(Seq::filter, 1);
        }
        if ids[i] != applet {
            res.push(ids[i].clone());
            proof {
                assert(views(res@) =~= prev.push(ids@[i as int]@));
            }
        }
        i += 1;
    }
    proof {
        assert(views(ids@).take(ids.len() as int) == views(ids@));
    }
    res
}

/// Both panel wings without the applet's entry.
pub fn wings_without_applet(wings: &(Vec<String>, Vec<String>)) -> (res: (Vec<String>, Vec<String>))
    ensures
        views(res.0@) == without_applet(views(wings.0@)),
        views(res.1@) == without_applet(views(wings.1@)),
{
    (ids_without_applet(&wings.0), ids_without_applet(&wings.1))
}

/// How to make the panel spawn the applet again on one panel: the panel
/// only reacts to config changes, so the list holding the applet is written
/// without it, and then written back as it was.
#[derive(Debug)]
#[allow(inconsistent_fields)]
pub enum PanelPlan {
    /// The applet is not on this panel.
    NotListed,
    RespawnWings { listed: (Vec<String>, Vec<String>), without: (Vec<String>, Vec<String>) },
    RespawnCenter { listed: Vec<String>, without: Vec<String> },
}

/// The applet's entry is among `ids`.
pub open spec fn lists_applet(ids: Seq<Seq<char>>) -> bool {
    ids.contains(applet_id())
}

/// Whether `ids` holds the applet's entry.
pub fn has_applet(ids: &Vec<String>) -> (res: bool)
    ensures
        res == lists_applet(views(ids@)),
{
    crate::monitor::list_contains(ids, &applet_id_string())
}

/// The plain value of a [`PanelPlan`].
#[allow(inconsistent_fields)]
pub enum PanelPlanView {
    NotListed,
    RespawnWings {
        listed: (Seq<Seq<char>>, Seq<Seq<char>>),
        without: (Seq<Seq<char>>, Seq<Seq<char>>),
    },
    RespawnCenter { listed: Seq<Seq<char>>, without: Seq<Seq<char>> },
}

impl View for PanelPlan {
    type V = PanelPlanView;

    open spec fn view(&self) -> PanelPlanView {
        match self {
            PanelPlan::NotListed => PanelPlanView::NotListed,
            PanelPlan::RespawnWings { listed, without } => PanelPlanView::RespawnWings {
                listed: (views(listed.0@), views(listed.1@)),
                without: (views(without.0@), views(without.1@)),
            },
            PanelPlan::RespawnCenter { listed, without } => PanelPlanView::RespawnCenter {
                listed: views(listed@),
                without: views(without@),
            },
        }
    }
}

/// The plain value of optional panel wings.
pub open spec fn wings_view(w: Option<(Vec<String>, Vec<String>)>) -> Option<(Seq<Seq<char>>, Seq<Seq<char>>)> {
    match w {
        Some((l, r)) => Some((views(l@), views(r@))),
        None => None,
    }
}

/// The plain value of an optional panel center.
pub open spec fn center_view(c: Option<Vec<String>>) -> Option<Seq<Seq<char>>> {
    match c {
        Some(v) => Some(views(v@)),
        None => None,
    }
}

/// The plan for a panel: its wings are toggled when either holds the
/// applet, else its center when that holds it.
pub open spec fn plan_spec(
    wings: Option<(Seq<Seq<char>>, Seq<Seq<char>>)>,
    center: Option<Seq<Seq<char>>>,
) -> PanelPlanView {
    match wings {
        Some((l, r)) if lists_applet(l) || lists_applet(r) => PanelPlanView::RespawnWings {
            listed: (l, r),
            without: (without_applet(l), without_applet(r)),
        },
        _ => match center {
            Some(c) if lists_applet(c) => PanelPlanView::RespawnCenter {
                listed: c,
                without: without_applet(c),
            },
            _ => PanelPlanView::NotListed,
        },
    }
}

/// The plan for a panel whose wings and center lists were read.
pub fn plan_panel(wings: Option<(Vec<String>, Vec<String>)>, center: Option<Vec<String>>) -> (res:
    PanelPlan)
    ensures
        res@ == plan_spec(wings_view(wings), center_view(center)),
{
    if let Some(w) = &wings {
        if has_applet(&w.0) || has_applet(&w.1) {
            let without = wings_without_applet(w);
            let listed = (
                crate::config::clone_strings(&w.0),
                crate::config::clone_strings(&w.1),
            );
            return PanelPlan::RespawnWings { listed, without };
        }
    }
    if let Some(c) = &center {
        if has_applet(c) {
            let without = ids_without_applet(c);
            return PanelPlan::RespawnCenter { listed: crate::config::clone_strings(c), without };
        }
    }
    PanelPlan::NotListed
}

/// First run: the applet is added at the start of the right wing of the
/// first panel, the rest of the wings kept.
pub fn first_run_wings(wings: Option<(Vec<String>, Vec<String>)>) -> (res: (Vec<String>, Vec<String>))
    ensures
        match wings {
            Some(w) => views(res.0@) == views(w.0@) && views(res.1@) == seq![applet_id()] + views(w.1@),
            None => res.0@.len() == 0 && views(res.1@) == seq![applet_id()],
        },
{
    let (left, right) = match wings {
        Some(w) => w,
        None => (Vec::new(), Vec::new()),
    };
    let ghost r0 = views(right@);
    let mut right = right;
    right.insert(0, applet_id_string());
    proof {
        assert(views(right@) =~= seq![applet_id()] + r0);
    }
    (left, right)
}

/// The panels to look at: the configured entries, or the default panel.
pub fn panel_names(entries: Option<Vec<String>>) -> (res: Vec<String>)
    ensures
        match entries {
            Some(e) => views(res@) == views(e@),
            None => views(res@) == seq!["Panel"@],
        },
{
    match entries {
        Some(e) => e,
        None => {
            let v = vec![String::from_str("Panel")];
            proof {
                assert(views(v@) =~= seq!["Panel"@]);
            }
            v
        },
    }
}

/// The config ID of a panel's settings.
pub fn panel_config_id(panel: &str) -> (res: String)
    ensures
        res@ == "com.system76.CosmicPanel."@ + panel@,
{
    crate::text::concat("com.system76.CosmicPanel.", panel)
}

/// What was read of one panel's settings: its name, and its wings and
/// center plugin lists (`None` when its settings could not be opened).
#[derive(Debug)]
pub struct PanelRead {
    pub name: String,
    pub lists: Option<(Option<(Vec<String>, Vec<String>)>, Option<Vec<String>>)>,
}

/// The plain value of a [`PanelRead`].
pub struct PanelReadView {
    pub name: Seq<char>,
    pub lists: Option<(Option<(Seq<Seq<char>>, Seq<Seq<char>>)>, Option<Seq<Seq<char>>>)>,
}

impl View for PanelRead {
    type V = PanelReadView;

    open spec fn view(&self) -> PanelReadView {
        PanelReadView {
            name: self.name@,
            lists: match self.lists {
                Some((w, c)) => Some((wings_view(w), center_view(c))),
                None => None,
            },
        }
    }
}

/// A change to one panel's settings.
#[derive(Debug)]
pub enum PanelWrite {
    /// Toggle the list holding the applet so that the panel spawns it again.
    Respawn { panel: String, plan: PanelPlan },
    /// Store these wings, which hold the applet first on the right (first run).
    AddToWings { panel: String, wings: (Vec<String>, Vec<String>) },
}

/// The plain value of a [`PanelWrite`].
pub enum PanelWriteView {
    Respawn { panel: Seq<char>, plan: PanelPlanView },
    AddToWings { panel: Seq<char>, wings: (Seq<Seq<char>>, Seq<Seq<char>>) },
}

impl View for PanelWrite {
    type V = PanelWriteView;

    open spec fn view(&self) -> PanelWriteView {
        match self {
            PanelWrite::Respawn { panel, plan } => PanelWriteView::Respawn { panel: panel@, plan: plan@ },
            PanelWrite::AddToWings { panel, wings } => PanelWriteView::AddToWings {
                panel: panel@,
                wings: (views(wings.0@), views(wings.1@)),
            },
        }
    }
}

/// The plans of a panel that was read; one whose settings could not be
/// opened is left alone.
pub open spec fn read_plan(p: PanelReadView) -> PanelPlanView {
    match p.lists {
        Some((w, c)) => plan_spec(w, c),
        None => PanelPlanView::NotListed,
    }
}

/// One respawn for each panel that lists the applet, in order.
pub open spec fn respawn_writes(panels: Seq<PanelReadView>) -> Seq<PanelWriteView>
    decreases panels.len(),
{
    if panels.len() == 0 {
        Seq::empty()
    } else {
        let prev = respawn_writes(panels.drop_last());
        let p = panels.last();
        if read_plan(p) is NotListed {
            prev
        } else {
            prev.push(PanelWriteView::Respawn { panel: p.name, plan: read_plan(p) })
        }
    }
}

/// The wings after the first run: the applet first on the right.
pub open spec fn first_run_spec(w: Option<(Seq<Seq<char>>, Seq<Seq<char>>)>) -> (Seq<Seq<char>>, Seq<Seq<char>>) {
    match w {
        Some((l, r)) => (l, seq![applet_id()] + r),
        None => (Seq::empty(), seq![applet_id()]),
    }
}

/// What making sure the applet runs writes: nothing while an instance runs;
/// otherwise a respawn of every panel that lists it, or, when none does,
/// the applet added to the wings of the first panel (if its settings
/// could be opened).
pub open spec fn placement_spec(applet_running: bool, panels: Seq<PanelReadView>) -> Seq<PanelWriteView> {
    if applet_running {
        Seq::empty()
    } else if respawn_writes(panels).len() == 0 && panels.len() > 0 && panels[0].lists is Some {
        seq![
            PanelWriteView::AddToWings {
                panel: panels[0].name,
                wings: first_run_spec(
                    match panels[0].lists {
                        Some((w, _)) => w,
                        None => None,
                    },
                ),
            },
        ]
    } else {
        respawn_writes(panels)
    }
}

/// The views of a list of panels read.
pub open spec fn reads_view(panels: Seq<PanelRead>) -> Seq<PanelReadView> {
    panels.map_values(|p: PanelRead| p@)
}

/// The views of a list of panel writes.
pub open spec fn writes_view(writes: Seq<PanelWrite>) -> Seq<PanelWriteView> {
    writes.map_values(|w: PanelWrite| w@)
}

fn clone_wings(w: &Option<(Vec<String>, Vec<String>)>) -> (res: Option<(Vec<String>, Vec<String>)>)
    ensures
        wings_view(res) == wings_view(*w),
{
    match w {
        Some((l, r)) => Some((crate::config::clone_strings(l), crate::config::clone_strings(r))),
        None => None,
    }
}

fn clone_center(c: &Option<Vec<String>>) -> (res: Option<Vec<String>>)
    ensures
        center_view(res) == center_view(*c),
{
    match c {
        Some(v) => Some(crate::config::clone_strings(v)),
        None => None,
    }
}

/// The writes that make sure the applet runs, from whether an instance
/// already runs and what was read of each panel; see [`placement_spec`].
pub fn placement_writes(applet_running: bool, panels: &Vec<PanelRead>) -> (res: Vec<PanelWrite>)
    ensures
        writes_view(res@) == placement_spec(applet_running, reads_view(panels@)),
{
    let mut writes: Vec<PanelWrite> = Vec::new();
    if applet_running {
        proof {
            assert(writes_view(writes@) =~= Seq::<PanelWriteView>::empty());
        }
        return writes;
    }
    let ghost all = reads_view(panels@);
    let mut i: usize = 0;
    proof {
        assert(writes_view(writes@) =~= respawn_writes(all.take(0)));
    }
    while i < panels.len()
        invariant
            i <= panels.len(),
            all == reads_view(panels@),
            writes_view(writes@) == respawn_writes(all.take(i as int)),
        decreases panels.len() - i,
    {
        let p = &panels[i];
        let ghost before = writes_view(writes@);
        proof {
            let t = all.take(i + 1);
            assert(t.drop_last() == all.take(i as int));
            assert(t.last() == p@);
        }
        let plan = match &p.lists {
            Some((w, c)) => plan_panel(clone_wings(w), clone_center(c)),
            None => PanelPlan::NotListed,
        };
        match plan {
            PanelPlan::NotListed => {},
            _ => {
                writes.push(PanelWrite::Respawn { panel: p.name.clone(), plan });
                proof {
                    assert(writes_view(writes@) =~= before.push(writes@.last()@));
                }
            },
        }
        i += 1;
    }
    proof {
        assert(all.take(panels.len() as int) == all);
    }
    if writes.len() == 0 && panels.len() > 0 {
        if let Some((w, _)) = &panels[0].lists {
            let cw = clone_wings(w);
            let ghost wv = wings_view(cw);
            let wings = first_run_wings(cw);
            let mut first: Vec<PanelWrite> = Vec::new();
            first.push(PanelWrite::AddToWings { panel: panels[0].name.clone(), wings });
            proof {
                assert(all[0] == panels@[0]@);
                assert(respawn_writes(all).len() == 0);
                assert(all[0].lists matches Some((x, _)) && x == wv);
                assert((views(wings.0@), views(wings.1@)) == first_run_spec(wv));
                assert(writes_view(first@) =~= placement_spec(applet_running, all));
            }
            return first;
        }
    }
    writes
}

/// Only a panel that lists the applet is respawned, and the applet is
/// added on first run only when no panel that was read lists it.
pub proof fn lemma_placement(panels: Seq<PanelReadView>)
    ensures
        forall|k: int|
            0 <= k < respawn_writes(panels).len() ==> (#[trigger] respawn_writes(panels)[k] matches
                PanelWriteView::Respawn { plan, .. } && !(plan is NotListed)),
        respawn_writes(panels).len() == 0 ==> forall|i: int|
            0 <= i < panels.len() ==> #[trigger] read_plan(panels[i]) is NotListed,
        placement_spec(true, panels).len() == 0,
    decreases panels.len(),
{
    if panels.len() > 0 {
        lemma_placement(panels.drop_last());
        let prev = respawn_writes(panels.drop_last());
        assert forall|k: int| 0 <= k < respawn_writes(panels).len() implies (#[trigger] respawn_writes(
            panels,
        )[k] matches PanelWriteView::Respawn { plan, .. } && !(plan is NotListed)) by {
            if k < prev.len() {
                assert(respawn_writes(panels)[k] == prev[k]);
            }
        }
        if respawn_writes(panels).len() == 0 {
            assert forall|i: int| 0 <= i < panels.len() implies #[trigger] read_plan(panels[i]) is NotListed by {
                if i < panels.len() - 1 {
                    assert(panels[i] == panels.drop_last()[i]);
                }
            }
        }
    }
}

/// The written list no longer holds the applet.
pub proof fn lemma_without_applet_drops_it(ids: Seq<Seq<char>>)
    ensures
        !lists_applet(without_applet(ids)),
        forall|i: int| 0 <= i < without_applet(ids).len() ==> ids.contains(#[trigger] without_applet(ids)[i]),
{
    broadcast use vstd::seq_lib::group_filter_ensures;

    let f = |id: Seq<char>| id != applet_id();
    assert forall|i: int| 0 <= i < without_applet(ids).len() implies ids.contains(
        #[trigger] without_applet(ids)[i],
    ) by {
        assert(ids.filter(f).contains(ids.filter(f)[i]));
        ids.lemma_filter_contains_rev(f, ids.filter(f)[i]);
    }

}

// ---------------------------------------------------------------------------
// Time
// ---------------------------------------------------------------------------

/// `SystemTime::elapsed` on `UNIX_EPOCH`: the time since the epoch, or
/// `None` when the clock is before it. Nothing is claimed of the value: it
/// depends on the clock.
#[verifier::external_body]
fn elapsed_since_epoch() -> Option<std::time::Duration> {
    std::time::UNIX_EPOCH.elapsed().ok()
}

/// `Duration::as_millis`: the whole milliseconds of `d`. A `Duration` is
/// opaque to the proofs, so nothing is claimed of the result.
#[verifier::external_body]
fn duration_millis(d: &std::time::Duration) -> u128 {
    d.as_millis()
}

/// Milliseconds as a `u64` (truncated, as `as u64` does), or 0 when the
/// clock could not be read.
pub fn millis_to_u64(ms: Option<u128>) -> (res: u64)
    ensures
        res == match ms {
            Some(m) => m as u64,
            None => 0u64,
        },
{
    match ms {
        Some(m) => m as u64,
        None => 0,
    }
}

/// The current time in milliseconds since the Unix epoch (0 when the
/// clock is before it).
pub fn now_millis() -> u64 {
    match elapsed_since_epoch() {
        Some(d) => millis_to_u64(Some(duration_millis(&d))),
        None => millis_to_u64(None),
    }
}

} // verus!
