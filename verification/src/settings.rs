//! The settings window's decisions: how each input changes the
//! configuration, what is saved, and when a connection test is started.
//! The window itself is drawn outside this crate.

use vstd::prelude::*;
use vstd::string::*;
use crate::config::{ActionMode, ClientKind, Config, ConfigView, all_client_kinds};
use crate::engine::opt_view;
use crate::monitor::list_contains;
use crate::text::{parse_u64, parse_u64_str, str_is_empty, trim, trimmed, views};

verus! {

/// Result of the most recent connection test.
#[derive(Debug)]
pub enum ConnectionStatus {
    Testing,
    Connected(String),
    Failed(String),
}

/// The plain value of a [`ConnectionStatus`].
pub enum ConnectionStatusView {
    Testing,
    Connected(Seq<char>),
    Failed(Seq<char>),
}

impl View for ConnectionStatus {
    type V = ConnectionStatusView;

    open spec fn view(&self) -> ConnectionStatusView {
        match self {
            ConnectionStatus::Testing => ConnectionStatusView::Testing,
            ConnectionStatus::Connected(v) => ConnectionStatusView::Connected(v@),
            ConnectionStatus::Failed(e) => ConnectionStatusView::Failed(e@),
        }
    }
}

/// The context page to display in the context drawer.
#[derive(Debug, Clone, Copy, PartialEq, Eq, Structural)]
pub enum ContextPage {
    About,
}

/// Entries of the window's menu.
#[derive(Debug, Clone, Copy, PartialEq, Eq, Structural)]
pub enum MenuAction {
    About,
}

impl MenuAction {
    /// The message a menu entry sends.
    pub fn message(&self) -> (res: Message)
        ensures
            res matches Message::ToggleContextPage(ContextPage::About),
    {
        match self {
            MenuAction::About => Message::ToggleContextPage(ContextPage::About),
        }
    }
}

/// Messages emitted by the settings window and its widgets.
#[derive(Debug)]
pub enum Message {
    LaunchUrl(String),
    ToggleContextPage(ContextPage),
    /// The configuration changed in storage.
    UpdateConfig(Config),
    SetQbitUrl(String),
    SetQbitUsername(String),
    SetQbitPassword(String),
    /// Position of the chosen entry in [`ClientKind::all`].
    SelectClient(usize),
    SetNewPattern(String),
    /// A pattern submitted from the input (empty when the Add button was
    /// pressed, which adds the text typed so far).
    AddPattern(String),
    RemovePattern(usize),
    ToggleEnabled(bool),
    SetActionMode(ActionMode),
    SetThrottleDownload(String),
    SetThrottleUpload(String),
    TestConnection,
    ConnectionResult(Result<String, String>),
}

/// The plain value of a [`Message`].
pub enum MessageView {
    LaunchUrl(Seq<char>),
    ToggleContextPage(ContextPage),
    UpdateConfig(ConfigView),
    SetQbitUrl(Seq<char>),
    SetQbitUsername(Seq<char>),
    SetQbitPassword(Seq<char>),
    SelectClient(usize),
    SetNewPattern(Seq<char>),
    AddPattern(Seq<char>),
    RemovePattern(usize),
    ToggleEnabled(bool),
    SetActionMode(ActionMode),
    SetThrottleDownload(Seq<char>),
    SetThrottleUpload(Seq<char>),
    TestConnection,
    ConnectionResult(Result<Seq<char>, Seq<char>>),
}

impl View for Message {
    type V = MessageView;

    open spec fn view(&self) -> MessageView {
        match self {
            Message::LaunchUrl(u) => MessageView::LaunchUrl(u@),
            Message::ToggleContextPage(p) => MessageView::ToggleContextPage(*p),
            Message::UpdateConfig(c) => MessageView::UpdateConfig(c@),
            Message::SetQbitUrl(s) => MessageView::SetQbitUrl(s@),
            Message::SetQbitUsername(s) => MessageView::SetQbitUsername(s@),
            Message::SetQbitPassword(s) => MessageView::SetQbitPassword(s@),
            Message::SelectClient(i) => MessageView::SelectClient(*i),
            Message::SetNewPattern(s) => MessageView::SetNewPattern(s@),
            Message::AddPattern(s) => MessageView::AddPattern(s@),
            Message::RemovePattern(i) => MessageView::RemovePattern(*i),
            Message::ToggleEnabled(b) => MessageView::ToggleEnabled(*b),
            Message::SetActionMode(m) => MessageView::SetActionMode(*m),
            Message::SetThrottleDownload(s) => MessageView::SetThrottleDownload(s@),
            Message::SetThrottleUpload(s) => MessageView::SetThrottleUpload(s@),
            Message::TestConnection => MessageView::TestConnection,
            Message::ConnectionResult(Ok(v)) => MessageView::ConnectionResult(Ok(v@)),
            Message::ConnectionResult(Err(e)) => MessageView::ConnectionResult(Err(e@)),
        }
    }
}

/// The settings window's state.
#[derive(Debug)]
pub struct AppModel {
    pub config: Config,
    pub new_pattern: String,
    pub connection_status: Option<ConnectionStatus>,
    /// Text of the throttle inputs, kept as typed.
    pub throttle_dl_input: String,
    pub throttle_ul_input: String,
    pub context_page: ContextPage,
    pub show_context: bool,
}

/// The plain value of an [`AppModel`].
pub struct AppModelView {
    pub config: ConfigView,
    pub new_pattern: Seq<char>,
    pub connection_status: Option<ConnectionStatusView>,
    pub throttle_dl_input: Seq<char>,
    pub throttle_ul_input: Seq<char>,
    pub context_page: ContextPage,
    pub show_context: bool,
}

impl View for AppModel {
    type V = AppModelView;

    open spec fn view(&self) -> AppModelView {
        AppModelView {
            config: self.config@,
            new_pattern: self.new_pattern@,
            connection_status: match self.connection_status {
                Some(s) => Some(s@),
                None => None,
            },
            throttle_dl_input: self.throttle_dl_input@,
            throttle_ul_input: self.throttle_ul_input@,
            context_page: self.context_page,
            show_context: self.show_context,
        }
    }
}

/// What the window must do after a message.
#[derive(Debug)]
pub struct SettingsEffects {
    /// Write the configuration to storage.
    pub save_config: bool,
    /// Open this URL in the browser.
    pub launch_url: Option<String>,
    /// Test the connection to the client this configuration names, and
    /// answer with `ConnectionResult`.
    pub test_connection: Option<Config>,
}

/// The plain value of a [`SettingsEffects`].
pub struct SettingsEffectsView {
    pub save_config: bool,
    pub launch_url: Option<Seq<char>>,
    pub test_connection: Option<ConfigView>,
}

impl View for SettingsEffects {
    type V = SettingsEffectsView;

    open spec fn view(&self) -> SettingsEffectsView {
        SettingsEffectsView {
            save_config: self.save_config,
            launch_url: opt_view(self.launch_url),
            test_connection: match self.test_connection {
                Some(c) => Some(c@),
                None => None,
            },
        }
    }
}

/// No effect, or only saving.
pub open spec fn saving(save: bool) -> SettingsEffectsView {
    SettingsEffectsView { save_config: save, launch_url: None, test_connection: None }
}

/// The pattern an `AddPattern` message would add: the submitted text, or
/// the typed text when nothing was submitted, trimmed.
pub open spec fn pattern_to_add(m: AppModelView, submitted: Seq<char>) -> Seq<char> {
    if submitted.len() == 0 {
        trimmed(m.new_pattern)
    } else {
        trimmed(submitted)
    }
}

/// The model after a message, and what the window must do.
pub open spec fn handle_spec(m: AppModelView, msg: MessageView) -> (AppModelView, SettingsEffectsView) {
    match msg {
        MessageView::LaunchUrl(u) => (
            m,
            SettingsEffectsView { launch_url: Some(u), ..saving(false) },
        ),
        MessageView::ToggleContextPage(p) => if m.context_page == p {
            (AppModelView { show_context: !m.show_context, ..m }, saving(false))
        } else {
            (AppModelView { context_page: p, show_context: true, ..m }, saving(false))
        },
        MessageView::UpdateConfig(c) => (AppModelView { config: c, ..m }, saving(false)),
        MessageView::SetQbitUrl(u) => (
            AppModelView { config: ConfigView { qbit_url: u, ..m.config }, ..m },
            saving(true),
        ),
        MessageView::SetQbitUsername(u) => (
            AppModelView { config: ConfigView { qbit_username: u, ..m.config }, ..m },
            saving(true),
        ),
        MessageView::SetQbitPassword(p) => (
            AppModelView { config: ConfigView { qbit_password: p, ..m.config }, ..m },
            saving(true),
        ),
        MessageView::SelectClient(i) => if i < all_client_kinds().len() {
            (
                AppModelView {
                    config: ConfigView { client_kind: all_client_kinds()[i as int], ..m.config },
                    ..m
                },
                saving(true),
            )
        } else {
            (m, saving(false))
        },
        MessageView::SetNewPattern(p) => (AppModelView { new_pattern: p, ..m }, saving(false)),
        MessageView::AddPattern(submitted) => {
            let p = pattern_to_add(m, submitted);
            if p.len() > 0 && !m.config.patterns.contains(p) {
                (
                    AppModelView {
                        config: ConfigView { patterns: m.config.patterns.push(p), ..m.config },
                        new_pattern: Seq::empty(),
                        ..m
                    },
                    saving(true),
                )
            } else {
                (m, saving(false))
            }
        },
        MessageView::RemovePattern(i) => if i < m.config.patterns.len() {
            (
                AppModelView {
                    config: ConfigView { patterns: m.config.patterns.remove(i as int), ..m.config },
                    ..m
                },
                saving(true),
            )
        } else {
            (m, saving(false))
        },
        MessageView::ToggleEnabled(b) => (
            AppModelView { config: ConfigView { enabled: b, ..m.config }, ..m },
            saving(true),
        ),
        MessageView::SetActionMode(mode) => (
            AppModelView { config: ConfigView { action_mode: mode, ..m.config }, ..m },
            saving(true),
        ),
        MessageView::SetThrottleDownload(v) => match parse_u64(v) {
            Ok(k) => (
                AppModelView {
                    throttle_dl_input: v,
                    config: ConfigView { throttle_download_kbps: k as u64, ..m.config },
                    ..m
                },
                saving(true),
            ),
            Err(_) => (AppModelView { throttle_dl_input: v, ..m }, saving(false)),
        },
        MessageView::SetThrottleUpload(v) => match parse_u64(v) {
            Ok(k) => (
                AppModelView {
                    throttle_ul_input: v,
                    config: ConfigView { throttle_upload_kbps: k as u64, ..m.config },
                    ..m
                },
                saving(true),
            ),
            Err(_) => (AppModelView { throttle_ul_input: v, ..m }, saving(false)),
        },
        MessageView::TestConnection => (
            AppModelView { connection_status: Some(ConnectionStatusView::Testing), ..m },
            SettingsEffectsView { test_connection: Some(m.config), ..saving(false) },
        ),
        MessageView::ConnectionResult(Ok(v)) => (
            AppModelView { connection_status: Some(ConnectionStatusView::Connected(v)), ..m },
            saving(false),
        ),
        MessageView::ConnectionResult(Err(e)) => (
            AppModelView { connection_status: Some(ConnectionStatusView::Failed(e)), ..m },
            saving(false),
        ),
    }
}

/// The monitoring description shown under the toggle, as a message to
/// localize.
#[derive(Debug, Clone, Copy, PartialEq, Eq, Structural)]
pub enum MonitoringKey {
    Disabled,
    NoPatterns,
    Monitoring,
}

fn no_effects(save: bool) -> (res: SettingsEffects)
    ensures
        res@ == saving(save),
{
    SettingsEffects { save_config: save, launch_url: None, test_connection: None }
}

impl AppModel {
    /// The window's model for a stored configuration; the throttle inputs
    /// show the stored values.
    pub fn new(config: Config) -> (res: AppModel)
        ensures
            res.config@ == config@,
            res.new_pattern@.len() == 0,
            res.connection_status is None,
            res.throttle_dl_input@ == crate::text::decimal(config.throttle_download_kbps as nat),
            res.throttle_ul_input@ == crate::text::decimal(config.throttle_upload_kbps as nat),
            res.context_page == ContextPage::About,
            !res.show_context,
    {
        let throttle_dl_input = crate::text::u64_to_decimal(config.throttle_download_kbps);
        let throttle_ul_input = crate::text::u64_to_decimal(config.throttle_upload_kbps);
        AppModel {
            config,
            new_pattern: String::new(),
            connection_status: None,
            throttle_dl_input,
            throttle_ul_input,
            context_page: ContextPage::About,
            show_context: false,
        }
    }

    /// Which description the monitoring toggle shows.
    pub fn monitoring_description(&self) -> (res: MonitoringKey)
        ensures
            res == (if !self.config.enabled {
                MonitoringKey::Disabled
            } else if self.config.patterns@.len() == 0 {
                MonitoringKey::NoPatterns
            } else {
                MonitoringKey::Monitoring
            }),
    {
        if !self.config.enabled {
            MonitoringKey::Disabled
        } else if self.config.patterns.len() == 0 {
            MonitoringKey::NoPatterns
        } else {
            MonitoringKey::Monitoring
        }
    }

    /// Reacts to one message; see [`handle_spec`].
    pub fn handle_message(&mut self, message: Message) -> (res: SettingsEffects)
        ensures
            (final(self)@, res@) == handle_spec(old(self)@, message@),
    {
        match message {
            Message::LaunchUrl(url) => SettingsEffects {
                save_config: false,
                launch_url: Some(url),
                test_connection: None,
            },
            Message::ToggleContextPage(page) => {
                if self.context_page == page {
                    self.show_context = !self.show_context;
                } else {
                    self.context_page = page;
                    self.show_context = true;
                }
                no_effects(false)
            },
            Message::UpdateConfig(config) => {
                self.config = config;
                no_effects(false)
            },
            Message::SetQbitUrl(url) => {
                self.config.qbit_url = url;
                no_effects(true)
            },
            Message::SetQbitUsername(username) => {
                self.config.qbit_username = username;
                no_effects(true)
            },
            Message::SetQbitPassword(password) => {
                self.config.qbit_password = password;
                no_effects(true)
            },
            Message::SelectClient(i) => {
                let all = ClientKind::all();
                if i < all.len() {
                    self.config.client_kind = all[i];
                    no_effects(true)
                } else {
                    no_effects(false)
                }
            },
            Message::SetNewPattern(pattern) => {
                self.new_pattern = pattern;
                no_effects(false)
            },
            Message::AddPattern(submitted) => {
                let pattern = if str_is_empty(submitted.as_str()) {
                    trim(self.new_pattern.as_str())
                } else {
                    trim(submitted.as_str())
                };
                if !str_is_empty(pattern.as_str()) && !list_contains(&self.config.patterns, &pattern) {
                    let ghost before = views(self.config.patterns@);
                    self.config.patterns.push(pattern);
                    self.new_pattern = String::new();
                    proof {
                        assert(views(self.config.patterns@) =~= before.push(pattern@));
                    }
                    no_effects(true)
                } else {
                    no_effects(false)
                }
            },
            Message::RemovePattern(idx) => {
                if idx < self.config.patterns.len() {
                    let ghost before = views(self.config.patterns@);
                    self.config.patterns.remove(idx);
                    proof {
                        assert(views(self.config.patterns@) =~= before.remove(idx as int));
                    }
                    no_effects(true)
                } else {
                    no_effects(false)
                }
            },
            Message::ToggleEnabled(enabled) => {
                self.config.enabled = enabled;
                no_effects(true)
            },
            Message::SetActionMode(mode) => {
                self.config.action_mode = mode;
                no_effects(true)
            },
            Message::SetThrottleDownload(val) => {
                let parsed = parse_u64_str(val.as_str());
                self.throttle_dl_input = val;
                match parsed {
                    Ok(kbps) => {
                        self.config.throttle_download_kbps = kbps;
                        no_effects(true)
                    },
                    Err(_) => no_effects(false),
                }
            },
            Message::SetThrottleUpload(val) => {
                let parsed = parse_u64_str(val.as_str());
                self.throttle_ul_input = val;
                match parsed {
                    Ok(kbps) => {
                        self.config.throttle_upload_kbps = kbps;
                        no_effects(true)
                    },
                    Err(_) => no_effects(false),
                }
            },
            Message::TestConnection => {
                self.connection_status = Some(ConnectionStatus::Testing);
                SettingsEffects {
                    save_config: false,
                    launch_url: None,
                    test_connection: Some(self.config.clone()),
                }
            },
            Message::ConnectionResult(result) => {
                self.connection_status = Some(
                    match result {
                        Ok(version) => ConnectionStatus::Connected(version),
                        Err(e) => ConnectionStatus::Failed(e),
                    },
                );
                no_effects(false)
            },
        }
    }
}

// ---------------------------------------------------------------------------
// Laws
// ---------------------------------------------------------------------------

/// The pattern list holds no blank pattern and no pattern twice.
pub open spec fn patterns_well_formed(patterns: Seq<Seq<char>>) -> bool {
    &&& forall|i: int| 0 <= i < patterns.len() ==> #[trigger] patterns[i].len() > 0
    &&& forall|i: int, j: int| 0 <= i < j < patterns.len() ==> patterns[i] != patterns[j]
}

/// Adding and removing patterns from the window keeps the list free of
/// blanks and duplicates.
pub proof fn lemma_patterns_stay_well_formed(m: AppModelView, msg: MessageView)
    requires
        patterns_well_formed(m.config.patterns),
        !(msg is UpdateConfig),
    ensures
        patterns_well_formed(handle_spec(m, msg).0.config.patterns),
{
    if let MessageView::AddPattern(s) = msg {
        let p = pattern_to_add(m, s);
        let ps = m.config.patterns;
        if p.len() > 0 && !ps.contains(p) {
            let q = ps.push(p);
            assert forall|i: int, j: int| 0 <= i < j < q.len() implies q[i] != q[j] by {
                if j == ps.len() {
                    assert(ps.contains(ps[i]));
                }
            }
        }
    }
    if let MessageView::RemovePattern(k) = msg {
        let ps = m.config.patterns;
        if k < ps.len() {
            let q = ps.remove(k as int);
            assert forall|i: int, j: int| 0 <= i < j < q.len() implies q[i] != q[j] by {
                let i0 = if i < k { i } else { i + 1 };
                let j0 = if j < k { j } else { j + 1 };
                assert(q[i] == ps[i0] && q[j] == ps[j0]);
            }
            assert forall|i: int| 0 <= i < q.len() implies #[trigger] q[i].len() > 0 by {
                let i0 = if i < k { i } else { i + 1 };
                assert(q[i] == ps[i0]);
            }
        }
    }
}

/// Each setting changed in the window changes that setting alone, keeps
/// the rest of the window's state, and is saved.
pub proof fn lemma_settings_change_one_field(m: AppModelView, v: Seq<char>, b: bool, mode: ActionMode)
    ensures
        handle_spec(m, MessageView::SetQbitUrl(v)).0 == (AppModelView {
            config: ConfigView { qbit_url: v, ..m.config },
            ..m
        }),
        handle_spec(m, MessageView::SetQbitUsername(v)).0 == (AppModelView {
            config: ConfigView { qbit_username: v, ..m.config },
            ..m
        }),
        handle_spec(m, MessageView::SetQbitPassword(v)).0 == (AppModelView {
            config: ConfigView { qbit_password: v, ..m.config },
            ..m
        }),
        handle_spec(m, MessageView::ToggleEnabled(b)).0 == (AppModelView {
            config: ConfigView { enabled: b, ..m.config },
            ..m
        }),
        handle_spec(m, MessageView::SetActionMode(mode)).0 == (AppModelView {
            config: ConfigView { action_mode: mode, ..m.config },
            ..m
        }),
        handle_spec(m, MessageView::SetQbitUrl(v)).1.save_config,
        handle_spec(m, MessageView::SetQbitUsername(v)).1.save_config,
        handle_spec(m, MessageView::SetQbitPassword(v)).1.save_config,
        handle_spec(m, MessageView::ToggleEnabled(b)).1.save_config,
        handle_spec(m, MessageView::SetActionMode(mode)).1.save_config,
        handle_spec(m, MessageView::TestConnection).1.test_connection == Some(m.config),
{
}

/// Adding a new pattern and then removing the last one gives back the
/// pattern list the window started with.
pub proof fn lemma_add_then_remove_restores(m: AppModelView, s: Seq<char>)
    requires
        pattern_to_add(m, s).len() > 0,
        !m.config.patterns.contains(pattern_to_add(m, s)),
    ensures
        ({
            let m1 = handle_spec(m, MessageView::AddPattern(s)).0;
            let m2 = handle_spec(m1, MessageView::RemovePattern(m.config.patterns.len() as usize)).0;
            m.config.patterns.len() < usize::MAX ==> m2.config.patterns == m.config.patterns
        }),
{
    let ps = m.config.patterns;
    assert(ps.push(pattern_to_add(m, s)).remove(ps.len() as int) =~= ps);
}

/// A throttle input is stored exactly when it parses as a number, and the
/// text is kept as typed either way.
pub proof fn lemma_throttle_input(m: AppModelView, v: Seq<char>)
    ensures
        ({
            let (m1, e) = handle_spec(m, MessageView::SetThrottleDownload(v));
            &&& m1.throttle_dl_input == v
            &&& e.save_config == (parse_u64(v) is Ok)
            &&& parse_u64(v) matches Ok(k) ==> m1.config.throttle_download_kbps == k
            &&& parse_u64(v) is Err ==> m1.config == m.config
        }),
{
    crate::text::lemma_parse_u64_bounded(v);
}

} // verus!
