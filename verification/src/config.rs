//! Persisted settings and the state shared between applet instances.

use vstd::prelude::*;
use vstd::string::*;
use crate::text::views;

verus! {

/// Runtime monitoring state, written by the leader applet instance and
/// mirrored by the others (one applet process runs per panel/output).
#[derive(Debug)]
pub struct MonitorState {
    pub is_engaged: bool,
    pub matched_processes: Vec<String>,
    /// Empty string means no error.
    pub last_error: String,
    /// Whether the saved speed limits below are meaningful. Persisted so the
    /// limits from before the throttle survive an applet restart while the
    /// throttle is engaged.
    pub has_saved_limits: bool,
    /// Speed limits (bytes/sec) captured before the throttle was applied.
    pub saved_download_limit: u64,
    pub saved_upload_limit: u64,
}

/// The plain value of a [`MonitorState`].
pub struct MonitorStateView {
    pub is_engaged: bool,
    pub matched_processes: Seq<Seq<char>>,
    pub last_error: Seq<char>,
    pub has_saved_limits: bool,
    pub saved_download_limit: u64,
    pub saved_upload_limit: u64,
}

impl View for MonitorState {
    type V = MonitorStateView;

    open spec fn view(&self) -> MonitorStateView {
        MonitorStateView {
            is_engaged: self.is_engaged,
            matched_processes: views(self.matched_processes@),
            last_error: self.last_error@,
            has_saved_limits: self.has_saved_limits,
            saved_download_limit: self.saved_download_limit,
            saved_upload_limit: self.saved_upload_limit,
        }
    }
}

/// A copy of a list of strings.
pub fn clone_strings(v: &Vec<String>) -> (res: Vec<String>)
    ensures
        views(res@) == views(v@),
{
    let res = v.clone();
    proof {
        assert forall|i: int| 0 <= i < v@.len() implies res@[i]@ == v@[i]@ by {
            assert(cloned::<String>(v[i], res[i]));
        }
        assert(views(res@) =~= views(v@));
    }
    res
}

impl Clone for MonitorState {
    fn clone(&self) -> (res: Self)
        ensures
            res@ == self@,
    {
        let matched_processes = clone_strings(&self.matched_processes);
        MonitorState {
            is_engaged: self.is_engaged,
            matched_processes,
            last_error: self.last_error.clone(),
            has_saved_limits: self.has_saved_limits,
            saved_download_limit: self.saved_download_limit,
            saved_upload_limit: self.saved_upload_limit,
        }
    }
}

impl Default for MonitorState {
    fn default() -> (res: Self)
        ensures
            !res.is_engaged,
            res.matched_processes@.len() == 0,
            res.last_error@.len() == 0,
            !res.has_saved_limits,
            res.saved_download_limit == 0,
            res.saved_upload_limit == 0,
    {
        MonitorState {
            is_engaged: false,
            matched_processes: Vec::new(),
            last_error: String::new(),
            has_saved_limits: false,
            saved_download_limit: 0,
            saved_upload_limit: 0,
        }
    }
}

/// Quit broadcast, written by whichever applet instance the user quit from
/// and watched by all instances (SIGTERM cannot cross Flatpak sandboxes).
#[derive(Debug, Clone, Copy, PartialEq, Eq, Structural)]
pub struct QuitSignal {
    /// Milliseconds since the Unix epoch; instances started before this
    /// moment quit when they observe it.
    pub quit_at_millis: u64,
}

impl Default for QuitSignal {
    fn default() -> (res: Self)
        ensures
            res.quit_at_millis == 0,
    {
        QuitSignal { quit_at_millis: 0 }
    }
}

/// Which torrent client (and API dialect) to talk to.
#[derive(Debug, Clone, Copy, PartialEq, Eq, Structural)]
pub enum ClientKind {
    /// qBittorrent 5.x (WebAPI 2.11+).
    QbitV5,
    /// qBittorrent 4.x.
    QbitV4,
    /// Transmission (RPC).
    Transmission,
}

/// All selectable client kinds, in the order shown in the GUI.
pub open spec fn all_client_kinds() -> Seq<ClientKind> {
    seq![ClientKind::QbitV5, ClientKind::QbitV4, ClientKind::Transmission]
}

/// The product name shown for each client kind (not localized).
pub open spec fn client_label(kind: ClientKind) -> Seq<char> {
    match kind {
        ClientKind::QbitV5 => "qBittorrent 5.x"@,
        ClientKind::QbitV4 => "qBittorrent 4.x"@,
        ClientKind::Transmission => "Transmission"@,
    }
}

impl Default for ClientKind {
    fn default() -> (res: Self)
        ensures
            res == ClientKind::QbitV5,
    {
        ClientKind::QbitV5
    }
}

impl ClientKind {
    /// All selectable client kinds, in the order shown in the GUI.
    pub fn all() -> (res: Vec<ClientKind>)
        ensures
            res@ == all_client_kinds(),
    {
        let v = vec![ClientKind::QbitV5, ClientKind::QbitV4, ClientKind::Transmission];
        proof {
            assert(v@ =~= all_client_kinds());
        }
        v
    }

    /// Display label of this kind (a product name, not localized).
    pub fn label(&self) -> (res: String)
        ensures
            res@ == client_label(*self),
    {
        match self {
            ClientKind::QbitV5 => String::from_str("qBittorrent 5.x"),
            ClientKind::QbitV4 => String::from_str("qBittorrent 4.x"),
            ClientKind::Transmission => String::from_str("Transmission"),
        }
    }

    /// Display labels matching [`ClientKind::all`].
    pub fn labels() -> (res: Vec<String>)
        ensures
            res@.len() == all_client_kinds().len(),
            forall|i: int|
                0 <= i < res@.len() ==> #[trigger] res@[i]@ == client_label(all_client_kinds()[i]),
    {
        let mut v: Vec<String> = Vec::new();
        v.push(ClientKind::QbitV5.label());
        v.push(ClientKind::QbitV4.label());
        v.push(ClientKind::Transmission.label());
        v
    }

    /// Position within [`ClientKind::all`], for dropdown selection state.
    pub fn index(&self) -> (res: usize)
        ensures
            res < all_client_kinds().len(),
            all_client_kinds()[res as int] == *self,
    {
        match self {
            ClientKind::QbitV5 => 0,
            ClientKind::QbitV4 => 1,
            ClientKind::Transmission => 2,
        }
    }
}

/// What action to take when a matching process is detected.
#[derive(Debug, Clone, Copy, PartialEq, Eq, Structural)]
pub enum ActionMode {
    /// Pause all torrents.
    Pause,
    /// Set a global speed throttle (KB/s). 0 means unlimited.
    Throttle,
}

impl Default for ActionMode {
    fn default() -> (res: Self)
        ensures
            res == ActionMode::Pause,
    {
        ActionMode::Pause
    }
}

/// The user's settings, shared by the settings window and the applet.
#[derive(Debug)]
pub struct Config {
    /// Which torrent client to control.
    pub client_kind: ClientKind,
    pub qbit_url: String,
    pub qbit_username: String,
    pub qbit_password: String,
    pub patterns: Vec<String>,
    pub poll_interval_secs: u64,
    pub enabled: bool,
    /// Whether to pause or throttle when a match is detected.
    pub action_mode: ActionMode,
    /// Download speed limit in KB/s to apply when throttling (0 = unlimited).
    pub throttle_download_kbps: u64,
    /// Upload speed limit in KB/s to apply when throttling (0 = unlimited).
    pub throttle_upload_kbps: u64,
}

/// The plain value of a [`Config`].
pub struct ConfigView {
    pub client_kind: ClientKind,
    pub qbit_url: Seq<char>,
    pub qbit_username: Seq<char>,
    pub qbit_password: Seq<char>,
    pub patterns: Seq<Seq<char>>,
    pub poll_interval_secs: u64,
    pub enabled: bool,
    pub action_mode: ActionMode,
    pub throttle_download_kbps: u64,
    pub throttle_upload_kbps: u64,
}

impl View for Config {
    type V = ConfigView;

    open spec fn view(&self) -> ConfigView {
        ConfigView {
            client_kind: self.client_kind,
            qbit_url: self.qbit_url@,
            qbit_username: self.qbit_username@,
            qbit_password: self.qbit_password@,
            patterns: views(self.patterns@),
            poll_interval_secs: self.poll_interval_secs,
            enabled: self.enabled,
            action_mode: self.action_mode,
            throttle_download_kbps: self.throttle_download_kbps,
            throttle_upload_kbps: self.throttle_upload_kbps,
        }
    }
}

impl Clone for Config {
    fn clone(&self) -> (res: Self)
        ensures
            res@ == self@,
    {
        let patterns = clone_strings(&self.patterns);
        Config {
            client_kind: self.client_kind,
            qbit_url: self.qbit_url.clone(),
            qbit_username: self.qbit_username.clone(),
            qbit_password: self.qbit_password.clone(),
            patterns,
            poll_interval_secs: self.poll_interval_secs,
            enabled: self.enabled,
            action_mode: self.action_mode,
            throttle_download_kbps: self.throttle_download_kbps,
            throttle_upload_kbps: self.throttle_upload_kbps,
        }
    }
}

impl Default for Config {
    fn default() -> (res: Self)
        ensures
            res.client_kind == ClientKind::QbitV5,
            res.qbit_url@.len() == 0,
            res.qbit_username@.len() == 0,
            res.qbit_password@.len() == 0,
            res.patterns@.len() == 0,
            res.poll_interval_secs == 0,
            !res.enabled,
            res.action_mode == ActionMode::Pause,
            res.throttle_download_kbps == 0,
            res.throttle_upload_kbps == 0,
    {
        Config {
            client_kind: ClientKind::QbitV5,
            qbit_url: String::new(),
            qbit_username: String::new(),
            qbit_password: String::new(),
            patterns: Vec::new(),
            poll_interval_secs: 0,
            enabled: false,
            action_mode: ActionMode::Pause,
            throttle_download_kbps: 0,
            throttle_upload_kbps: 0,
        }
    }
}

} // verus!
