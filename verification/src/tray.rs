//! The system tray icon's content: which icon, tooltip and menu entries it
//! shows for the state mirrored from the application, and what each entry
//! sends back. The tray protocol itself is spoken outside this crate.

use vstd::prelude::*;
use vstd::string::*;
use crate::applet::icon_spec;
use crate::engine::opt_view;

verus! {

/// Events sent from the tray menu to the application.
#[derive(Debug, Clone, Copy, PartialEq, Eq, Structural)]
pub enum TrayEvent {
    ToggleMonitoring(bool),
    ShowWindow,
    Quit,
}

/// State mirrored from the application into the tray icon and menu.
#[derive(Debug)]
pub struct QbitTray {
    pub enabled: bool,
    pub engaged: bool,
    pub status_text: String,
    pub throttle_text: Option<String>,
    pub error_text: Option<String>,
}

/// Labels of the tray menu, as messages to localize.
#[derive(Debug, Clone, Copy, PartialEq, Eq, Structural)]
pub enum TrayLabel {
    Monitoring,
    Settings,
    Quit,
}

/// One entry of the tray menu.
#[derive(Debug)]
pub enum TrayMenuItem {
    /// The monitoring switch; activating it flips monitoring.
    Checkmark { label: TrayLabel, checked: bool },
    Separator,
    /// A line of text that cannot be activated, with an optional icon.
    Info { text: String, icon_name: Option<String> },
    /// An entry that sends `event` when activated.
    Action { label: TrayLabel, icon: String, event: TrayEvent },
}

/// The plain value of a [`TrayMenuItem`].
pub enum TrayMenuItemView {
    Checkmark { label: TrayLabel, checked: bool },
    Separator,
    Info { text: Seq<char>, icon_name: Option<Seq<char>> },
    Action { label: TrayLabel, icon: Seq<char>, event: TrayEvent },
}

impl View for TrayMenuItem {
    type V = TrayMenuItemView;

    open spec fn view(&self) -> TrayMenuItemView {
        match self {
            TrayMenuItem::Checkmark { label, checked } => TrayMenuItemView::Checkmark {
                label: *label,
                checked: *checked,
            },
            TrayMenuItem::Separator => TrayMenuItemView::Separator,
            TrayMenuItem::Info { text, icon_name } => TrayMenuItemView::Info {
                text: text@,
                icon_name: opt_view(*icon_name),
            },
            TrayMenuItem::Action { label, icon, event } => TrayMenuItemView::Action {
                label: *label,
                icon: icon@,
                event: *event,
            },
        }
    }
}

/// The tooltip text: the status, then the throttle and the error on lines
/// of their own when present.
pub open spec fn tooltip_spec(
    status: Seq<char>,
    throttle: Option<Seq<char>>,
    error: Option<Seq<char>>,
) -> Seq<char> {
    let a = match throttle {
        Some(t) => status + "\n"@ + t,
        None => status,
    };
    match error {
        Some(e) => a + "\n"@ + e,
        None => a,
    }
}

/// The optional lines of the menu.
pub open spec fn info_lines(throttle: Option<Seq<char>>, error: Option<Seq<char>>) -> Seq<TrayMenuItemView> {
    let t = match throttle {
        Some(x) => seq![TrayMenuItemView::Info { text: x, icon_name: None }],
        None => Seq::empty(),
    };
    let e = match error {
        Some(x) => seq![TrayMenuItemView::Info { text: x, icon_name: Some("dialog-error-symbolic"@) }],
        None => Seq::empty(),
    };
    t + e
}

/// The tray menu: the monitoring switch first, then the status, the
/// throttle and the error, then the settings and quit entries.
pub open spec fn menu_spec(t: QbitTrayView) -> Seq<TrayMenuItemView> {
    seq![
        TrayMenuItemView::Checkmark { label: TrayLabel::Monitoring, checked: t.enabled },
        TrayMenuItemView::Separator,
        TrayMenuItemView::Info { text: t.status_text, icon_name: None },
    ] + info_lines(t.throttle_text, t.error_text) + seq![
        TrayMenuItemView::Separator,
        TrayMenuItemView::Action {
            label: TrayLabel::Settings,
            icon: "preferences-system-symbolic"@,
            event: TrayEvent::ShowWindow,
        },
        TrayMenuItemView::Action {
            label: TrayLabel::Quit,
            icon: "application-exit-symbolic"@,
            event: TrayEvent::Quit,
        },
    ]
}

/// The plain value of a [`QbitTray`].
pub struct QbitTrayView {
    pub enabled: bool,
    pub engaged: bool,
    pub status_text: Seq<char>,
    pub throttle_text: Option<Seq<char>>,
    pub error_text: Option<Seq<char>>,
}

impl View for QbitTray {
    type V = QbitTrayView;

    open spec fn view(&self) -> QbitTrayView {
        QbitTrayView {
            enabled: self.enabled,
            engaged: self.engaged,
            status_text: self.status_text@,
            throttle_text: opt_view(self.throttle_text),
            error_text: opt_view(self.error_text),
        }
    }
}

impl QbitTray {
    /// The tray icon: disconnected when monitoring is off, a pause glyph
    /// while engaged, transfer arrows otherwise.
    pub fn icon_name(&self) -> (res: String)
        ensures
            res@ == icon_spec(self.enabled, self.engaged),
    {
        if !self.enabled {
            String::from_str("network-disconnected-symbolic")
        } else if self.engaged {
            String::from_str("media-playback-pause-symbolic")
        } else {
            String::from_str("network-transmit-receive-symbolic")
        }
    }

    /// The tooltip's description text.
    pub fn tool_tip_description(&self) -> (res: String)
        ensures
            res@ == tooltip_spec(self.status_text@, opt_view(self.throttle_text), opt_view(self.error_text)),
    {
        let mut description = self.status_text.clone();
        if let Some(throttle) = &self.throttle_text {
            description.append("\n");
            description.append(throttle.as_str());
        }
        if let Some(error) = &self.error_text {
            description.append("\n");
            description.append(error.as_str());
        }
        description
    }

    /// The menu entries; see [`menu_spec`].
    pub fn menu(&self) -> (res: Vec<TrayMenuItem>)
        ensures
            res@.map_values(|i: TrayMenuItem| i@) == menu_spec(self@),
    {
        let mut items: Vec<TrayMenuItem> = Vec::new();
        items.push(TrayMenuItem::Checkmark { label: TrayLabel::Monitoring, checked: self.enabled });
        items.push(TrayMenuItem::Separator);
        items.push(TrayMenuItem::Info { text: self.status_text.clone(), icon_name: None });
        let ghost head = items@.map_values(|i: TrayMenuItem| i@);
        if let Some(throttle) = &self.throttle_text {
            items.push(TrayMenuItem::Info { text: throttle.clone(), icon_name: None });
        }
        if let Some(error) = &self.error_text {
            items.push(
                TrayMenuItem::Info {
                    text: error.clone(),
                    icon_name: Some(String::from_str("dialog-error-symbolic")),
                },
            );
        }
        let ghost middle = items@.map_values(|i: TrayMenuItem| i@);
        proof {
            assert(middle =~= head + info_lines(opt_view(self.throttle_text), opt_view(self.error_text)));
        }
        items.push(TrayMenuItem::Separator);
        items.push(
            TrayMenuItem::Action {
                label: TrayLabel::Settings,
                icon: String::from_str("preferences-system-symbolic"),
                event: TrayEvent::ShowWindow,
            },
        );
        items.push(
            TrayMenuItem::Action {
                label: TrayLabel::Quit,
                icon: String::from_str("application-exit-symbolic"),
                event: TrayEvent::Quit,
            },
        );
        proof {
            assert(items@.map_values(|i: TrayMenuItem| i@) =~= menu_spec(self@));
        }
        items
    }

    /// Activating the monitoring switch flips it and tells the application.
    pub fn toggle_monitoring(&mut self) -> (res: TrayEvent)
        ensures
            final(self).enabled == !old(self).enabled,
            res == TrayEvent::ToggleMonitoring(final(self).enabled),
            final(self)@ == (QbitTrayView { enabled: !old(self).enabled, ..old(self)@ }),
    {
        self.enabled = !self.enabled;
        TrayEvent::ToggleMonitoring(self.enabled)
    }
}

/// The tray menu starts with the monitoring switch showing whether
/// monitoring is on, then a separator and the status line; it ends with the
/// settings entry, which opens the window, and the quit entry, which quits;
/// the throttle and the error lines appear between them when present.
pub proof fn lemma_menu_layout(t: QbitTrayView)
    ensures
        ({
            let items = menu_spec(t);
            let n = items.len();
            &&& n == 6 + (if t.throttle_text is Some { 1int } else { 0int }) + (if t.error_text is Some {
                1int
            } else {
                0int
            })
            &&& items[0] == TrayMenuItemView::Checkmark { label: TrayLabel::Monitoring, checked: t.enabled }
            &&& items[1] == TrayMenuItemView::Separator
            &&& items[2] == TrayMenuItemView::Info { text: t.status_text, icon_name: None }
            &&& items[n - 3] == TrayMenuItemView::Separator
            &&& items[n - 2] matches TrayMenuItemView::Action { label, event, .. } && label == TrayLabel::Settings
                && event == TrayEvent::ShowWindow
            &&& items[n - 1] matches TrayMenuItemView::Action { label, event, .. } && label == TrayLabel::Quit
                && event == TrayEvent::Quit
            &&& t.throttle_text matches Some(x) ==> items[3] == TrayMenuItemView::Info { text: x, icon_name: None }
            &&& t.error_text matches Some(x) ==> items[n - 4] matches TrayMenuItemView::Info { text, .. } && text
                == x
        }),
{
    let items = menu_spec(t);
    let head = seq![
        TrayMenuItemView::Checkmark { label: TrayLabel::Monitoring, checked: t.enabled },
        TrayMenuItemView::Separator,
        TrayMenuItemView::Info { text: t.status_text, icon_name: None },
    ];
    let mid = info_lines(t.throttle_text, t.error_text);
    let tail = seq![
        TrayMenuItemView::Separator,
        TrayMenuItemView::Action {
            label: TrayLabel::Settings,
            icon: "preferences-system-symbolic"@,
            event: TrayEvent::ShowWindow,
        },
        TrayMenuItemView::Action {
            label: TrayLabel::Quit,
            icon: "application-exit-symbolic"@,
            event: TrayEvent::Quit,
        },
    ];
    assert(items == head + mid + tail);
    let n = items.len();
    assert(items[n - 1] == tail[2]);
    assert(items[n - 2] == tail[1]);
    assert(items[n - 3] == tail[0]);
    if t.throttle_text is Some {
        assert(items[3] == mid[0]);
    }
    if t.error_text is Some {
        assert(items[n - 4] == mid[mid.len() - 1]);
    }
}

/// The icon shows whether monitoring is on and whether torrents are held
/// back: a different icon for off, for engaged and for running.
pub proof fn lemma_icons_differ(enabled: bool, engaged: bool, enabled2: bool, engaged2: bool)
    ensures
        icon_spec(enabled, engaged) == icon_spec(enabled2, engaged2) <==> (enabled == enabled2 && (!enabled
            || engaged == engaged2)),
{
    reveal_strlit("network-disconnected-symbolic");
    reveal_strlit("media-playback-pause-symbolic");
    reveal_strlit("network-transmit-receive-symbolic");
    assert("network-disconnected-symbolic"@[0] != "media-playback-pause-symbolic"@[0]);
    assert("media-playback-pause-symbolic"@[0] != "network-transmit-receive-symbolic"@[0]);
    assert("network-disconnected-symbolic"@.len() != "network-transmit-receive-symbolic"@.len());
}

} // verus!
