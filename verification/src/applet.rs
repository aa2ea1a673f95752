use vstd::prelude::*;

use crate::daemon::{
    spec_toggled_mode, toggled_mode, DaemonConfig, DaemonConfigView, DaemonState,
};
use crate::protocol::{
    config_update_request, toggle_request, toggle_request_view, update_request_view, ConfigUpdate,
    ConfigUpdateView, OutgoingMessage, OutgoingView,
};

verus! {

/// What the applet reacts to: clicks in its panel and popup, and reports
/// from the connection to the daemon.
#[derive(Debug)]
pub enum AppMsg {
    /// The popup window with this identifier was closed.
    PopupClosed(u64),
    ToggleRecording,
    /// A request of the desktop's surface machinery (opening or closing the
    /// popup), which the applet hands back to the desktop.
    Surface,
    IpcConnected,
    IpcDisconnected,
    IpcState(DaemonState),
    IpcTranscript(String),
    ConfigReceived(DaemonConfig),
    MinAudioMsChanged(u64),
    /// A new voice-activity threshold, as a single-precision bit pattern.
    VadThresholdChanged(u32),
    ToggleMode,
}

pub enum AppMsgView {
    PopupClosed(u64),
    ToggleRecording,
    Surface,
    IpcConnected,
    IpcDisconnected,
    IpcState(DaemonState),
    IpcTranscript(Seq<char>),
    ConfigReceived(DaemonConfigView),
    MinAudioMsChanged(u64),
    VadThresholdChanged(u32),
    ToggleMode,
}

impl View for AppMsg {
    type V = AppMsgView;

    open spec fn view(&self) -> AppMsgView {
        match self {
            AppMsg::PopupClosed(id) => AppMsgView::PopupClosed(*id),
            AppMsg::ToggleRecording => AppMsgView::ToggleRecording,
            AppMsg::Surface => AppMsgView::Surface,
            AppMsg::IpcConnected => AppMsgView::IpcConnected,
            AppMsg::IpcDisconnected => AppMsgView::IpcDisconnected,
            AppMsg::IpcState(s) => AppMsgView::IpcState(*s),
            AppMsg::IpcTranscript(t) => AppMsgView::IpcTranscript(t@),
            AppMsg::ConfigReceived(c) => AppMsgView::ConfigReceived(c@),
            AppMsg::MinAudioMsChanged(ms) => AppMsgView::MinAudioMsChanged(*ms),
            AppMsg::VadThresholdChanged(b) => AppMsgView::VadThresholdChanged(*b),
            AppMsg::ToggleMode => AppMsgView::ToggleMode,
        }
    }
}


/// The applet's state: the open popup, what it last heard from the daemon,
/// and whether it is connected.
#[derive(Debug)]
pub struct AppModel {
    popup: Option<u64>,
    state: DaemonState,
    connected: bool,
    last_transcript: String,
    config: Option<DaemonConfig>,
}

pub struct AppModelView {
    pub popup: Option<u64>,
    pub state: DaemonState,
    pub connected: bool,
    pub last_transcript: Seq<char>,
    pub config: Option<DaemonConfigView>,
}

impl View for AppModel {
    type V = AppModelView;

    closed spec fn view(&self) -> AppModelView {
        AppModelView {
            popup: self.popup,
            state: self.state,
            connected: self.connected,
            last_transcript: self.last_transcript@,
            config: match self.config {
                Some(c) => Some(c@),
                None => None,
            },
        }
    }
}

/// What the applet must do after a message, besides changing its state.
#[derive(Debug)]
pub enum Effect {
    Nothing,
    /// Hand the surface request of the message back to the desktop.
    ForwardSurface,
    /// Send this request to the daemon over a connection of its own.
    Send(OutgoingMessage),
}

pub enum EffectView {
    Nothing,
    ForwardSurface,
    Send(OutgoingView),
}

impl View for Effect {
    type V = EffectView;

    open spec fn view(&self) -> EffectView {
        match self {
            Effect::Nothing => EffectView::Nothing,
            Effect::ForwardSurface => EffectView::ForwardSurface,
            Effect::Send(m) => EffectView::Send(m@),
        }
    }
}

/// What a click on the panel's mic icon does.
#[derive(Clone, Copy, Debug, PartialEq, Eq, Structural)]
pub enum IconAction {
    /// Close the open popup with this identifier.
    ClosePopup(u64),
    /// Start a session: the click is a [`AppMsg::ToggleRecording`].
    ToggleRecording,
    /// Open the popup, which holds the stop button and the settings.
    OpenPopup,
}

/// A click on the mic icon toggles recording when the daemon waits (no
/// session under way); a second click, while a session runs, opens the
/// popup with its stop button and settings; a click with the popup open
/// closes it.
pub open spec fn icon_action_of(m: AppModelView) -> IconAction {
    match m.popup {
        Some(id) => IconAction::ClosePopup(id),
        None => if m.state.spec_is_busy() {
            IconAction::OpenPopup
        } else {
            IconAction::ToggleRecording
        },
    }
}

/// The state in which the applet starts: idle, offline, with no popup, no
/// transcript and no configuration.
pub open spec fn initial_model() -> AppModelView {
    AppModelView {
        popup: None,
        state: DaemonState::Idle,
        connected: false,
        last_transcript: Seq::empty(),
        config: None,
    }
}

/// A configuration in which one setting is changed.
pub open spec fn with_update(c: DaemonConfigView, u: ConfigUpdateView) -> DaemonConfigView {
    match u {
        ConfigUpdateView::MinAudioMs(ms) => DaemonConfigView { min_audio_ms: ms, ..c },
        ConfigUpdateView::VadThreshold(b) => DaemonConfigView { vad_threshold_bits: b, ..c },
        ConfigUpdateView::Mode(m) => DaemonConfigView { mode: m, ..c },
    }
}

/// A change of one setting from the popup: it changes the configuration that
/// the applet shows and is sent to the daemon. Without a configuration there
/// is nothing to change and nothing is sent.
pub open spec fn change_setting(m: AppModelView, u: ConfigUpdateView) -> (AppModelView, EffectView) {
    match m.config {
        Some(c) => (
            AppModelView { config: Some(with_update(c, u)), ..m },
            EffectView::Send(update_request_view(u)),
        ),
        None => (m, EffectView::Nothing),
    }
}

/// How the applet answers a message: its next state and what it must do.
pub open spec fn next_model(m: AppModelView, msg: AppMsgView) -> (AppModelView, EffectView) {
    match msg {
        AppMsgView::PopupClosed(id) => {
            if m.popup == Some(id) {
                (AppModelView { popup: None, ..m }, EffectView::Nothing)
            } else {
                (m, EffectView::Nothing)
            }
        },
        AppMsgView::ToggleRecording => (m, EffectView::Send(toggle_request_view(m.state))),
        AppMsgView::Surface => (m, EffectView::ForwardSurface),
        AppMsgView::IpcConnected => (AppModelView { connected: true, ..m }, EffectView::Nothing),
        AppMsgView::IpcDisconnected => (
            AppModelView { connected: false, ..m },
            EffectView::Nothing,
        ),
        AppMsgView::IpcState(s) => (AppModelView { state: s, ..m }, EffectView::Nothing),
        AppMsgView::IpcTranscript(t) => (
            AppModelView { last_transcript: t, ..m },
            EffectView::Nothing,
        ),
        AppMsgView::ConfigReceived(c) => (AppModelView { config: Some(c), ..m }, EffectView::Nothing),
        AppMsgView::MinAudioMsChanged(ms) => change_setting(m, ConfigUpdateView::MinAudioMs(ms)),
        AppMsgView::VadThresholdChanged(b) => change_setting(m, ConfigUpdateView::VadThreshold(b)),
        AppMsgView::ToggleMode => match m.config {
            Some(c) => change_setting(m, ConfigUpdateView::Mode(spec_toggled_mode(c.mode))),
            None => (m, EffectView::Nothing),
        },
    }
}

impl Default for AppModel {
    fn default() -> (m: Self)
        ensures
            m@ == initial_model(),
    {
        AppModel {
            popup: None,
            state: DaemonState::Idle,
            connected: false,
            last_transcript: String::new(),
            config: None,
        }
    }
}

impl AppModel {
    pub fn popup(&self) -> (p: Option<u64>)
        ensures
            p == self@.popup,
    {
        self.popup
    }

    pub fn state(&self) -> (s: DaemonState)
        ensures
            s == self@.state,
    {
        self.state
    }

    pub fn connected(&self) -> (c: bool)
        ensures
            c == self@.connected,
    {
        self.connected
    }

    pub fn last_transcript(&self) -> (t: &str)
        ensures
            t@ == self@.last_transcript,
    {
        self.last_transcript.as_str()
    }

    pub fn config(&self) -> (c: Option<&DaemonConfig>)
        ensures
            match c {
                Some(x) => self@.config == Some(x@),
                None => self@.config is None,
            },
    {
        match &self.config {
            Some(c) => Some(c),
            None => None,
        }
    }

    /// What a click on the panel's mic icon does.
    pub fn icon_click(&self) -> (r: IconAction)
        ensures
            r == icon_action_of(self@),
    {
        match self.popup {
            Some(id) => IconAction::ClosePopup(id),
            None => if self.state.is_busy() {
                IconAction::OpenPopup
            } else {
                IconAction::ToggleRecording
            },
        }
    }

    /// The desktop opened a popup with this identifier for the applet.
    pub fn popup_opened(&mut self, id: u64)
        ensures
            final(self)@ == (AppModelView { popup: Some(id), ..old(self)@ }),
    {
        self.popup = Some(id);
    }

    fn apply_setting(&mut self, u: ConfigUpdate) -> (e: Effect)
        ensures
            final(self)@ == change_setting(old(self)@, u@).0,
            e@ == change_setting(old(self)@, u@).1,
    {
        match self.config.take() {
            Some(mut c) => {
                match &u {
                    ConfigUpdate::MinAudioMs(ms) => {
                        c.min_audio_ms = *ms;
                    },
                    ConfigUpdate::VadThreshold(b) => {
                        c.vad_threshold_bits = *b;
                    },
                    ConfigUpdate::Mode(m) => {
                        c.mode = m.clone();
                    },
                }
                self.config = Some(c);
                Effect::Send(config_update_request(u))
            },
            None => Effect::Nothing,
        }
    }

    /// Answers a message: changes the state and says what must be done.
    pub fn update(&mut self, msg: AppMsg) -> (e: Effect)
        ensures
            final(self)@ == next_model(old(self)@, msg@).0,
            e@ == next_model(old(self)@, msg@).1,
    {
        match msg {
            AppMsg::PopupClosed(id) => {
                if self.popup == Some(id) {
                    self.popup = None;
                }
                Effect::Nothing
            },
            AppMsg::ToggleRecording => Effect::Send(toggle_request(self.state)),
            AppMsg::Surface => Effect::ForwardSurface,
            AppMsg::IpcConnected => {
                self.connected = true;
                Effect::Nothing
            },
            AppMsg::IpcDisconnected => {
                self.connected = false;
                Effect::Nothing
            },
            AppMsg::IpcState(s) => {
                self.state = s;
                Effect::Nothing
            },
            AppMsg::IpcTranscript(t) => {
                self.last_transcript = t;
                Effect::Nothing
            },
            AppMsg::ConfigReceived(c) => {
                self.config = Some(c);
                Effect::Nothing
            },
            AppMsg::MinAudioMsChanged(ms) => self.apply_setting(ConfigUpdate::MinAudioMs(ms)),
            AppMsg::VadThresholdChanged(b) => self.apply_setting(ConfigUpdate::VadThreshold(b)),
            AppMsg::ToggleMode => {
                let new_mode = match &self.config {
                    Some(c) => Some(toggled_mode(c.mode.as_str())),
                    None => None,
                };
                match new_mode {
                    Some(m) => self.apply_setting(ConfigUpdate::Mode(m.to_owned())),
                    None => Effect::Nothing,
                }
            },
        }
    }
}

} // verus!
