use vstd::prelude::*;

use crate::applet::{AppModel, AppModelView};
use crate::daemon::{is_streaming_mode, streaming_mode, DaemonConfigView, DaemonState};
use crate::decimal::{decimal, push_decimal};

verus! {

/// The name of the panel icon: a microphone when the daemon waits, a
/// recording mark while it records or streams, a spinner while it
/// transcribes.
pub open spec fn icon_name_of(s: DaemonState) -> Seq<char> {
    match s {
        DaemonState::Recording | DaemonState::Streaming => "lds-recording-symbolic"@,
        DaemonState::Transcribing => "content-loading-symbolic"@,
        _ => "audio-input-microphone-symbolic"@,
    }
}

/// The status line of the popup.
pub open spec fn status_text_of(s: DaemonState, transcript_empty: bool) -> Seq<char> {
    match s {
        DaemonState::Idle => "Idle"@,
        DaemonState::Recording | DaemonState::Streaming => "● Recording..."@,
        DaemonState::Transcribing => "Transcribing..."@,
        DaemonState::ClipboardWritten => if transcript_empty {
            "✓ Copied"@
        } else {
            "✓ Copied — see transcript"@
        },
        DaemonState::Unknown => "Unknown"@,
    }
}

/// The label of the popup's recording button.
pub open spec fn toggle_label_of(s: DaemonState) -> Seq<char> {
    if s.spec_is_busy() {
        "Stop Recording"@
    } else {
        "Start Recording"@
    }
}

pub open spec fn connection_label_of(connected: bool) -> Seq<char> {
    if connected {
        "● Connected"@
    } else {
        "○ Offline"@
    }
}

/// The label of the mode button, which names the mode and the one a click
/// switches to.
pub open spec fn mode_label_of(mode: Seq<char>) -> Seq<char> {
    if mode == streaming_mode() {
        "Mode: Streaming (click for Batch)"@
    } else {
        "Mode: Batch (click for Streaming)"@
    }
}

pub open spec fn min_audio_caption_of(ms: u64) -> Seq<char> {
    "Min audio: "@ + decimal(ms as nat) + "ms"@
}

pub fn icon_name(s: DaemonState) -> (r: &'static str)
    ensures
        r@ == icon_name_of(s),
{
    match s {
        DaemonState::Recording | DaemonState::Streaming => "lds-recording-symbolic",
        DaemonState::Transcribing => "content-loading-symbolic",
        _ => "audio-input-microphone-symbolic",
    }
}

pub fn status_text(s: DaemonState, transcript_empty: bool) -> (r: &'static str)
    ensures
        r@ == status_text_of(s, transcript_empty),
{
    match s {
        DaemonState::Idle => "Idle",
        DaemonState::Recording | DaemonState::Streaming => "● Recording...",
        DaemonState::Transcribing => "Transcribing...",
        DaemonState::ClipboardWritten => if transcript_empty {
            "✓ Copied"
        } else {
            "✓ Copied — see transcript"
        },
        DaemonState::Unknown => "Unknown",
    }
}

pub fn toggle_label(s: DaemonState) -> (r: &'static str)
    ensures
        r@ == toggle_label_of(s),
{
    if s.is_busy() {
        "Stop Recording"
    } else {
        "Start Recording"
    }
}

pub fn connection_label(connected: bool) -> (r: &'static str)
    ensures
        r@ == connection_label_of(connected),
{
    if connected {
        "● Connected"
    } else {
        "○ Offline"
    }
}

pub fn mode_label(mode: &str) -> (r: &'static str)
    ensures
        r@ == mode_label_of(mode@),
{
    if is_streaming_mode(mode) {
        "Mode: Streaming (click for Batch)"
    } else {
        "Mode: Batch (click for Streaming)"
    }
}

pub fn min_audio_caption(ms: u64) -> (r: String)
    ensures
        r@ == min_audio_caption_of(ms),
{
    let mut s = "Min audio: ".to_owned();
    push_decimal(&mut s, ms);
    s.append("ms");
    s
}

/// What the panel shows: the icon, whether the button is marked as an error
/// (the applet is offline), and whether the popup is open.
#[derive(Debug)]
pub struct PanelView {
    pub icon_name: String,
    pub destructive: bool,
    pub popup_open: bool,
}

/// The settings part of the popup, shown once the configuration is known.
#[derive(Debug)]
pub struct SettingsView {
    pub mode_label: String,
    pub min_audio_caption: String,
    /// The position of the minimum-audio slider, in milliseconds.
    pub min_audio_ms: u64,
    /// The position of the threshold slider, as a single-precision bit pattern.
    pub vad_threshold_bits: u32,
}

/// What the popup shows.
#[derive(Debug)]
pub struct PopupView {
    pub status_text: String,
    pub transcript_preview: String,
    pub toggle_label: String,
    pub connection_label: String,
    pub settings: Option<SettingsView>,
}

pub struct PanelSpec {
    pub icon_name: Seq<char>,
    pub destructive: bool,
    pub popup_open: bool,
}

pub struct SettingsSpec {
    pub mode_label: Seq<char>,
    pub min_audio_caption: Seq<char>,
    pub min_audio_ms: u64,
    pub vad_threshold_bits: u32,
}

pub struct PopupSpec {
    pub status_text: Seq<char>,
    pub transcript_preview: Seq<char>,
    pub toggle_label: Seq<char>,
    pub connection_label: Seq<char>,
    pub settings: Option<SettingsSpec>,
}

impl View for PanelView {
    type V = PanelSpec;

    open spec fn view(&self) -> PanelSpec {
        PanelSpec {
            icon_name: self.icon_name@,
            destructive: self.destructive,
            popup_open: self.popup_open,
        }
    }
}

impl View for SettingsView {
    type V = SettingsSpec;

    open spec fn view(&self) -> SettingsSpec {
        SettingsSpec {
            mode_label: self.mode_label@,
            min_audio_caption: self.min_audio_caption@,
            min_audio_ms: self.min_audio_ms,
            vad_threshold_bits: self.vad_threshold_bits,
        }
    }
}

impl View for PopupView {
    type V = PopupSpec;

    open spec fn view(&self) -> PopupSpec {
        PopupSpec {
            status_text: self.status_text@,
            transcript_preview: self.transcript_preview@,
            toggle_label: self.toggle_label@,
            connection_label: self.connection_label@,
            settings: match self.settings {
                Some(s) => Some(s@),
                None => None,
            },
        }
    }
}

pub open spec fn panel_of(m: AppModelView) -> PanelSpec {
    PanelSpec {
        icon_name: icon_name_of(m.state),
        destructive: !m.connected,
        popup_open: m.popup is Some,
    }
}

pub open spec fn settings_of(c: DaemonConfigView) -> SettingsSpec {
    SettingsSpec {
        mode_label: mode_label_of(c.mode),
        min_audio_caption: min_audio_caption_of(c.min_audio_ms),
        min_audio_ms: c.min_audio_ms,
        vad_threshold_bits: c.vad_threshold_bits,
    }
}

pub open spec fn popup_of(m: AppModelView) -> PopupSpec {
    PopupSpec {
        status_text: status_text_of(m.state, m.last_transcript.len() == 0),
        transcript_preview: m.last_transcript,
        toggle_label: toggle_label_of(m.state),
        connection_label: connection_label_of(m.connected),
        settings: match m.config {
            Some(c) => Some(settings_of(c)),
            None => None,
        },
    }
}

impl AppModel {
    pub fn panel_view(&self) -> (v: PanelView)
        ensures
            v@ == panel_of(self@),
    {
        PanelView {
            icon_name: icon_name(self.state()).to_owned(),
            destructive: !self.connected(),
            popup_open: self.popup().is_some(),
        }
    }

    pub fn popup_view(&self) -> (v: PopupView)
        ensures
            v@ == popup_of(self@),
    {
        let transcript = self.last_transcript();
        let settings = match self.config() {
            Some(c) => Some(
                SettingsView {
                    mode_label: mode_label(c.mode.as_str()).to_owned(),
                    min_audio_caption: min_audio_caption(c.min_audio_ms),
                    min_audio_ms: c.min_audio_ms,
                    vad_threshold_bits: c.vad_threshold_bits,
                },
            ),
            None => None,
        };
        PopupView {
            status_text: status_text(self.state(), transcript.is_empty()).to_owned(),
            transcript_preview: transcript.to_owned(),
            toggle_label: toggle_label(self.state()).to_owned(),
            connection_label: connection_label(self.connected()).to_owned(),
            settings,
        }
    }
}

} // verus!
