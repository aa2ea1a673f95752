use vstd::prelude::*;

use crate::applet::{AppMsg, AppMsgView};
use crate::daemon::{DaemonConfig, DaemonConfigView, DaemonState};
use crate::json::Json;
use crate::text::same_text;

verus! {

// ---------------------------------------------------------------------------
// Requests to the daemon
// ---------------------------------------------------------------------------

/// The value of the one setting that a configuration update changes.
#[derive(Debug)]
pub enum PayloadValue {
    Unsigned(u64),
    /// A single-precision number, as its IEEE-754 bit pattern.
    Single(u32),
    Text(String),
}

pub enum PayloadValueView {
    Unsigned(u64),
    Single(u32),
    Text(Seq<char>),
}

impl View for PayloadValue {
    type V = PayloadValueView;

    open spec fn view(&self) -> PayloadValueView {
        match self {
            PayloadValue::Unsigned(n) => PayloadValueView::Unsigned(*n),
            PayloadValue::Single(b) => PayloadValueView::Single(*b),
            PayloadValue::Text(s) => PayloadValueView::Text(s@),
        }
    }
}

/// A request to the daemon: a JSON object with the members `type` and `id`,
/// and, for a configuration update, the one setting it changes as a member
/// of its own beside them
/// (`{"type": "update_config", "id": "applet-config", "min_audio_ms": 1000}`).
#[derive(Debug)]
pub struct OutgoingMessage {
    pub msg_type: String,
    pub id: String,
    pub setting: Option<(String, PayloadValue)>,
}

pub struct OutgoingView {
    pub msg_type: Seq<char>,
    pub id: Seq<char>,
    pub setting: Option<(Seq<char>, PayloadValueView)>,
}

impl View for OutgoingMessage {
    type V = OutgoingView;

    open spec fn view(&self) -> OutgoingView {
        OutgoingView {
            msg_type: self.msg_type@,
            id: self.id@,
            setting: match self.setting {
                Some(p) => Some((p.0@, p.1@)),
                None => None,
            },
        }
    }
}

/// A change of one setting of the daemon.
#[derive(Debug)]
pub enum ConfigUpdate {
    MinAudioMs(u64),
    /// The voice-activity threshold, as a single-precision bit pattern.
    VadThreshold(u32),
    Mode(String),
}

pub enum ConfigUpdateView {
    MinAudioMs(u64),
    VadThreshold(u32),
    Mode(Seq<char>),
}

impl View for ConfigUpdate {
    type V = ConfigUpdateView;

    open spec fn view(&self) -> ConfigUpdateView {
        match self {
            ConfigUpdate::MinAudioMs(n) => ConfigUpdateView::MinAudioMs(*n),
            ConfigUpdate::VadThreshold(b) => ConfigUpdateView::VadThreshold(*b),
            ConfigUpdate::Mode(m) => ConfigUpdateView::Mode(m@),
        }
    }
}

/// The request that asks the daemon for its current state.
pub open spec fn status_request_view() -> OutgoingView {
    OutgoingView { msg_type: "status"@, id: "applet"@, setting: None }
}

/// The request that asks the daemon for its runtime configuration.
pub open spec fn config_request_view() -> OutgoingView {
    OutgoingView { msg_type: "get_config"@, id: "applet"@, setting: None }
}

/// The request that the mic button sends: it stops a session under way and
/// starts one otherwise.
pub open spec fn toggle_request_view(state: DaemonState) -> OutgoingView {
    OutgoingView {
        msg_type: if state.spec_is_busy() {
            "stop_session"@
        } else {
            "start_session"@
        },
        id: "applet-toggle"@,
        setting: None,
    }
}

/// The member that a configuration update carries beside its `type`.
pub open spec fn update_member(update: ConfigUpdateView) -> (Seq<char>, PayloadValueView) {
    match update {
        ConfigUpdateView::MinAudioMs(n) => ("min_audio_ms"@, PayloadValueView::Unsigned(n)),
        ConfigUpdateView::VadThreshold(b) => ("vad_threshold"@, PayloadValueView::Single(b)),
        ConfigUpdateView::Mode(m) => ("mode"@, PayloadValueView::Text(m)),
    }
}

/// The request that changes one setting of the daemon while it runs: its
/// `type`, its `id` and the one setting.
pub open spec fn update_request_view(update: ConfigUpdateView) -> OutgoingView {
    OutgoingView {
        msg_type: "update_config"@,
        id: "applet-config"@,
        setting: Some(update_member(update)),
    }
}

pub fn status_request() -> (m: OutgoingMessage)
    ensures
        m@ == status_request_view(),
{
    OutgoingMessage {
        msg_type: "status".to_owned(),
        id: "applet".to_owned(),
        setting: None,
    }
}

pub fn config_request() -> (m: OutgoingMessage)
    ensures
        m@ == config_request_view(),
{
    OutgoingMessage {
        msg_type: "get_config".to_owned(),
        id: "applet".to_owned(),
        setting: None,
    }
}

pub fn toggle_request(state: DaemonState) -> (m: OutgoingMessage)
    ensures
        m@ == toggle_request_view(state),
{
    let msg_type = if state.is_busy() {
        "stop_session"
    } else {
        "start_session"
    };
    OutgoingMessage {
        msg_type: msg_type.to_owned(),
        id: "applet-toggle".to_owned(),
        setting: None,
    }
}

pub fn config_update_request(update: ConfigUpdate) -> (m: OutgoingMessage)
    ensures
        m@ == update_request_view(update@),
{
    let member = match update {
        ConfigUpdate::MinAudioMs(n) => ("min_audio_ms".to_owned(), PayloadValue::Unsigned(n)),
        ConfigUpdate::VadThreshold(b) => ("vad_threshold".to_owned(), PayloadValue::Single(b)),
        ConfigUpdate::Mode(m) => ("mode".to_owned(), PayloadValue::Text(m)),
    };
    OutgoingMessage {
        msg_type: "update_config".to_owned(),
        id: "applet-config".to_owned(),
        setting: Some(member),
    }
}

// ---------------------------------------------------------------------------
// Messages from the daemon
// ---------------------------------------------------------------------------

/// The state that a state value names: a bare name, or an object whose
/// member names the variant (`{"Streaming": {"partial_text": ...}}`).
/// Anything else reads as idle.
pub open spec fn state_from_value(v: Json) -> DaemonState {
    match v {
        Json::Text(s) => state_from_name(s@),
        _ => {
            if v.field("Streaming"@) is Some {
                DaemonState::Streaming
            } else if v.field("Recording"@) is Some {
                DaemonState::Recording
            } else if v.field("Transcribing"@) is Some {
                DaemonState::Transcribing
            } else {
                DaemonState::Idle
            }
        },
    }
}

/// The state that a bare name stands for; an unknown name reads as idle.
pub open spec fn state_from_name(s: Seq<char>) -> DaemonState {
    if s == "Recording"@ {
        DaemonState::Recording
    } else if s == "Transcribing"@ {
        DaemonState::Transcribing
    } else if s == "ClipboardWritten"@ {
        DaemonState::ClipboardWritten
    } else {
        DaemonState::Idle
    }
}

/// The `type` member of a message, or the empty text where there is none.
pub open spec fn message_type(m: Json) -> Seq<char> {
    match m.field("type"@) {
        Some(t) => match t.text_value() {
            Some(s) => s,
            None => Seq::empty(),
        },
        None => Seq::empty(),
    }
}

/// The single-precision bit pattern of one half.
pub open spec fn half_single_bits() -> u32 {
    0x3f00_0000u32
}

/// The configuration that a `config` payload describes; a member that is
/// missing or of another type takes its default.
pub open spec fn config_from_payload(p: Json) -> DaemonConfigView {
    DaemonConfigView {
        min_audio_ms: match p.field("min_audio_ms"@) {
            Some(v) => match v.u64_value() { Some(n) => n, None => 1500 },
            None => 1500,
        },
        vad_threshold_bits: match p.field("vad_threshold"@) {
            Some(v) => match v.single_value() { Some(b) => b, None => half_single_bits() },
            None => half_single_bits(),
        },
        chunk_interval_ms: match p.field("chunk_interval_ms"@) {
            Some(v) => match v.u64_value() { Some(n) => n, None => 2000 },
            None => 2000,
        },
        vad_min_silence_ms: match p.field("vad_min_silence_ms"@) {
            Some(v) => match v.u64_value() { Some(n) => n as u32, None => 500 },
            None => 500,
        },
        mode: match p.field("mode"@) {
            Some(v) => match v.text_value() { Some(s) => s, None => "batch"@ },
            None => "batch"@,
        },
        auto_type: match p.field("auto_type"@) {
            Some(v) => match v.bool_value() { Some(b) => b, None => true },
            None => true,
        },
    }
}

/// What the applet makes of a message from the daemon: a state report
/// (`status`, with the state under `payload.state`, or `state`, with the
/// state as the payload), a final transcript, or the configuration. Other
/// messages, and those without the members that their type needs, are
/// ignored.
pub open spec fn decoded_message(m: Json) -> Option<AppMsgView> {
    let t = message_type(m);
    if t == "status"@ || t == "state"@ {
        let sv = if t == "status"@ {
            match m.field("payload"@) {
                Some(p) => p.field("state"@),
                None => None,
            }
        } else {
            m.field("payload"@)
        };
        match sv {
            Some(v) => Some(AppMsgView::IpcState(state_from_value(v))),
            None => None,
        }
    } else if t == "final_transcript"@ {
        match m.field("payload"@) {
            Some(p) => match p.field("text"@) {
                Some(x) => match x.text_value() {
                    Some(s) => Some(AppMsgView::IpcTranscript(s)),
                    None => None,
                },
                None => None,
            },
            None => None,
        }
    } else if t == "config"@ {
        match m.field("payload"@) {
            Some(p) => Some(AppMsgView::ConfigReceived(config_from_payload(p))),
            None => None,
        }
    } else {
        None
    }
}

pub fn state_of_value(v: &Json) -> (s: DaemonState)
    ensures
        s == state_from_value(*v),
{
    match v.as_str() {
        Some(name) => {
            if same_text(name, "Recording") {
                DaemonState::Recording
            } else if same_text(name, "Transcribing") {
                DaemonState::Transcribing
            } else if same_text(name, "ClipboardWritten") {
                DaemonState::ClipboardWritten
            } else {
                DaemonState::Idle
            }
        },
        None => {
            if v.get("Streaming").is_some() {
                DaemonState::Streaming
            } else if v.get("Recording").is_some() {
                DaemonState::Recording
            } else if v.get("Transcribing").is_some() {
                DaemonState::Transcribing
            } else {
                DaemonState::Idle
            }
        },
    }
}

fn u64_member(p: &Json, key: &str, default: u64) -> (n: u64)
    ensures
        n == match p.field(key@) {
            Some(v) => match v.u64_value() { Some(x) => x, None => default },
            None => default,
        },
{
    match p.get(key) {
        Some(v) => match v.as_u64() {
            Some(x) => x,
            None => default,
        },
        None => default,
    }
}

pub fn config_of_payload(p: &Json) -> (c: DaemonConfig)
    ensures
        c@ == config_from_payload(*p),
{
    let vad_threshold_bits = match p.get("vad_threshold") {
        Some(v) => match v.as_single_bits() {
            Some(b) => b,
            None => 0x3f00_0000u32,
        },
        None => 0x3f00_0000u32,
    };
    let vad_min_silence_ms: u32 = match p.get("vad_min_silence_ms") {
        Some(v) => match v.as_u64() {
            Some(n) => n as u32,
            None => 500,
        },
        None => 500,
    };
    let mode = match p.get("mode") {
        Some(v) => match v.as_str() {
            Some(s) => s.to_owned(),
            None => "batch".to_owned(),
        },
        None => "batch".to_owned(),
    };
    let auto_type = match p.get("auto_type") {
        Some(v) => match v.as_bool() {
            Some(b) => b,
            None => true,
        },
        None => true,
    };
    DaemonConfig {
        min_audio_ms: u64_member(p, "min_audio_ms", 1500),
        vad_threshold_bits,
        chunk_interval_ms: u64_member(p, "chunk_interval_ms", 2000),
        vad_min_silence_ms,
        mode,
        auto_type,
    }
}

/// What a message from the daemon tells the applet, if anything.
pub fn decode_message(m: &Json) -> (r: Option<AppMsg>)
    ensures
        match r {
            Some(msg) => decoded_message(*m) == Some(msg@),
            None => decoded_message(*m) is None,
        },
{
    proof {
        reveal_strlit("status");
        reveal_strlit("state");
        reveal_strlit("final_transcript");
        reveal_strlit("config");
        reveal_strlit("");
        assert("status"@[0] != "config"@[0]);
        assert("state"@[0] != "config"@[0]);
        assert("final_transcript"@[0] != "config"@[0]);
    }
    let t: &str = match m.get("type") {
        Some(v) => match v.as_str() {
            Some(s) => s,
            None => "",
        },
        None => "",
    };
    assert(t@ == message_type(*m));
    let mut event: Option<AppMsg> = None;
    if same_text(t, "status") || same_text(t, "state") {
        let state_val: Option<&Json> = if same_text(t, "status") {
            match m.get("payload") {
                Some(p) => p.get("state"),
                None => None,
            }
        } else {
            m.get("payload")
        };
        if let Some(sv) = state_val {
            event = Some(AppMsg::IpcState(state_of_value(sv)));
        }
    } else if same_text(t, "final_transcript") {
        if let Some(p) = m.get("payload") {
            if let Some(x) = p.get("text") {
                if let Some(s) = x.as_str() {
                    event = Some(AppMsg::IpcTranscript(s.to_owned()));
                }
            }
        }
    }
    if same_text(t, "config") {
        if let Some(p) = m.get("payload") {
            event = Some(AppMsg::ConfigReceived(config_of_payload(p)));
        }
    }
    event
}

} // verus!
