use lds_cosmic_applet::applet::{AppModel, AppMsg, Effect, IconAction};
use lds_cosmic_applet::daemon::{DaemonConfig, DaemonState};
use lds_cosmic_applet::protocol::PayloadValue;

fn config(mode: &str) -> DaemonConfig {
    DaemonConfig {
        min_audio_ms: 1500,
        vad_threshold_bits: 0.5f32.to_bits(),
        chunk_interval_ms: 2000,
        vad_min_silence_ms: 500,
        mode: mode.to_string(),
        auto_type: true,
    }
}

fn sent(e: Effect) -> (String, String, Option<(String, PayloadValue)>) {
    match e {
        Effect::Send(m) => (m.msg_type, m.id, m.setting),
        other => panic!("expected a request, got {:?}", other),
    }
}

#[test]
fn model_starts_idle_and_offline() {
    let m = AppModel::default();
    assert_eq!(m.state(), DaemonState::Idle);
    assert!(!m.connected());
    assert_eq!(m.last_transcript(), "");
    assert!(m.config().is_none());
    assert_eq!(m.popup(), None);
}

#[test]
fn connection_reports_set_the_flag() {
    let mut m = AppModel::default();
    assert!(matches!(m.update(AppMsg::IpcConnected), Effect::Nothing));
    assert!(m.connected());
    assert!(matches!(m.update(AppMsg::IpcDisconnected), Effect::Nothing));
    assert!(!m.connected());
}

#[test]
fn state_and_transcript_reports_are_kept() {
    let mut m = AppModel::default();
    assert!(matches!(m.update(AppMsg::IpcState(DaemonState::Streaming)), Effect::Nothing));
    assert_eq!(m.state(), DaemonState::Streaming);
    assert!(matches!(m.update(AppMsg::IpcTranscript("hi there".to_string())), Effect::Nothing));
    assert_eq!(m.last_transcript(), "hi there");
}

#[test]
fn toggle_recording_sends_start_or_stop() {
    let mut m = AppModel::default();
    let (t, id, p) = sent(m.update(AppMsg::ToggleRecording));
    assert_eq!((t.as_str(), id.as_str(), p.is_none()), ("start_session", "applet-toggle", true));
    m.update(AppMsg::IpcState(DaemonState::Recording));
    let (t, _, _) = sent(m.update(AppMsg::ToggleRecording));
    assert_eq!(t, "stop_session");
    assert_eq!(m.state(), DaemonState::Recording);
}

#[test]
fn surface_requests_are_forwarded() {
    let mut m = AppModel::default();
    assert!(matches!(m.update(AppMsg::Surface), Effect::ForwardSurface));
}

#[test]
fn settings_before_config_are_ignored() {
    let mut m = AppModel::default();
    assert!(matches!(m.update(AppMsg::MinAudioMsChanged(900)), Effect::Nothing));
    assert!(matches!(m.update(AppMsg::VadThresholdChanged(1)), Effect::Nothing));
    assert!(matches!(m.update(AppMsg::ToggleMode), Effect::Nothing));
    assert!(m.config().is_none());
}

#[test]
fn min_audio_change_is_kept_and_sent() {
    let mut m = AppModel::default();
    m.update(AppMsg::ConfigReceived(config("batch")));
    let (t, id, p) = sent(m.update(AppMsg::MinAudioMsChanged(900)));
    assert_eq!((t.as_str(), id.as_str()), ("update_config", "applet-config"));
    match p {
        Some((k, PayloadValue::Unsigned(900))) => assert_eq!(k, "min_audio_ms"),
        other => panic!("unexpected {:?}", other),
    }
    assert_eq!(m.config().unwrap().min_audio_ms, 900);
    assert_eq!(m.config().unwrap().chunk_interval_ms, 2000);
}

#[test]
fn threshold_change_is_kept_and_sent() {
    let mut m = AppModel::default();
    m.update(AppMsg::ConfigReceived(config("batch")));
    let bits = 0.35f32.to_bits();
    let (_, _, p) = sent(m.update(AppMsg::VadThresholdChanged(bits)));
    match p {
        Some((k, PayloadValue::Single(b))) => {
            assert_eq!(k, "vad_threshold");
            assert_eq!(b, bits);
        },
        other => panic!("unexpected {:?}", other),
    }
    assert_eq!(m.config().unwrap().vad_threshold_bits, bits);
}

#[test]
fn toggle_mode_switches_and_sends() {
    let mut m = AppModel::default();
    m.update(AppMsg::ConfigReceived(config("streaming")));
    let (_, _, p) = sent(m.update(AppMsg::ToggleMode));
    match p {
        Some((k, PayloadValue::Text(v))) => {
            assert_eq!(k, "mode");
            assert_eq!(v, "batch");
        },
        other => panic!("unexpected {:?}", other),
    }
    assert_eq!(m.config().unwrap().mode, "batch");
    sent(m.update(AppMsg::ToggleMode));
    assert_eq!(m.config().unwrap().mode, "streaming");
}

#[test]
fn popup_opens_and_closes() {
    let mut m = AppModel::default();
    m.update(AppMsg::IpcState(DaemonState::Recording));
    assert_eq!(m.icon_click(), IconAction::OpenPopup);
    m.popup_opened(4);
    assert_eq!(m.popup(), Some(4));
    assert_eq!(m.icon_click(), IconAction::ClosePopup(4));
    assert!(matches!(m.update(AppMsg::PopupClosed(5)), Effect::Nothing));
    assert_eq!(m.popup(), Some(4));
    m.update(AppMsg::PopupClosed(4));
    assert_eq!(m.popup(), None);
    assert_eq!(m.icon_click(), IconAction::OpenPopup);
}

#[test]
fn icon_click_starts_recording_when_idle() {
    for s in [DaemonState::Idle, DaemonState::ClipboardWritten, DaemonState::Unknown] {
        let mut m = AppModel::default();
        m.update(AppMsg::IpcState(s));
        assert_eq!(m.icon_click(), IconAction::ToggleRecording);
        let (t, _, _) = sent(m.update(AppMsg::ToggleRecording));
        assert_eq!(t, "start_session");
    }
    for s in [DaemonState::Recording, DaemonState::Streaming, DaemonState::Transcribing] {
        let mut m = AppModel::default();
        m.update(AppMsg::IpcState(s));
        assert_eq!(m.icon_click(), IconAction::OpenPopup);
        assert_eq!(m.popup_view().toggle_label, "Stop Recording");
    }
}

#[test]
fn new_config_replaces_the_old() {
    let mut m = AppModel::default();
    m.update(AppMsg::ConfigReceived(config("batch")));
    m.update(AppMsg::ConfigReceived(config("streaming")));
    assert_eq!(m.config().unwrap().mode, "streaming");
}
