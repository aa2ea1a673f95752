use lds_cosmic_applet::applet::{AppModel, AppMsg};
use lds_cosmic_applet::daemon::{DaemonConfig, DaemonState};
use lds_cosmic_applet::json::Json;
use lds_cosmic_applet::protocol::toggle_request;
use lds_cosmic_applet::view::{
    connection_label, icon_name, min_audio_caption, mode_label, status_text, toggle_label,
};

#[test]
fn icon_follows_state() {
    assert_eq!(icon_name(DaemonState::Idle), "audio-input-microphone-symbolic");
    assert_eq!(icon_name(DaemonState::ClipboardWritten), "audio-input-microphone-symbolic");
    assert_eq!(icon_name(DaemonState::Unknown), "audio-input-microphone-symbolic");
    assert_eq!(icon_name(DaemonState::Recording), "lds-recording-symbolic");
    assert_eq!(icon_name(DaemonState::Streaming), "lds-recording-symbolic");
    assert_eq!(icon_name(DaemonState::Transcribing), "content-loading-symbolic");
}

#[test]
fn status_texts() {
    assert_eq!(status_text(DaemonState::Idle, true), "Idle");
    assert_eq!(status_text(DaemonState::Recording, true), "● Recording...");
    assert_eq!(status_text(DaemonState::Streaming, false), "● Recording...");
    assert_eq!(status_text(DaemonState::Transcribing, true), "Transcribing...");
    assert_eq!(status_text(DaemonState::ClipboardWritten, true), "✓ Copied");
    assert_eq!(status_text(DaemonState::ClipboardWritten, false), "✓ Copied — see transcript");
    assert_eq!(status_text(DaemonState::Unknown, false), "Unknown");
}

#[test]
fn button_and_connection_labels() {
    assert_eq!(toggle_label(DaemonState::Idle), "Start Recording");
    assert_eq!(toggle_label(DaemonState::Unknown), "Start Recording");
    assert_eq!(toggle_label(DaemonState::ClipboardWritten), "Start Recording");
    assert_eq!(toggle_label(DaemonState::Transcribing), "Stop Recording");
    assert_eq!(connection_label(true), "● Connected");
    assert_eq!(connection_label(false), "○ Offline");
    assert_eq!(mode_label("streaming"), "Mode: Streaming (click for Batch)");
    assert_eq!(mode_label("batch"), "Mode: Batch (click for Streaming)");
    assert_eq!(mode_label("other"), "Mode: Batch (click for Streaming)");
}

#[test]
fn min_audio_captions() {
    assert_eq!(min_audio_caption(1500), "Min audio: 1500ms");
    assert_eq!(min_audio_caption(0), "Min audio: 0ms");
    assert_eq!(min_audio_caption(100), "Min audio: 100ms");
    assert_eq!(min_audio_caption(u64::MAX), format!("Min audio: {}ms", u64::MAX));
}

#[test]
fn panel_view_of_model() {
    let mut m = AppModel::default();
    let p = m.panel_view();
    assert_eq!(p.icon_name, "audio-input-microphone-symbolic");
    assert!(p.destructive);
    assert!(!p.popup_open);
    m.update(AppMsg::IpcConnected);
    m.update(AppMsg::IpcState(DaemonState::Transcribing));
    m.popup_opened(1);
    let p = m.panel_view();
    assert_eq!(p.icon_name, "content-loading-symbolic");
    assert!(!p.destructive);
    assert!(p.popup_open);
}

#[test]
fn popup_view_of_model() {
    let mut m = AppModel::default();
    let v = m.popup_view();
    assert_eq!(v.status_text, "Idle");
    assert_eq!(v.transcript_preview, "");
    assert_eq!(v.toggle_label, "Start Recording");
    assert_eq!(v.connection_label, "○ Offline");
    assert!(v.settings.is_none());

    m.update(AppMsg::IpcState(DaemonState::ClipboardWritten));
    m.update(AppMsg::IpcTranscript("done".to_string()));
    m.update(AppMsg::IpcConnected);
    m.update(AppMsg::ConfigReceived(DaemonConfig {
        min_audio_ms: 750,
        vad_threshold_bits: 0.4f32.to_bits(),
        chunk_interval_ms: 2000,
        vad_min_silence_ms: 500,
        mode: "streaming".to_string(),
        auto_type: true,
    }));
    let v = m.popup_view();
    assert_eq!(v.status_text, "✓ Copied — see transcript");
    assert_eq!(v.transcript_preview, "done");
    assert_eq!(v.connection_label, "● Connected");
    let s = v.settings.unwrap();
    assert_eq!(s.mode_label, "Mode: Streaming (click for Batch)");
    assert_eq!(s.min_audio_caption, "Min audio: 750ms");
    assert_eq!(s.min_audio_ms, 750);
    assert_eq!(s.vad_threshold_bits, 0.4f32.to_bits());
}

#[test]
fn changed_setting_is_shown() {
    let mut m = AppModel::default();
    m.update(AppMsg::ConfigReceived(DaemonConfig {
        min_audio_ms: 750,
        vad_threshold_bits: 0,
        chunk_interval_ms: 2000,
        vad_min_silence_ms: 500,
        mode: "batch".to_string(),
        auto_type: true,
    }));
    m.update(AppMsg::MinAudioMsChanged(2300));
    let s = m.popup_view().settings.unwrap();
    assert_eq!(s.min_audio_ms, 2300);
    assert_eq!(s.min_audio_caption, "Min audio: 2300ms");
    m.update(AppMsg::ToggleMode);
    assert_eq!(m.popup_view().settings.unwrap().mode_label, "Mode: Streaming (click for Batch)");
}

#[test]
fn toggle_label_matches_request() {
    for s in [
        DaemonState::Idle,
        DaemonState::Recording,
        DaemonState::Transcribing,
        DaemonState::Streaming,
        DaemonState::ClipboardWritten,
        DaemonState::Unknown,
    ] {
        let starts = toggle_request(s).msg_type == "start_session";
        assert_eq!(toggle_label(s) == "Start Recording", starts);
    }
}

#[test]
fn decoded_report_reaches_the_display() {
    let report = Json::Object(vec![
        ("type".to_string(), Json::Text("status".to_string())),
        (
            "payload".to_string(),
            Json::Object(vec![("state".to_string(), Json::Text("Transcribing".to_string()))]),
        ),
    ]);
    let mut m = AppModel::default();
    let msg = lds_cosmic_applet::protocol::decode_message(&report).unwrap();
    m.update(msg);
    assert_eq!(m.panel_view().icon_name, "content-loading-symbolic");
    assert_eq!(m.popup_view().status_text, "Transcribing...");
    assert_eq!(m.popup_view().toggle_label, "Stop Recording");
}
