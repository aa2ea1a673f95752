//! Properties that hold across the applet's operations.
use vstd::prelude::*;

use crate::applet::{icon_action_of, next_model, AppModelView, AppMsgView, EffectView, IconAction};
use crate::daemon::{batch_mode, spec_toggled_mode, streaming_mode, DaemonConfigView, DaemonState};
use crate::ipc::{
    awaited_action, belongs, emitted, lost, next_ipc, reports_connected, run, well_ordered,
    FrameView, IpcActionView, IpcInputView, IpcPhase, RETRY_DELAY_MS,
};
use crate::json::Json;
use crate::protocol::{
    config_from_payload, decoded_message, toggle_request_view, update_request_view,
    ConfigUpdateView,
};
use crate::view::{
    connection_label_of, icon_name_of, panel_of, popup_of, settings_of, status_text_of,
    toggle_label_of,
};

verus! {

/// The recording button says what a click does: it reads "Start Recording"
/// exactly when the click starts a session, and "Stop Recording" exactly
/// when it stops one.
pub proof fn toggle_label_names_request(s: DaemonState)
    ensures
        toggle_label_of(s) == "Start Recording"@ <==> toggle_request_view(s).msg_type
            == "start_session"@,
        toggle_label_of(s) == "Stop Recording"@ <==> toggle_request_view(s).msg_type
            == "stop_session"@,
{
    reveal_strlit("Start Recording");
    reveal_strlit("Stop Recording");
    reveal_strlit("start_session");
    reveal_strlit("stop_session");
    assert("Start Recording"@[2] != "Stop Recording"@[2]);
    assert("start_session"@[2] != "stop_session"@[2]);
}

/// Two clicks on the mode button bring back the mode one started from,
/// where that mode is streaming or batch.
pub proof fn mode_toggle_round_trip(mode: Seq<char>)
    requires
        mode == streaming_mode() || mode == batch_mode(),
    ensures
        spec_toggled_mode(spec_toggled_mode(mode)) == mode,
        spec_toggled_mode(mode) != mode,
{
    reveal_strlit("streaming");
    reveal_strlit("batch");
    assert(streaming_mode().len() != batch_mode().len());
}

/// A setting changed in the popup is what the popup then shows, and it is
/// sent to the daemon in one update request, once the configuration is known.
pub proof fn setting_change_read_back(m: AppModelView, ms: u64, bits: u32)
    requires
        m.config is Some,
    ensures
        ({
            let (m2, e) = next_model(m, AppMsgView::MinAudioMsChanged(ms));
            &&& popup_of(m2).settings matches Some(s) && s.min_audio_ms == ms
            &&& e == EffectView::Send(update_request_view(ConfigUpdateView::MinAudioMs(ms)))
        }),
        ({
            let (m2, e) = next_model(m, AppMsgView::VadThresholdChanged(bits));
            &&& popup_of(m2).settings matches Some(s) && s.vad_threshold_bits == bits
            &&& e == EffectView::Send(update_request_view(ConfigUpdateView::VadThreshold(bits)))
        }),
        ({
            let (m2, e) = next_model(m, AppMsgView::ToggleMode);
            let new_mode = spec_toggled_mode(m.config->0.mode);
            &&& m2.config matches Some(c) && c.mode == new_mode
            &&& e == EffectView::Send(update_request_view(ConfigUpdateView::Mode(new_mode)))
        }),
{
}

/// Before the configuration is known, the settings controls change nothing
/// and send nothing.
pub proof fn setting_change_needs_config(m: AppModelView, msg: AppMsgView)
    requires
        m.config is None,
        msg is MinAudioMsChanged || msg is VadThresholdChanged || msg is ToggleMode,
    ensures
        next_model(m, msg) == (m, EffectView::Nothing),
{
}

/// The applet sends requests only in answer to the user: reports from the
/// daemon and from the connection change its state and send nothing.
pub proof fn reports_send_nothing(m: AppModelView, msg: AppMsgView)
    requires
        msg is IpcConnected || msg is IpcDisconnected || msg is IpcState || msg is IpcTranscript
            || msg is ConfigReceived || msg is PopupClosed,
    ensures
        next_model(m, msg).1 == EffectView::Nothing,
{
}

/// What the daemon reports is what the applet shows: the last state it
/// reported, the last transcript, the connection.
pub proof fn reports_are_shown(m: AppModelView, s: DaemonState, t: Seq<char>)
    ensures
        next_model(m, AppMsgView::IpcState(s)).0.state == s,
        popup_of(next_model(m, AppMsgView::IpcTranscript(t)).0).transcript_preview == t,
        !panel_of(next_model(m, AppMsgView::IpcConnected).0).destructive,
        popup_of(next_model(m, AppMsgView::IpcConnected).0).connection_label
            == connection_label_of(true),
        panel_of(next_model(m, AppMsgView::IpcDisconnected).0).destructive,
        popup_of(next_model(m, AppMsgView::IpcDisconnected).0).connection_label
            == connection_label_of(false),
{
}

/// A message from the daemon reaches the display: a state report sets the
/// panel icon and the popup's status and button, a configuration report
/// fills the settings, a transcript becomes the preview.
pub proof fn decoded_reports_are_shown(m: AppModelView, j: Json)
    requires
        decoded_message(j) is Some,
    ensures
        ({
            let m2 = next_model(m, decoded_message(j)->0).0;
            &&& decoded_message(j)->0 matches AppMsgView::IpcState(s) ==> {
                &&& panel_of(m2).icon_name == icon_name_of(s)
                &&& popup_of(m2).status_text == status_text_of(s, m.last_transcript.len() == 0)
                &&& popup_of(m2).toggle_label == toggle_label_of(s)
            }
            &&& decoded_message(j)->0 matches AppMsgView::ConfigReceived(c) ==> popup_of(m2).settings
                == Some(settings_of(c))
            &&& decoded_message(j)->0 matches AppMsgView::IpcTranscript(t)
                ==> popup_of(m2).transcript_preview == t
        }),
        next_model(m, decoded_message(j)->0).1 == EffectView::Nothing,
{
}

/// Closing the open popup leaves none open; the close of another window
/// leaves the popup as it was.
pub proof fn popup_close(m: AppModelView, id: u64, other: u64)
    requires
        m.popup == Some(id),
        other != id,
    ensures
        next_model(m, AppMsgView::PopupClosed(id)).0.popup is None,
        next_model(m, AppMsgView::PopupClosed(other)).0 == m,
{
}

/// Whenever the daemon is lost (the socket cannot be opened, the session
/// cannot be set up, or it closes), the applet reports itself offline,
/// waits the retry delay, and then tries to connect again.
pub proof fn lost_connection_is_retried(phase: IpcPhase, input: IpcInputView)
    requires
        (phase == IpcPhase::Connecting && input is SocketFailed) || (phase == IpcPhase::Handshaking
            && input is HandshakeFailed) || (phase == IpcPhase::Open && input == IpcInputView::Received(
            FrameView::Closed,
        )),
    ensures
        next_ipc(phase, input) == (
            IpcPhase::Waiting,
            seq![IpcActionView::Emit(AppMsgView::IpcDisconnected), IpcActionView::Wait(RETRY_DELAY_MS)],
        ),
        next_ipc(next_ipc(phase, input).0, IpcInputView::WaitOver) == (
            IpcPhase::Connecting,
            seq![IpcActionView::Connect],
        ),
{
}

/// A ping is answered with a pong that carries the same bytes, and the
/// session stays open.
pub proof fn ping_is_answered(data: Seq<u8>)
    ensures
        next_ipc(IpcPhase::Open, IpcInputView::Received(FrameView::Ping(data))) == (
            IpcPhase::Open,
            seq![IpcActionView::Pong(data)],
        ),
{
}

/// A click on the mic icon, with no popup open and no session under way,
/// starts a session; during a session it opens the popup, whose button then
/// stops it.
pub proof fn icon_click_toggles_recording(m: AppModelView)
    requires
        m.popup is None,
    ensures
        !m.state.spec_is_busy() ==> icon_action_of(m) == IconAction::ToggleRecording
            && next_model(m, AppMsgView::ToggleRecording).1 == EffectView::Send(
            toggle_request_view(m.state),
        ) && toggle_request_view(m.state).msg_type == "start_session"@,
        m.state.spec_is_busy() ==> icon_action_of(m) == IconAction::OpenPopup
            && popup_of(m).toggle_label == "Stop Recording"@ && toggle_request_view(m.state).msg_type
            == "stop_session"@,
{
}

/// The messages one step hands to the applet: none, or one that keeps the
/// order of [`well_ordered`].
proof fn step_emits(phase: IpcPhase, input: IpcInputView)
    ensures
        ({
            let (q, a) = next_ipc(phase, input);
            let e = emitted(a);
            &&& e.len() <= 1
            &&& e.len() == 0 ==> (q == IpcPhase::Open <==> phase == IpcPhase::Open)
            &&& e.len() == 1 ==> match e[0] {
                AppMsgView::IpcDisconnected => q != IpcPhase::Open,
                AppMsgView::IpcConnected => phase != IpcPhase::Open && q == IpcPhase::Open,
                AppMsgView::IpcState(_) | AppMsgView::IpcTranscript(_) | AppMsgView::ConfigReceived(
                    _,
                ) => phase == IpcPhase::Open && q == IpcPhase::Open,
                _ => false,
            }
        }),
{
    reveal_with_fuel(emitted, 4);
    let (q, a) = next_ipc(phase, input);
    let e = emitted(a);
    assert(emitted(lost().1) =~= seq![AppMsgView::IpcDisconnected]);
    assert(emitted(Seq::<IpcActionView>::empty()) =~= Seq::<AppMsgView>::empty());
    assert(emitted(seq![IpcActionView::Connect]) =~= Seq::<AppMsgView>::empty());
    assert(emitted(seq![IpcActionView::Handshake]) =~= Seq::<AppMsgView>::empty());
    assert(forall|d: Seq<u8>| emitted(seq![IpcActionView::Pong(d)]) =~= Seq::<AppMsgView>::empty());
    assert(forall|m: AppMsgView| emitted(seq![IpcActionView::Emit(m)]) =~= seq![m]);
}

/// Over any run of the connection, the messages it hands to the applet keep
/// their order: only the five kinds of connection and daemon reports; a
/// daemon report only inside a session, after a connect with no disconnect
/// since; a disconnect between any two connects. The session is open
/// exactly when the last connection report says connected.
pub proof fn runs_are_well_ordered(inputs: Seq<IpcInputView>)
    ensures
        well_ordered(run(inputs).1),
        (run(inputs).0 == IpcPhase::Open) == reports_connected(run(inputs).1),
    decreases inputs.len(),
{
    if inputs.len() > 0 {
        let prev = inputs.drop_last();
        runs_are_well_ordered(prev);
        let (p, out) = run(prev);
        let i = inputs.last();
        step_emits(p, i);
        let (q, a) = next_ipc(p, i);
        let e = emitted(a);
        let out2 = out + e;
        assert(run(inputs) == (q, out2));
        if e.len() == 0 {
            assert(out2 =~= out);
        } else {
            assert(out2.drop_last() =~= out);
            assert(out2.last() == e[0]);
        }
    }
}

/// The connection never waits for nothing: outside an open session, the
/// actions of a step end with the action whose outcome the next phase
/// awaits, where the input belonged to the phase it came in; and the start
/// opens the socket, which the starting phase awaits.
pub proof fn every_phase_is_entered_with_its_action(phase: IpcPhase, input: IpcInputView)
    requires
        belongs(phase, input),
    ensures
        ({
            let (q, a) = next_ipc(phase, input);
            q != IpcPhase::Open ==> a.len() > 0 && a.last() == awaited_action(q)
        }),
        awaited_action(IpcPhase::Connecting) == IpcActionView::Connect,
{
}

/// A message whose `type` member is the text `t`.
pub open spec fn typed(m: Json, t: Seq<char>) -> bool {
    m.field("type"@) matches Some(x) && x.text_value() == Some(t)
}

/// A status report and a state report that carry the same state value
/// decode to the same state report: the status report carries it under
/// `payload.state`, the state report as its `payload`.
pub proof fn state_reports_agree(m: Json, n: Json, v: Json)
    requires
        typed(m, "status"@),
        m.field("payload"@) matches Some(p) && p.field("state"@) == Some(v),
        typed(n, "state"@),
        n.field("payload"@) == Some(v),
    ensures
        decoded_message(m) == decoded_message(n),
        decoded_message(m) matches Some(AppMsgView::IpcState(_)),
{
    reveal_strlit("status");
    reveal_strlit("state");
    assert("status"@[4] != "state"@[4]);
}

/// The state that a state report names: a bare name names that state (an
/// unknown name reads as idle), an object names the variant it holds as a
/// member, looked for in the order streaming, recording, transcribing, and
/// anything else reads as idle.
pub proof fn state_report_names_its_state(m: Json, v: Json)
    requires
        typed(m, "state"@),
        m.field("payload"@) == Some(v),
    ensures
        v.text_value() == Some("Recording"@) ==> decoded_message(m) == Some(
            AppMsgView::IpcState(DaemonState::Recording),
        ),
        v.text_value() == Some("Transcribing"@) ==> decoded_message(m) == Some(
            AppMsgView::IpcState(DaemonState::Transcribing),
        ),
        v.text_value() == Some("ClipboardWritten"@) ==> decoded_message(m) == Some(
            AppMsgView::IpcState(DaemonState::ClipboardWritten),
        ),
        (v.text_value() matches Some(s) && s != "Recording"@ && s != "Transcribing"@ && s
            != "ClipboardWritten"@) ==> decoded_message(m) == Some(
            AppMsgView::IpcState(DaemonState::Idle),
        ),
        v.field("Streaming"@) is Some ==> decoded_message(m) == Some(
            AppMsgView::IpcState(DaemonState::Streaming),
        ),
        (v.field("Streaming"@) is None && v.field("Recording"@) is Some) ==> decoded_message(m)
            == Some(AppMsgView::IpcState(DaemonState::Recording)),
        (v.field("Streaming"@) is None && v.field("Recording"@) is None && v.field(
            "Transcribing"@,
        ) is Some) ==> decoded_message(m) == Some(AppMsgView::IpcState(DaemonState::Transcribing)),
        (v.text_value() is None && v.field("Streaming"@) is None && v.field("Recording"@) is None
            && v.field("Transcribing"@) is None) ==> decoded_message(m) == Some(
            AppMsgView::IpcState(DaemonState::Idle),
        ),
{
    reveal_strlit("status");
    reveal_strlit("state");
    reveal_strlit("Recording");
    reveal_strlit("Transcribing");
    reveal_strlit("ClipboardWritten");
    assert("status"@[4] != "state"@[4]);
    assert("Recording"@[0] != "Transcribing"@[0]);
    assert("Recording"@[0] != "ClipboardWritten"@[0]);
    assert("Transcribing"@[0] != "ClipboardWritten"@[0]);
}

/// A final transcript is handed on with exactly the text it carries; one
/// without a text member is ignored.
pub proof fn transcript_report_carries_its_text(m: Json, p: Json, x: Json)
    requires
        typed(m, "final_transcript"@),
        m.field("payload"@) == Some(p),
        p.field("text"@) == Some(x),
    ensures
        x.text_value() matches Some(s) ==> decoded_message(m) == Some(AppMsgView::IpcTranscript(s)),
        x.text_value() is None ==> decoded_message(m) is None,
{
    reveal_strlit("status");
    reveal_strlit("state");
    reveal_strlit("final_transcript");
    assert("status"@[0] != "final_transcript"@[0]);
    assert("state"@[0] != "final_transcript"@[0]);
}

/// A configuration report hands on the configuration its payload holds.
pub proof fn config_report_carries_its_payload(m: Json, p: Json)
    requires
        typed(m, "config"@),
        m.field("payload"@) == Some(p),
    ensures
        decoded_message(m) == Some(AppMsgView::ConfigReceived(config_from_payload(p))),
{
    reveal_strlit("status");
    reveal_strlit("state");
    reveal_strlit("final_transcript");
    reveal_strlit("config");
    assert("status"@[0] != "config"@[0]);
    assert("state"@[0] != "config"@[0]);
    assert("final_transcript"@[0] != "config"@[0]);
}

/// Each member of a configuration payload that has the right type is taken
/// as it is; a missing member takes its default.
pub proof fn config_members_are_taken(p: Json)
    ensures
        ({
            let c: DaemonConfigView = config_from_payload(p);
            &&& p.field("mode"@) matches Some(x) ==> (x.text_value() matches Some(t) ==> c.mode == t)
            &&& p.field("mode"@) is None ==> c.mode == "batch"@
            &&& p.field("min_audio_ms"@) matches Some(x) ==> (x.u64_value() matches Some(n)
                ==> c.min_audio_ms == n)
            &&& p.field("min_audio_ms"@) is None ==> c.min_audio_ms == 1500
            &&& p.field("chunk_interval_ms"@) matches Some(x) ==> (x.u64_value() matches Some(n)
                ==> c.chunk_interval_ms == n)
            &&& p.field("chunk_interval_ms"@) is None ==> c.chunk_interval_ms == 2000
            &&& p.field("vad_min_silence_ms"@) matches Some(x) ==> (x.u64_value() matches Some(n)
                ==> (n <= u32::MAX ==> c.vad_min_silence_ms == n))
            &&& p.field("vad_min_silence_ms"@) is None ==> c.vad_min_silence_ms == 500
            &&& p.field("vad_threshold"@) matches Some(x) ==> (x.single_value() matches Some(b)
                ==> c.vad_threshold_bits == b)
            &&& p.field("vad_threshold"@) is None ==> c.vad_threshold_bits == 0x3f00_0000u32
            &&& p.field("auto_type"@) matches Some(x) ==> (x.bool_value() matches Some(b)
                ==> c.auto_type == b)
            &&& p.field("auto_type"@) is None ==> c.auto_type
        }),
{
}

/// In an open session, a text frame whose document decodes to a message
/// hands that message on unchanged and nothing else; one that decodes to
/// nothing does nothing.
pub proof fn open_session_hands_on_decoded_messages(j: Json)
    ensures
        decoded_message(j) matches Some(m) ==> next_ipc(
            IpcPhase::Open,
            IpcInputView::Received(FrameView::Text(Some(j))),
        ) == (IpcPhase::Open, seq![IpcActionView::Emit(m)]),
        decoded_message(j) is None ==> next_ipc(
            IpcPhase::Open,
            IpcInputView::Received(FrameView::Text(Some(j))),
        ) == (IpcPhase::Open, Seq::<IpcActionView>::empty()),
{
}

/// With a popup open, a click on the icon closes that popup whatever the
/// daemon's state.
pub proof fn icon_click_closes_open_popup(m: AppModelView, id: u64)
    requires
        m.popup == Some(id),
    ensures
        icon_action_of(m) == IconAction::ClosePopup(id),
{
}

/// The popup's settings show the configuration: the mode button names the
/// configured mode, streaming or otherwise batch, and the sliders sit at
/// the configured values.
pub proof fn settings_show_the_config(m: AppModelView, c: DaemonConfigView)
    requires
        m.config == Some(c),
    ensures
        popup_of(m).settings matches Some(s) && {
            &&& s.mode_label == if c.mode == "streaming"@ {
                "Mode: Streaming (click for Batch)"@
            } else {
                "Mode: Batch (click for Streaming)"@
            }
            &&& s.min_audio_ms == c.min_audio_ms
            &&& s.vad_threshold_bits == c.vad_threshold_bits
        },
{
}

} // verus!
