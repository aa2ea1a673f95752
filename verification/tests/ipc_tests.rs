use lds_cosmic_applet::applet::AppMsg;
use lds_cosmic_applet::daemon::DaemonState;
use lds_cosmic_applet::ipc::{ipc_start, ipc_step, Frame, IpcAction, IpcInput, IpcPhase, RETRY_DELAY_MS};
use lds_cosmic_applet::json::Json;

fn obj(members: Vec<(&str, Json)>) -> Json {
    Json::Object(members.into_iter().map(|(k, v)| (k.to_string(), v)).collect())
}

fn is_lost(r: &(IpcPhase, Vec<IpcAction>)) -> bool {
    r.0 == IpcPhase::Waiting
        && r.1.len() == 2
        && matches!(r.1[0], IpcAction::Emit(AppMsg::IpcDisconnected))
        && matches!(r.1[1], IpcAction::Wait(RETRY_DELAY_MS))
}

#[test]
fn connection_starts_by_connecting() {
    let (p, a) = ipc_start();
    assert_eq!(p, IpcPhase::Connecting);
    assert_eq!(a.len(), 1);
    assert!(matches!(a[0], IpcAction::Connect));
}

#[test]
fn socket_then_handshake() {
    let (p, a) = ipc_step(IpcPhase::Connecting, IpcInput::SocketConnected);
    assert_eq!(p, IpcPhase::Handshaking);
    assert!(matches!(a[..], [IpcAction::Handshake]));
}

#[test]
fn open_session_announces_and_queries() {
    let (p, a) = ipc_step(IpcPhase::Handshaking, IpcInput::HandshakeSucceeded);
    assert_eq!(p, IpcPhase::Open);
    assert_eq!(a.len(), 3);
    assert!(matches!(a[0], IpcAction::Emit(AppMsg::IpcConnected)));
    match (&a[1], &a[2]) {
        (IpcAction::Send(s), IpcAction::Send(c)) => {
            assert_eq!((s.msg_type.as_str(), s.id.as_str()), ("status", "applet"));
            assert_eq!((c.msg_type.as_str(), c.id.as_str()), ("get_config", "applet"));
        },
        _ => panic!("expected two requests"),
    }
}

#[test]
fn failures_lead_to_retry() {
    assert!(is_lost(&ipc_step(IpcPhase::Connecting, IpcInput::SocketFailed)));
    assert!(is_lost(&ipc_step(IpcPhase::Handshaking, IpcInput::HandshakeFailed)));
    assert!(is_lost(&ipc_step(IpcPhase::Open, IpcInput::Received(Frame::Closed))));
    let (p, a) = ipc_step(IpcPhase::Waiting, IpcInput::WaitOver);
    assert_eq!(p, IpcPhase::Connecting);
    assert!(matches!(a[..], [IpcAction::Connect]));
    assert_eq!(RETRY_DELAY_MS, 2000);
}

#[test]
fn ping_is_answered_with_same_bytes() {
    let (p, a) = ipc_step(IpcPhase::Open, IpcInput::Received(Frame::Ping(vec![1, 2, 3])));
    assert_eq!(p, IpcPhase::Open);
    match &a[..] {
        [IpcAction::Pong(d)] => assert_eq!(d, &vec![1u8, 2, 3]),
        _ => panic!("expected a pong"),
    }
}

#[test]
fn text_frames_are_decoded() {
    let msg = obj(vec![
        ("type", Json::Text("state".to_string())),
        ("payload", Json::Text("Transcribing".to_string())),
    ]);
    let (p, a) = ipc_step(IpcPhase::Open, IpcInput::Received(Frame::Text(Some(msg))));
    assert_eq!(p, IpcPhase::Open);
    assert!(matches!(a[..], [IpcAction::Emit(AppMsg::IpcState(DaemonState::Transcribing))]));
}

#[test]
fn other_frames_are_ignored() {
    let (p, a) = ipc_step(IpcPhase::Open, IpcInput::Received(Frame::Text(None)));
    assert_eq!(p, IpcPhase::Open);
    assert!(a.is_empty());
    let (p, a) = ipc_step(IpcPhase::Open, IpcInput::Received(Frame::Other));
    assert_eq!(p, IpcPhase::Open);
    assert!(a.is_empty());
    let unknown = obj(vec![("type", Json::Text("hello".to_string()))]);
    let (_, a) = ipc_step(IpcPhase::Open, IpcInput::Received(Frame::Text(Some(unknown))));
    assert!(a.is_empty());
}

#[test]
fn out_of_phase_inputs_change_nothing() {
    let (p, a) = ipc_step(IpcPhase::Waiting, IpcInput::SocketConnected);
    assert_eq!(p, IpcPhase::Waiting);
    assert!(a.is_empty());
    let (p, a) = ipc_step(IpcPhase::Connecting, IpcInput::Received(Frame::Closed));
    assert_eq!(p, IpcPhase::Connecting);
    assert!(a.is_empty());
    let (p, a) = ipc_step(IpcPhase::Open, IpcInput::WaitOver);
    assert_eq!(p, IpcPhase::Open);
    assert!(a.is_empty());
}

#[test]
fn reports_come_only_inside_a_session() {
    let report = || {
        obj(vec![
            ("type", Json::Text("state".to_string())),
            ("payload", Json::Text("Recording".to_string())),
        ])
    };
    let inputs = vec![
        IpcInput::SocketFailed,
        IpcInput::WaitOver,
        IpcInput::SocketConnected,
        IpcInput::HandshakeSucceeded,
        IpcInput::Received(Frame::Text(Some(report()))),
        IpcInput::Received(Frame::Closed),
        IpcInput::Received(Frame::Text(Some(report()))),
        IpcInput::WaitOver,
        IpcInput::SocketConnected,
        IpcInput::HandshakeSucceeded,
    ];
    let (mut phase, _) = ipc_start();
    let mut out = Vec::new();
    for input in inputs {
        let (p, actions) = ipc_step(phase, input);
        phase = p;
        for a in actions {
            if let IpcAction::Emit(m) = a {
                out.push(match m {
                    AppMsg::IpcConnected => "connected",
                    AppMsg::IpcDisconnected => "disconnected",
                    AppMsg::IpcState(_) => "state",
                    _ => "other",
                });
            }
        }
    }
    assert_eq!(out, vec!["disconnected", "connected", "state", "disconnected", "connected"]);
    assert_eq!(phase, IpcPhase::Open);
}
