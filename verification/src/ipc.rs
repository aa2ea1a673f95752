use vstd::prelude::*;

use crate::applet::{AppMsg, AppMsgView};
use crate::json::Json;
use crate::protocol::{
    config_request, config_request_view, decode_message, decoded_message, status_request,
    status_request_view, OutgoingMessage, OutgoingView,
};

verus! {

/// How long the applet waits before it tries to reach the daemon again.
pub const RETRY_DELAY_MS: u64 = 2000;

/// Where the connection to the daemon stands.
#[derive(Clone, Copy, Debug, PartialEq, Eq, Structural)]
pub enum IpcPhase {
    /// Opening the daemon's socket.
    Connecting,
    /// Opening the WebSocket session over the socket.
    Handshaking,
    /// The session is open; frames arrive.
    Open,
    /// Waiting before the next attempt.
    Waiting,
}

/// A frame that arrived over the session.
#[derive(Debug)]
pub enum Frame {
    /// A text frame, with the JSON document it holds, where it holds one.
    Text(Option<Json>),
    Ping(Vec<u8>),
    /// The daemon closed the session, or the stream ended.
    Closed,
    /// Any other frame.
    Other,
}

/// What happened to the connection.
#[derive(Debug)]
pub enum IpcInput {
    SocketConnected,
    SocketFailed,
    HandshakeSucceeded,
    HandshakeFailed,
    Received(Frame),
    WaitOver,
}

/// What the connection must do next.
#[derive(Debug)]
pub enum IpcAction {
    /// Open the daemon's socket.
    Connect,
    /// Open a WebSocket session over the socket.
    Handshake,
    /// Hand this message to the applet.
    Emit(AppMsg),
    /// Send this request as a text frame.
    Send(OutgoingMessage),
    /// Answer a ping with a pong that carries these bytes.
    Pong(Vec<u8>),
    /// Wait this many milliseconds.
    Wait(u64),
}

pub enum FrameView {
    Text(Option<Json>),
    Ping(Seq<u8>),
    Closed,
    Other,
}

pub enum IpcInputView {
    SocketConnected,
    SocketFailed,
    HandshakeSucceeded,
    HandshakeFailed,
    Received(FrameView),
    WaitOver,
}

pub enum IpcActionView {
    Connect,
    Handshake,
    Emit(AppMsgView),
    Send(OutgoingView),
    Pong(Seq<u8>),
    Wait(u64),
}

impl View for Frame {
    type V = FrameView;

    open spec fn view(&self) -> FrameView {
        match self {
            Frame::Text(j) => FrameView::Text(*j),
            Frame::Ping(d) => FrameView::Ping(d@),
            Frame::Closed => FrameView::Closed,
            Frame::Other => FrameView::Other,
        }
    }
}

impl View for IpcInput {
    type V = IpcInputView;

    open spec fn view(&self) -> IpcInputView {
        match self {
            IpcInput::SocketConnected => IpcInputView::SocketConnected,
            IpcInput::SocketFailed => IpcInputView::SocketFailed,
            IpcInput::HandshakeSucceeded => IpcInputView::HandshakeSucceeded,
            IpcInput::HandshakeFailed => IpcInputView::HandshakeFailed,
            IpcInput::Received(f) => IpcInputView::Received(f@),
            IpcInput::WaitOver => IpcInputView::WaitOver,
        }
    }
}

impl View for IpcAction {
    type V = IpcActionView;

    open spec fn view(&self) -> IpcActionView {
        match self {
            IpcAction::Connect => IpcActionView::Connect,
            IpcAction::Handshake => IpcActionView::Handshake,
            IpcAction::Emit(m) => IpcActionView::Emit(m@),
            IpcAction::Send(m) => IpcActionView::Send(m@),
            IpcAction::Pong(d) => IpcActionView::Pong(d@),
            IpcAction::Wait(ms) => IpcActionView::Wait(*ms),
        }
    }
}

/// The views of a list of actions.
pub open spec fn actions_view(a: Seq<IpcAction>) -> Seq<IpcActionView> {
    a.map_values(|x: IpcAction| x@)
}

/// Losing the daemon: report the applet offline and wait before trying again.
pub open spec fn lost() -> (IpcPhase, Seq<IpcActionView>) {
    (
        IpcPhase::Waiting,
        seq![IpcActionView::Emit(AppMsgView::IpcDisconnected), IpcActionView::Wait(RETRY_DELAY_MS)],
    )
}

/// How the connection answers what happened: the next phase and the actions
/// to perform, in order. What does not belong to the current phase changes
/// nothing.
pub open spec fn next_ipc(phase: IpcPhase, input: IpcInputView) -> (IpcPhase, Seq<IpcActionView>) {
    match (phase, input) {
        (IpcPhase::Connecting, IpcInputView::SocketConnected) => (
            IpcPhase::Handshaking,
            seq![IpcActionView::Handshake],
        ),
        (IpcPhase::Connecting, IpcInputView::SocketFailed) => lost(),
        (IpcPhase::Handshaking, IpcInputView::HandshakeSucceeded) => (
            IpcPhase::Open,
            seq![
                IpcActionView::Emit(AppMsgView::IpcConnected),
                IpcActionView::Send(status_request_view()),
                IpcActionView::Send(config_request_view()),
            ],
        ),
        (IpcPhase::Handshaking, IpcInputView::HandshakeFailed) => lost(),
        (IpcPhase::Open, IpcInputView::Received(f)) => match f {
            FrameView::Text(Some(j)) => match decoded_message(j) {
                Some(m) => (IpcPhase::Open, seq![IpcActionView::Emit(m)]),
                None => (IpcPhase::Open, Seq::empty()),
            },
            FrameView::Ping(d) => (IpcPhase::Open, seq![IpcActionView::Pong(d)]),
            FrameView::Closed => lost(),
            _ => (IpcPhase::Open, Seq::empty()),
        },
        (IpcPhase::Waiting, IpcInputView::WaitOver) => (
            IpcPhase::Connecting,
            seq![IpcActionView::Connect],
        ),
        _ => (phase, Seq::empty()),
    }
}

fn lost_actions() -> (r: (IpcPhase, Vec<IpcAction>))
    ensures
        (r.0, actions_view(r.1@)) == lost(),
{
    let mut a: Vec<IpcAction> = Vec::new();
    a.push(IpcAction::Emit(AppMsg::IpcDisconnected));
    a.push(IpcAction::Wait(RETRY_DELAY_MS));
    assert(actions_view(a@) =~= lost().1);
    (IpcPhase::Waiting, a)
}

fn single(x: IpcAction) -> (a: Vec<IpcAction>)
    ensures
        actions_view(a@) == seq![x@],
{
    let mut a: Vec<IpcAction> = Vec::new();
    a.push(x);
    assert(actions_view(a@) =~= seq![x@]);
    a
}

fn none() -> (a: Vec<IpcAction>)
    ensures
        actions_view(a@) == Seq::<IpcActionView>::empty(),
{
    let a: Vec<IpcAction> = Vec::new();
    assert(actions_view(a@) =~= Seq::<IpcActionView>::empty());
    a
}

/// Where the connection starts: opening the socket.
pub fn ipc_start() -> (r: (IpcPhase, Vec<IpcAction>))
    ensures
        r.0 == IpcPhase::Connecting,
        actions_view(r.1@) == seq![IpcActionView::Connect],
{
    (IpcPhase::Connecting, single(IpcAction::Connect))
}

/// One step of the connection to the daemon.
pub fn ipc_step(phase: IpcPhase, input: IpcInput) -> (r: (IpcPhase, Vec<IpcAction>))
    ensures
        (r.0, actions_view(r.1@)) == next_ipc(phase, input@),
{
    match (phase, input) {
        (IpcPhase::Connecting, IpcInput::SocketConnected) => (
            IpcPhase::Handshaking,
            single(IpcAction::Handshake),
        ),
        (IpcPhase::Connecting, IpcInput::SocketFailed) => lost_actions(),
        (IpcPhase::Handshaking, IpcInput::HandshakeSucceeded) => {
            let mut a: Vec<IpcAction> = Vec::new();
            a.push(IpcAction::Emit(AppMsg::IpcConnected));
            a.push(IpcAction::Send(status_request()));
            a.push(IpcAction::Send(config_request()));
            assert(actions_view(a@) =~= next_ipc(phase, input@).1);
            (IpcPhase::Open, a)
        },
        (IpcPhase::Handshaking, IpcInput::HandshakeFailed) => lost_actions(),
        (IpcPhase::Open, IpcInput::Received(f)) => match f {
            Frame::Text(Some(j)) => match decode_message(&j) {
                Some(m) => (IpcPhase::Open, single(IpcAction::Emit(m))),
                None => (IpcPhase::Open, none()),
            },
            Frame::Ping(d) => (IpcPhase::Open, single(IpcAction::Pong(d))),
            Frame::Closed => lost_actions(),
            _ => (IpcPhase::Open, none()),
        },
        (IpcPhase::Waiting, IpcInput::WaitOver) => (IpcPhase::Connecting, single(IpcAction::Connect)),
        _ => (phase, none()),
    }
}

/// The messages among a list of actions, in order.
pub open spec fn emitted(a: Seq<IpcActionView>) -> Seq<AppMsgView>
    decreases a.len(),
{
    if a.len() == 0 {
        Seq::empty()
    } else {
        let rest = emitted(a.drop_first());
        match a[0] {
            IpcActionView::Emit(m) => seq![m] + rest,
            _ => rest,
        }
    }
}

/// A whole run of the connection from its start: the phase it reaches and
/// the messages it hands to the applet, in order.
pub open spec fn run(inputs: Seq<IpcInputView>) -> (IpcPhase, Seq<AppMsgView>)
    decreases inputs.len(),
{
    if inputs.len() == 0 {
        (IpcPhase::Connecting, Seq::empty())
    } else {
        let (phase, out) = run(inputs.drop_last());
        let (next, actions) = next_ipc(phase, inputs.last());
        (next, out + emitted(actions))
    }
}

/// The last connection report among `out` says connected.
pub open spec fn reports_connected(out: Seq<AppMsgView>) -> bool
    decreases out.len(),
{
    if out.len() == 0 {
        false
    } else {
        match out.last() {
            AppMsgView::IpcConnected => true,
            AppMsgView::IpcDisconnected => false,
            _ => reports_connected(out.drop_last()),
        }
    }
}

/// The order in which the connection may hand messages to the applet: only
/// connection reports, state reports, transcripts and configurations; a
/// report of the daemon only while connected (after a connect with no
/// disconnect since); no connect while connected.
pub open spec fn well_ordered(out: Seq<AppMsgView>) -> bool
    decreases out.len(),
{
    if out.len() == 0 {
        true
    } else {
        let prev = out.drop_last();
        &&& well_ordered(prev)
        &&& match out.last() {
            AppMsgView::IpcConnected => !reports_connected(prev),
            AppMsgView::IpcDisconnected => true,
            AppMsgView::IpcState(_) | AppMsgView::IpcTranscript(_) | AppMsgView::ConfigReceived(
                _,
            ) => reports_connected(prev),
            _ => false,
        }
    }
}

/// The input that each phase awaits belongs to it.
pub open spec fn belongs(phase: IpcPhase, input: IpcInputView) -> bool {
    match phase {
        IpcPhase::Connecting => input is SocketConnected || input is SocketFailed,
        IpcPhase::Handshaking => input is HandshakeSucceeded || input is HandshakeFailed,
        IpcPhase::Open => input is Received,
        IpcPhase::Waiting => input is WaitOver,
    }
}

/// The action whose outcome a phase other than the open session awaits.
pub open spec fn awaited_action(phase: IpcPhase) -> IpcActionView {
    match phase {
        IpcPhase::Connecting => IpcActionView::Connect,
        IpcPhase::Handshaking => IpcActionView::Handshake,
        _ => IpcActionView::Wait(RETRY_DELAY_MS),
    }
}

} // verus!
