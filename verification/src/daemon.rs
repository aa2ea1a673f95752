use vstd::prelude::*;

use crate::text::same_text;

verus! {

/// What the daemon reports it is doing.
#[derive(Clone, Copy, Debug, PartialEq, Eq, Structural)]
pub enum DaemonState {
    Idle,
    Recording,
    Transcribing,
    Streaming,
    ClipboardWritten,
    Unknown,
}

impl DaemonState {
    /// A session is under way: the daemon records, streams or transcribes.
    pub open spec fn spec_is_busy(self) -> bool {
        self is Recording || self is Streaming || self is Transcribing
    }

    pub fn is_busy(&self) -> (b: bool)
        ensures
            b == self.spec_is_busy(),
    {
        match self {
            DaemonState::Recording | DaemonState::Streaming | DaemonState::Transcribing => true,
            _ => false,
        }
    }
}

impl Default for DaemonState {
    fn default() -> (s: Self)
        ensures
            s == DaemonState::Idle,
    {
        DaemonState::Idle
    }
}

/// The daemon's runtime configuration as the applet knows it.
#[derive(Debug)]
pub struct DaemonConfig {
    pub min_audio_ms: u64,
    /// The voice-activity threshold, as the bit pattern of an IEEE-754
    /// single-precision number.
    pub vad_threshold_bits: u32,
    pub chunk_interval_ms: u64,
    pub vad_min_silence_ms: u32,
    pub mode: String,
    pub auto_type: bool,
}

/// The mathematical value of a [`DaemonConfig`].
pub struct DaemonConfigView {
    pub min_audio_ms: u64,
    pub vad_threshold_bits: u32,
    pub chunk_interval_ms: u64,
    pub vad_min_silence_ms: u32,
    pub mode: Seq<char>,
    pub auto_type: bool,
}

impl View for DaemonConfig {
    type V = DaemonConfigView;

    open spec fn view(&self) -> DaemonConfigView {
        DaemonConfigView {
            min_audio_ms: self.min_audio_ms,
            vad_threshold_bits: self.vad_threshold_bits,
            chunk_interval_ms: self.chunk_interval_ms,
            vad_min_silence_ms: self.vad_min_silence_ms,
            mode: self.mode@,
            auto_type: self.auto_type,
        }
    }
}

/// The mode name under which the daemon streams partial transcripts.
pub open spec fn streaming_mode() -> Seq<char> {
    "streaming"@
}

/// The mode name under which the daemon transcribes a whole recording at once.
pub open spec fn batch_mode() -> Seq<char> {
    "batch"@
}

/// The mode that a click on the mode button switches to: batch from
/// streaming, streaming from anything else.
pub open spec fn spec_toggled_mode(mode: Seq<char>) -> Seq<char> {
    if mode == streaming_mode() {
        batch_mode()
    } else {
        streaming_mode()
    }
}

pub fn is_streaming_mode(mode: &str) -> (b: bool)
    ensures
        b == (mode@ == streaming_mode()),
{
    same_text(mode, "streaming")
}

pub fn toggled_mode(mode: &str) -> (r: &'static str)
    ensures
        r@ == spec_toggled_mode(mode@),
{
    if is_streaming_mode(mode) {
        "batch"
    } else {
        "streaming"
    }
}

} // verus!
