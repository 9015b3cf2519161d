//! Playback engine decisions: the transport state machine that a dedicated
//! device-owner thread runs, the choice of sample payload width, and the
//! verified sample conversions.
//!
//! The live device stream is thread-affine, so it is owned by one thread
//! that receives [`StreamCommand`]s over a channel; every decision that
//! thread takes is the verified [`apply_command`] transition. Decoded
//! samples travel one at a time over a channel whose payload width — 16-bit
//! or 32-bit — is fixed once per stream from the source's declared bit
//! depth.

use vstd::prelude::*;

verus! {

/// The audio properties of a decoded source, independent of any device.
#[derive(Debug)]
pub struct AudioMetadata {
    pub channels: u16,
    pub bit_depth: u16,
    pub sample_rate: u32,
}

#[verifier::external_type_specification]
#[verifier::external_body]
#[verifier::reject_recursive_types(T)]
pub struct ExReceiver<T>(std::sync::mpsc::Receiver<T>);

/// The receiving end of a sample channel, tagged with its payload width.
pub enum SampleReceiver {
    I16(std::sync::mpsc::Receiver<i16>),
    I32(std::sync::mpsc::Receiver<i32>),
}

impl From<std::sync::mpsc::Receiver<i16>> for SampleReceiver {
    fn from(rx: std::sync::mpsc::Receiver<i16>) -> (r: SampleReceiver) {
        SampleReceiver::I16(rx)
    }
}

impl vstd::std_specs::convert::FromSpecImpl<std::sync::mpsc::Receiver<i16>> for SampleReceiver {
    open spec fn obeys_from_spec() -> bool {
        true
    }

    open spec fn from_spec(rx: std::sync::mpsc::Receiver<i16>) -> SampleReceiver {
        SampleReceiver::I16(rx)
    }
}

impl From<std::sync::mpsc::Receiver<i32>> for SampleReceiver {
    fn from(rx: std::sync::mpsc::Receiver<i32>) -> (r: SampleReceiver) {
        SampleReceiver::I32(rx)
    }
}

impl vstd::std_specs::convert::FromSpecImpl<std::sync::mpsc::Receiver<i32>> for SampleReceiver {
    open spec fn obeys_from_spec() -> bool {
        true
    }

    open spec fn from_spec(rx: std::sync::mpsc::Receiver<i32>) -> SampleReceiver {
        SampleReceiver::I32(rx)
    }
}

/// The payload width a sample channel carries: 16-bit or 32-bit integers.
#[derive(Clone, Copy, Debug, PartialEq, Eq, Structural)]
pub enum SampleKind {
    I16,
    I32,
}

/// Which payload width a source's declared bit depth selects: 16-bit
/// sources use 16-bit payloads; 24-bit and 32-bit sources use 32-bit
/// payloads (24-bit samples ride in 32-bit values); other depths are
/// unsupported.
pub open spec fn sample_kind_spec(bit_depth: u16) -> Option<SampleKind> {
    if bit_depth == 16 {
        Some(SampleKind::I16)
    } else if bit_depth == 24 || bit_depth == 32 {
        Some(SampleKind::I32)
    } else {
        None
    }
}

/// Selects the sample payload width for a declared bit depth, once per
/// stream before decoding starts.
pub fn sample_kind_for_depth(bit_depth: u16) -> (r: Option<SampleKind>)
    ensures
        r == sample_kind_spec(bit_depth),
{
    if bit_depth == 16 {
        Some(SampleKind::I16)
    } else if bit_depth == 24 || bit_depth == 32 {
        Some(SampleKind::I32)
    } else {
        None
    }
}

/// Narrows a decoded sample of a 16-bit stream to its 16-bit value.
pub fn sample_to_i16(s: i32) -> (r: i16)
    requires
        -0x8000 <= s < 0x8000,
    ensures
        r == s,
{
    s as i16
}

/// Carries a 24-bit sample in a 32-bit value with its inhabited bits
/// left-justified: the value is scaled by 256, filling the full 32-bit
/// range for a 32-bit integer destination.
pub fn unpack_24_in_32(s: i32) -> (r: i32)
    requires
        -0x80_0000 <= s < 0x80_0000,
    ensures
        r == s * 256,
{
    s * 256
}

/// A transport instruction for the playback thread.
#[derive(Debug)]
pub enum StreamCommand {
    Pause,
    Play,
    Stop,
}

/// The transport state of the playback thread. The thread starts its
/// stream immediately on construction, so it begins in `Playing`;
/// `Stopped` is terminal — the command loop exits and the thread ends.
#[derive(Clone, Copy, Debug, PartialEq, Eq, Structural)]
pub enum PlaybackState {
    Playing,
    Paused,
    Stopped,
}

/// What the playback thread does to the device stream for one command.
#[derive(Clone, Copy, Debug, PartialEq, Eq, Structural)]
pub enum DeviceAction {
    /// Start or resume the device stream.
    Resume,
    /// Suspend the device stream; it stays constructed.
    Suspend,
}

/// The transport state machine: `Play` resumes the stream, `Pause`
/// suspends it, and `Stop` suspends it and ends the command loop. The
/// third component says whether the loop continues.
pub open spec fn transition_spec(s: PlaybackState, c: StreamCommand) -> (
    PlaybackState,
    DeviceAction,
    bool,
) {
    match c {
        StreamCommand::Play => (PlaybackState::Playing, DeviceAction::Resume, true),
        StreamCommand::Pause => (PlaybackState::Paused, DeviceAction::Suspend, true),
        StreamCommand::Stop => (PlaybackState::Stopped, DeviceAction::Suspend, false),
    }
}

/// Takes one transport command: returns the next state, the action to
/// apply to the device stream, and whether the command loop continues.
pub fn apply_command(state: PlaybackState, cmd: &StreamCommand) -> (r: (
    PlaybackState,
    DeviceAction,
    bool,
))
    requires
        state != PlaybackState::Stopped,
    ensures
        r == transition_spec(state, *cmd),
{
    match cmd {
        StreamCommand::Play => (PlaybackState::Playing, DeviceAction::Resume, true),
        StreamCommand::Pause => (PlaybackState::Paused, DeviceAction::Suspend, true),
        StreamCommand::Stop => (PlaybackState::Stopped, DeviceAction::Suspend, false),
    }
}

/// Sending `Pause` and then `Play` always leaves the machine playing,
/// whatever state it ran in before.
pub proof fn lemma_pause_then_play_is_playing(s: PlaybackState)
    ensures
        transition_spec(transition_spec(s, StreamCommand::Pause).0, StreamCommand::Play).0
            == PlaybackState::Playing,
{
}

/// `Stop` always reaches the terminal state, suspends the device, and
/// ends the command loop; no command continues from `Stopped`.
pub proof fn lemma_stop_is_terminal(s: PlaybackState)
    ensures
        transition_spec(s, StreamCommand::Stop).0 == PlaybackState::Stopped,
        transition_spec(s, StreamCommand::Stop).1 == DeviceAction::Suspend,
        !transition_spec(s, StreamCommand::Stop).2,
{
}

} // verus!
