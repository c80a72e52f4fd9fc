//! Per-guild session state and per-channel playback settings.

use vstd::prelude::*;

verus! {

/// Per-channel playback settings, created when the session joins the
/// channel and removed when the last human member leaves. Absence of an
/// entry means "use the default volume of 100".
#[derive(Clone, Copy, Debug, PartialEq, Eq, Structural)]
pub struct ChannelProperties {
    /// Volume as an integer percentage, 0 to 100.
    pub volume: i8,
}

/// The default volume a channel plays at before anyone changes it.
pub const DEFAULT_VOLUME: i8 = 100;

/// The live voice session of one guild: the channel it is connected to,
/// the ordered track queue, and the whole-queue playback state.
///
/// The first queue element is always the currently playing (or paused)
/// track; an empty queue means nothing is playing.
#[derive(Debug)]
pub struct VoiceSession {
    /// The voice channel the session is connected to.
    pub channel: u64,
    /// Track identifiers in play order; index 0 is now playing.
    pub queue: Vec<u128>,
    /// Whether the whole queue is paused.
    pub paused: bool,
}

} // verus!
