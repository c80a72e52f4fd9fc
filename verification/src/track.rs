//! Tracks: identifiers, descriptive metadata, and the small records the
//! manager hands back to its caller so that the caller can drive the
//! playback engine.
//!
//! A track identifier is a process-unique opaque token minted when the
//! track is enqueued; it joins the engine's track handle to the metadata
//! cache. It is carried here as its 128-bit value.

use vstd::prelude::*;

verus! {

/// Immutable descriptive metadata of one track.
#[derive(Debug)]
pub struct TrackMetadata {
    pub title: Option<String>,
    pub source_url: Option<String>,
    pub duration_secs: Option<u64>,
}

impl Clone for TrackMetadata {
    fn clone(&self) -> (r: Self)
        ensures
            r == *self,
    {
        TrackMetadata {
            title: match &self.title {
                Some(t) => Some(t.clone()),
                None => None,
            },
            source_url: match &self.source_url {
                Some(u) => Some(u.clone()),
                None => None,
            },
            duration_secs: self.duration_secs,
        }
    }
}

/// One row of the read-only queue projection: the track at `position`,
/// its cached metadata, and whether it is the one now playing.
#[derive(Debug, Clone)]
pub struct QueueEntry {
    pub position: usize,
    pub track: u128,
    pub metadata: TrackMetadata,
    pub now_playing: bool,
}

/// How often a track should repeat.
#[derive(Clone, Copy, Debug, PartialEq, Eq, Structural)]
pub enum LoopMode {
    /// Repeat until asked to stop.
    Infinite,
    /// Repeat this many additional times.
    Count(usize),
}

/// The engine instruction produced by a loop request: which track to
/// loop and how often.
#[derive(Clone, Copy, Debug, PartialEq, Eq, Structural)]
pub struct LoopAction {
    pub track: u128,
    pub mode: LoopMode,
}

/// The engine instruction produced by a volume change: which track to
/// apply the new volume to.
#[derive(Clone, Copy, Debug, PartialEq, Eq, Structural)]
pub struct VolumeAction {
    pub track: u128,
    pub volume: i8,
}

/// What an enqueue did: where the track landed, whether it starts
/// playing at once (the queue was empty), and the stored channel volume
/// to apply to it.
///
/// When `starts_now` holds, the caller reports "now playing"
/// synchronously; otherwise it registers the track-start notifier on the
/// new track, so that the report comes when the track actually starts.
#[derive(Clone, Copy, Debug, PartialEq, Eq, Structural)]
pub struct EnqueueReceipt {
    pub position: usize,
    pub starts_now: bool,
    pub volume: i8,
}

/// What a skip did: which track ended and which one, if any, plays next.
#[derive(Clone, Copy, Debug, PartialEq, Eq, Structural)]
pub struct SkipReceipt {
    pub ended: u128,
    pub next: Option<u128>,
}

/// What a join request asks of the transport.
#[derive(Clone, Copy, Debug, PartialEq, Eq, Structural)]
pub enum JoinPlan {
    /// A live session already exists in this channel; reuse it.
    AlreadyConnected(u64),
    /// Open a connection to this channel, then complete the join.
    Connect(u64),
}

} // verus!
