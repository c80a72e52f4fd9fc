//! The session registry and the operations on it.
//!
//! A [`PlayerManager`] owns all voice sessions, the process-wide
//! metadata cache, and the per-channel playback settings. Each
//! operation is one atomic state transition; the caller serializes
//! same-guild operations (one lock per guild's session) and performs
//! the transport and engine calls that a returned receipt asks for.
//! Operations on distinct guilds touch only the named guild's session:
//! every contract below leaves the other guilds' sessions unchanged.

use std::collections::HashMap;
use vstd::prelude::*;

use crate::error::PlayerError;
use crate::session::{ChannelProperties, VoiceSession, DEFAULT_VOLUME};
use crate::track::{
    EnqueueReceipt, JoinPlan, LoopAction, LoopMode, QueueEntry, SkipReceipt, TrackMetadata,
    VolumeAction,
};
use vstd::pervasive::unreached;

verus! {

broadcast use vstd::std_specs::hash::group_hash_axioms;

/// The root of all state: every guild's session, the metadata cache,
/// and the channel properties store.
pub struct PlayerManager {
    /// One live session per guild.
    pub sessions: HashMap<u64, VoiceSession>,
    /// Descriptive metadata of every track present in some queue.
    pub metadata: HashMap<u128, TrackMetadata>,
    /// Per-channel playback settings; absence means defaults.
    pub properties: HashMap<u64, ChannelProperties>,
}

impl PlayerManager {
    /// Whether the guild has a live session.
    pub open spec fn spec_has_session(self, g: u64) -> bool {
        self.sessions@.contains_key(g)
    }

    /// The guild's queue, index 0 now playing.
    pub open spec fn spec_queue(self, g: u64) -> Seq<u128> {
        self.sessions@[g].queue@
    }

    /// The volume stored for a channel, or the default when no entry
    /// exists.
    pub open spec fn spec_channel_volume(self, c: u64) -> i8 {
        if self.properties@.contains_key(c) {
            self.properties@[c].volume
        } else {
            DEFAULT_VOLUME
        }
    }

    /// Every track in a live queue has a metadata cache entry: the
    /// cache is written before (atomically with) the queue append.
    pub open spec fn queued_tracks_cached(self) -> bool {
        forall|g: u64, i: int|
            #![trigger self.sessions@[g].queue@[i]]
            self.sessions@.contains_key(g) && 0 <= i < self.sessions@[g].queue@.len()
                ==> self.metadata@.contains_key(self.sessions@[g].queue@[i])
    }

    /// Track identifiers are process-unique: no identifier occurs twice
    /// in any queue, of this guild or another.
    pub open spec fn queued_tracks_distinct(self) -> bool {
        forall|g1: u64, i1: int, g2: u64, i2: int|
            #![trigger self.sessions@[g1].queue@[i1], self.sessions@[g2].queue@[i2]]
            self.sessions@.contains_key(g1) && self.sessions@.contains_key(g2)
                && 0 <= i1 < self.sessions@[g1].queue@.len()
                && 0 <= i2 < self.sessions@[g2].queue@.len()
                && (g1 != g2 || i1 != i2)
                ==> self.sessions@[g1].queue@[i1] != self.sessions@[g2].queue@[i2]
    }

    /// Every stored volume is a valid percentage.
    pub open spec fn volumes_valid(self) -> bool {
        forall|c: u64| #[trigger] self.properties@.contains_key(c)
            ==> 0 <= self.properties@[c].volume <= 100
    }

    /// The manager's invariant: established by [`PlayerManager::new`]
    /// and preserved by every operation.
    pub open spec fn wf(self) -> bool {
        &&& self.queued_tracks_cached()
        &&& self.queued_tracks_distinct()
        &&& self.volumes_valid()
    }

    /// A manager with no sessions, an empty cache, and no stored
    /// channel settings.
    pub fn new() -> (m: PlayerManager)
        ensures
            m.wf(),
            m.sessions@ == Map::<u64, VoiceSession>::empty(),
            m.metadata@ == Map::<u128, TrackMetadata>::empty(),
            m.properties@ == Map::<u64, ChannelProperties>::empty(),
    {
        PlayerManager {
            sessions: HashMap::new(),
            metadata: HashMap::new(),
            properties: HashMap::new(),
        }
    }

    /// True iff a session exists for the guild, that is, iff its
    /// connection reports a current channel.
    pub fn is_active(&self, guild: u64) -> (r: bool)
        ensures
            r == self.spec_has_session(guild),
    {
        self.sessions.contains_key(&guild)
    }

    /// Whether the track identifier is known to the metadata cache.
    pub fn has_track(&self, track: u128) -> (r: bool)
        ensures
            r == self.metadata@.contains_key(track),
    {
        self.metadata.contains_key(&track)
    }

    /// Decides a join request. When the guild already has a live
    /// session, the request reuses it and no connection is opened.
    /// Otherwise the requesting user's current voice channel is the one
    /// to connect to; a user in no voice channel cannot be joined.
    ///
    /// On `JoinPlan::Connect` the caller opens the transport and, on
    /// success, calls [`PlayerManager::complete_join`]; a transport
    /// failure is reported as [`PlayerError::ConnectionFailed`] and
    /// leaves the manager untouched.
    pub fn join_plan(&self, guild: u64, user_channel: Option<u64>) -> (r: Result<
        JoinPlan,
        PlayerError,
    >)
        ensures
            self.spec_has_session(guild) ==> r == Ok::<JoinPlan, PlayerError>(
                JoinPlan::AlreadyConnected(self.sessions@[guild].channel),
            ),
            !self.spec_has_session(guild) && user_channel is Some ==> r == Ok::<
                JoinPlan,
                PlayerError,
            >(JoinPlan::Connect(user_channel->0)),
            !self.spec_has_session(guild) && user_channel is None ==> r == Err::<
                JoinPlan,
                PlayerError,
            >(PlayerError::NotInVoiceChannel),
    {
        match self.sessions.get(&guild) {
            Some(s) => Ok(JoinPlan::AlreadyConnected(s.channel)),
            None => match user_channel {
                Some(c) => Ok(JoinPlan::Connect(c)),
                None => Err(PlayerError::NotInVoiceChannel),
            },
        }
    }

    /// Records a connection that the transport just opened: creates the
    /// guild's session with an empty queue, initializes the channel's
    /// properties to the default volume, and asks the caller to
    /// register the last-member-disconnect notifier as a global handler
    /// on the new session.
    pub fn complete_join(&mut self, guild: u64, channel: u64)
        requires
            old(self).wf(),
            !old(self).spec_has_session(guild),
        ensures
            final(self).wf(),
            final(self).spec_has_session(guild),
            final(self).sessions@.dom() == old(self).sessions@.dom().insert(guild),
            final(self).sessions@[guild].channel == channel,
            final(self).sessions@[guild].queue@ == Seq::<u128>::empty(),
            !final(self).sessions@[guild].paused,
            forall|g: u64| g != guild && old(self).sessions@.contains_key(g)
                ==> final(self).sessions@[g] == old(self).sessions@[g],
            final(self).properties@ == old(self).properties@.insert(
                channel,
                (ChannelProperties { volume: DEFAULT_VOLUME }),
            ),
            final(self).metadata@ == old(self).metadata@,
    {
        let session = VoiceSession { channel, queue: Vec::new(), paused: false };
        self.sessions.insert(guild, session);
        self.properties.insert(channel, ChannelProperties { volume: DEFAULT_VOLUME });
        proof {
            assert(final(self).sessions@.dom() =~= old(self).sessions@.dom().insert(guild));
        }
    }

    /// Nothing observable moved between the two states: same sessions,
    /// same cache, same channel settings.
    pub open spec fn same_state(self, post: PlayerManager) -> bool {
        &&& post.sessions@ == self.sessions@
        &&& post.metadata@ == self.metadata@
        &&& post.properties@ == self.properties@
    }

    /// How a successful enqueue relates the manager before the call to
    /// the manager after it: the track is appended to the guild's
    /// queue, its metadata enters the cache, and nothing else moves.
    pub open spec fn enqueue_updates(
        self,
        post: PlayerManager,
        guild: u64,
        track: u128,
        meta: TrackMetadata,
    ) -> bool {
        &&& post.sessions@.dom() == self.sessions@.dom()
        &&& post.sessions@[guild].channel == self.sessions@[guild].channel
        &&& post.sessions@[guild].paused == self.sessions@[guild].paused
        &&& post.spec_queue(guild) == self.spec_queue(guild).push(track)
        &&& forall|g: u64| g != guild && self.sessions@.contains_key(g)
            ==> post.sessions@[g] == self.sessions@[g]
        &&& post.metadata@ == self.metadata@.insert(track, meta)
        &&& post.properties@ == self.properties@
    }

    /// Appends a freshly resolved track to the guild's queue and stores
    /// its metadata in the cache under the track's identifier, as one
    /// atomic step.
    ///
    /// The receipt says where the track landed, whether it starts
    /// playing at once (the queue was empty before the call), and the
    /// channel's stored volume, which the caller applies to the new
    /// track. When the guild's session is gone — torn down while the
    /// track was still resolving — the result is discarded with
    /// [`PlayerError::NotInVoiceChannel`] and nothing changes: a dead
    /// session is never revived.
    ///
    /// The identifier must be fresh: it is minted for this track by the
    /// engine when the track is created, so it is not yet in the cache.
    pub fn enqueue(&mut self, guild: u64, track: u128, meta: TrackMetadata) -> (r: Result<
        EnqueueReceipt,
        PlayerError,
    >)
        requires
            old(self).wf(),
            !old(self).metadata@.contains_key(track),
        ensures
            final(self).wf(),
            old(self).spec_has_session(guild) ==> {
                &&& old(self).enqueue_updates(*final(self), guild, track, meta)
                &&& r == Ok::<EnqueueReceipt, PlayerError>(
                    (EnqueueReceipt {
                        position: old(self).spec_queue(guild).len() as usize,
                        starts_now: old(self).spec_queue(guild).len() == 0,
                        volume: old(self).spec_channel_volume(
                            old(self).sessions@[guild].channel,
                        ),
                    }),
                )
            },
            !old(self).spec_has_session(guild) ==> r == Err::<EnqueueReceipt, PlayerError>(
                PlayerError::NotInVoiceChannel,
            ) && old(self).same_state(*final(self)),
    {
        match self.sessions.remove(&guild) {
            None => {
                proof {
                    assert(final(self).sessions@ =~= old(self).sessions@);
                }
                Err(PlayerError::NotInVoiceChannel)
            },
            Some(mut session) => {
                let position = session.queue.len();
                let starts_now = position == 0;
                session.queue.push(track);
                let volume = match self.properties.get(&session.channel) {
                    Some(p) => p.volume,
                    None => DEFAULT_VOLUME,
                };
                self.sessions.insert(guild, session);
                self.metadata.insert(track, meta);
                proof {
                    assert(final(self).sessions@.dom() =~= old(self).sessions@.dom());
                    assert(final(self).spec_queue(guild)
                        =~= old(self).spec_queue(guild).push(track));
                    assert forall|g1: u64, i1: int, g2: u64, i2: int|
                        final(self).sessions@.contains_key(g1)
                            && final(self).sessions@.contains_key(g2)
                            && 0 <= i1 < final(self).sessions@[g1].queue@.len()
                            && 0 <= i2 < final(self).sessions@[g2].queue@.len()
                            && (g1 != g2 || i1 != i2)
                        implies #[trigger] final(self).sessions@[g1].queue@[i1]
                            != #[trigger] final(self).sessions@[g2].queue@[i2] by {
                        if final(self).sessions@[g1].queue@[i1] == track
                            || final(self).sessions@[g2].queue@[i2] == track {
                            assert(old(self).queued_tracks_cached());
                        }
                    }
                }
                Ok(EnqueueReceipt { position, starts_now, volume })
            },
        }
    }

    /// How a successful skip relates the two states: the first queue
    /// element is gone, the rest moved up one place, and nothing else
    /// moved.
    pub open spec fn skip_updates(self, post: PlayerManager, guild: u64) -> bool {
        &&& post.sessions@.dom() == self.sessions@.dom()
        &&& post.sessions@[guild].channel == self.sessions@[guild].channel
        &&& post.sessions@[guild].paused == self.sessions@[guild].paused
        &&& post.spec_queue(guild) == self.spec_queue(guild).drop_first()
        &&& forall|g: u64| g != guild && self.sessions@.contains_key(g)
            ==> post.sessions@[g] == self.sessions@[g]
        &&& post.metadata@ == self.metadata@
        &&& post.properties@ == self.properties@
    }

    /// Advances the queue: the current track ends and the next one, if
    /// any, becomes the now-playing track. The empty-queue check and
    /// the advance are one atomic operation, so a track that finishes
    /// on its own in between cannot be skipped by mistake.
    ///
    /// The receipt names the ended track and the one now playing; the
    /// caller has the engine stop the former. The ended track's
    /// metadata stays cached until the engine reports the end and
    /// [`PlayerManager::on_track_end`] runs.
    pub fn skip(&mut self, guild: u64) -> (r: Result<SkipReceipt, PlayerError>)
        requires
            old(self).wf(),
        ensures
            final(self).wf(),
            !old(self).spec_has_session(guild) ==> r == Err::<SkipReceipt, PlayerError>(
                PlayerError::NotInVoiceChannel,
            ) && old(self).same_state(*final(self)),
            old(self).spec_has_session(guild) && old(self).spec_queue(guild).len() == 0 ==> r
                == Err::<SkipReceipt, PlayerError>(PlayerError::EmptyQueue) && old(
                self,
            ).same_state(*final(self)),
            old(self).spec_has_session(guild) && old(self).spec_queue(guild).len() > 0 ==> {
                &&& old(self).skip_updates(*final(self), guild)
                &&& r == Ok::<SkipReceipt, PlayerError>(
                    (SkipReceipt {
                        ended: old(self).spec_queue(guild)[0],
                        next: if old(self).spec_queue(guild).len() > 1 {
                            Some(old(self).spec_queue(guild)[1])
                        } else {
                            None
                        },
                    }),
                )
            },
    {
        match self.sessions.remove(&guild) {
            None => {
                proof {
                    assert(final(self).sessions@ =~= old(self).sessions@);
                }
                Err(PlayerError::NotInVoiceChannel)
            },
            Some(mut session) => {
                if session.queue.len() == 0 {
                    self.sessions.insert(guild, session);
                    proof {
                        assert(final(self).sessions@ =~= old(self).sessions@);
                    }
                    Err(PlayerError::EmptyQueue)
                } else {
                    let ended = session.queue.remove(0);
                    let next = if session.queue.len() > 0 {
                        Some(session.queue[0])
                    } else {
                        None
                    };
                    self.sessions.insert(guild, session);
                    proof {
                        assert(final(self).sessions@.dom() =~= old(self).sessions@.dom());
                        assert(final(self).spec_queue(guild)
                            =~= old(self).spec_queue(guild).drop_first());
                    }
                    Ok(SkipReceipt { ended, next })
                }
            },
        }
    }

    /// How pausing or resuming relates the two states: only the named
    /// guild's paused flag changes.
    pub open spec fn set_paused_updates(
        self,
        post: PlayerManager,
        guild: u64,
        paused: bool,
    ) -> bool {
        &&& post.sessions@.dom() == self.sessions@.dom()
        &&& post.sessions@[guild].channel == self.sessions@[guild].channel
        &&& post.sessions@[guild].paused == paused
        &&& post.spec_queue(guild) == self.spec_queue(guild)
        &&& forall|g: u64| g != guild && self.sessions@.contains_key(g)
            ==> post.sessions@[g] == self.sessions@[g]
        &&& post.metadata@ == self.metadata@
        &&& post.properties@ == self.properties@
    }

    /// Pauses the whole queue's playback. Pausing a queue that is
    /// already paused is refused with [`PlayerError::InvalidState`], so
    /// the caller always learns which of the two occurred.
    pub fn pause(&mut self, guild: u64) -> (r: Result<(), PlayerError>)
        requires
            old(self).wf(),
        ensures
            final(self).wf(),
            !old(self).spec_has_session(guild) ==> r == Err::<(), PlayerError>(
                PlayerError::NotInVoiceChannel,
            ) && old(self).same_state(*final(self)),
            old(self).spec_has_session(guild) && old(self).sessions@[guild].paused ==> r
                == Err::<(), PlayerError>(PlayerError::InvalidState) && old(self).same_state(
                *final(self),
            ),
            old(self).spec_has_session(guild) && !old(self).sessions@[guild].paused ==> r
                == Ok::<(), PlayerError>(()) && old(self).set_paused_updates(
                *final(self),
                guild,
                true,
            ),
    {
        self.set_paused(guild, true)
    }

    /// Resumes the whole queue's playback; the mirror of
    /// [`PlayerManager::pause`].
    pub fn resume(&mut self, guild: u64) -> (r: Result<(), PlayerError>)
        requires
            old(self).wf(),
        ensures
            final(self).wf(),
            !old(self).spec_has_session(guild) ==> r == Err::<(), PlayerError>(
                PlayerError::NotInVoiceChannel,
            ) && old(self).same_state(*final(self)),
            old(self).spec_has_session(guild) && !old(self).sessions@[guild].paused ==> r
                == Err::<(), PlayerError>(PlayerError::InvalidState) && old(self).same_state(
                *final(self),
            ),
            old(self).spec_has_session(guild) && old(self).sessions@[guild].paused ==> r
                == Ok::<(), PlayerError>(()) && old(self).set_paused_updates(
                *final(self),
                guild,
                false,
            ),
    {
        self.set_paused(guild, false)
    }

    /// The shared transition behind pause and resume: flips the paused
    /// flag to `paused` unless it already is `paused`.
    fn set_paused(&mut self, guild: u64, paused: bool) -> (r: Result<(), PlayerError>)
        requires
            old(self).wf(),
        ensures
            final(self).wf(),
            !old(self).spec_has_session(guild) ==> r == Err::<(), PlayerError>(
                PlayerError::NotInVoiceChannel,
            ) && old(self).same_state(*final(self)),
            old(self).spec_has_session(guild) && old(self).sessions@[guild].paused == paused
                ==> r == Err::<(), PlayerError>(PlayerError::InvalidState) && old(
                self,
            ).same_state(*final(self)),
            old(self).spec_has_session(guild) && old(self).sessions@[guild].paused != paused
                ==> r == Ok::<(), PlayerError>(()) && old(self).set_paused_updates(
                *final(self),
                guild,
                paused,
            ),
    {
        match self.sessions.remove(&guild) {
            None => {
                proof {
                    assert(final(self).sessions@ =~= old(self).sessions@);
                }
                Err(PlayerError::NotInVoiceChannel)
            },
            Some(mut session) => {
                if session.paused == paused {
                    self.sessions.insert(guild, session);
                    proof {
                        assert(final(self).sessions@ =~= old(self).sessions@);
                    }
                    Err(PlayerError::InvalidState)
                } else {
                    session.paused = paused;
                    self.sessions.insert(guild, session);
                    proof {
                        assert(final(self).sessions@.dom() =~= old(self).sessions@.dom());
                    }
                    Ok(())
                }
            },
        }
    }

    /// The loop mode a user request stands for: no count or a count of
    /// zero means "repeat until asked to stop", a positive count means
    /// that many additional plays.
    pub open spec fn spec_loop_mode(times: Option<usize>) -> LoopMode {
        match times {
            None => LoopMode::Infinite,
            Some(n) => if n == 0 {
                LoopMode::Infinite
            } else {
                LoopMode::Count(n)
            },
        }
    }

    /// Decides a loop request for the current track. Loop state lives
    /// on the engine's track handle, not in the queue, so this changes
    /// no manager state: the caller applies the returned action to the
    /// named track. A track that has already ended is no longer in any
    /// queue, so the request is refused before it reaches the engine.
    pub fn set_loop(&self, guild: u64, times: Option<usize>) -> (r: Result<
        LoopAction,
        PlayerError,
    >)
        ensures
            !self.spec_has_session(guild) ==> r == Err::<LoopAction, PlayerError>(
                PlayerError::NotInVoiceChannel,
            ),
            self.spec_has_session(guild) && self.spec_queue(guild).len() == 0 ==> r == Err::<
                LoopAction,
                PlayerError,
            >(PlayerError::EmptyQueue),
            self.spec_has_session(guild) && self.spec_queue(guild).len() > 0 ==> r == Ok::<
                LoopAction,
                PlayerError,
            >(
                (LoopAction {
                    track: self.spec_queue(guild)[0],
                    mode: Self::spec_loop_mode(times),
                }),
            ),
    {
        match self.sessions.get(&guild) {
            None => Err(PlayerError::NotInVoiceChannel),
            Some(session) => {
                if session.queue.len() == 0 {
                    Err(PlayerError::EmptyQueue)
                } else {
                    let mode = match times {
                        None => LoopMode::Infinite,
                        Some(n) => if n == 0 {
                            LoopMode::Infinite
                        } else {
                            LoopMode::Count(n)
                        },
                    };
                    Ok(LoopAction { track: session.queue[0], mode })
                }
            },
        }
    }

    /// Decides an unloop request: names the current track whose loop
    /// the caller disables on the engine. Changes no manager state.
    pub fn clear_loop(&self, guild: u64) -> (r: Result<u128, PlayerError>)
        ensures
            !self.spec_has_session(guild) ==> r == Err::<u128, PlayerError>(
                PlayerError::NotInVoiceChannel,
            ),
            self.spec_has_session(guild) && self.spec_queue(guild).len() == 0 ==> r == Err::<
                u128,
                PlayerError,
            >(PlayerError::EmptyQueue),
            self.spec_has_session(guild) && self.spec_queue(guild).len() > 0 ==> r == Ok::<
                u128,
                PlayerError,
            >(self.spec_queue(guild)[0]),
    {
        match self.sessions.get(&guild) {
            None => Err(PlayerError::NotInVoiceChannel),
            Some(session) => {
                if session.queue.len() == 0 {
                    Err(PlayerError::EmptyQueue)
                } else {
                    Ok(session.queue[0])
                }
            },
        }
    }

    /// Sets the channel's stored volume and names the current track the
    /// caller applies it to. A volume outside 0 to 100 is rejected with
    /// [`PlayerError::InvalidVolume`] before anything reaches the
    /// engine, and the prior stored volume stays as it was; 0 and 100
    /// themselves are valid.
    pub fn set_volume(&mut self, guild: u64, volume: i8) -> (r: Result<
        VolumeAction,
        PlayerError,
    >)
        requires
            old(self).wf(),
        ensures
            final(self).wf(),
            volume < 0 || volume > 100 ==> r == Err::<VolumeAction, PlayerError>(
                PlayerError::InvalidVolume,
            ) && old(self).same_state(*final(self)),
            0 <= volume <= 100 && !old(self).spec_has_session(guild) ==> r == Err::<
                VolumeAction,
                PlayerError,
            >(PlayerError::NotInVoiceChannel) && old(self).same_state(*final(self)),
            0 <= volume <= 100 && old(self).spec_has_session(guild) && old(self).spec_queue(
                guild,
            ).len() == 0 ==> r == Err::<VolumeAction, PlayerError>(PlayerError::EmptyQueue)
                && old(self).same_state(*final(self)),
            0 <= volume <= 100 && old(self).spec_has_session(guild) && old(self).spec_queue(
                guild,
            ).len() > 0 ==> {
                &&& final(self).sessions@ == old(self).sessions@
                &&& final(self).metadata@ == old(self).metadata@
                &&& final(self).properties@ == old(self).properties@.insert(
                    old(self).sessions@[guild].channel,
                    (ChannelProperties { volume }),
                )
                &&& r == Ok::<VolumeAction, PlayerError>(
                    (VolumeAction { track: old(self).spec_queue(guild)[0], volume }),
                )
            },
    {
        if volume < 0 || volume > 100 {
            return Err(PlayerError::InvalidVolume);
        }
        match self.sessions.get(&guild) {
            None => Err(PlayerError::NotInVoiceChannel),
            Some(session) => {
                if session.queue.len() == 0 {
                    Err(PlayerError::EmptyQueue)
                } else {
                    let track = session.queue[0];
                    let channel = session.channel;
                    self.properties.insert(channel, ChannelProperties { volume });
                    Ok(VolumeAction { track, volume })
                }
            },
        }
    }

    /// The cached metadata of one track, used by the track-start
    /// notifier to compose the "now playing" message.
    pub fn metadata_of(&self, track: u128) -> (r: Option<&TrackMetadata>)
        ensures
            r is Some <==> self.metadata@.contains_key(track),
            r is Some ==> *r->0 == self.metadata@[track],
    {
        self.metadata.get(&track)
    }

    /// The volume the channel plays at: the stored setting, or the
    /// default when nothing is stored.
    pub fn channel_volume(&self, channel: u64) -> (v: i8)
        ensures
            v == self.spec_channel_volume(channel),
    {
        match self.properties.get(&channel) {
            Some(p) => p.volume,
            None => DEFAULT_VOLUME,
        }
    }

    /// The read-only queue projection: for a guild without a session it
    /// is empty; otherwise one entry per queued track, in queue order,
    /// each carrying the track's cached metadata, with the first entry
    /// marked now-playing.
    pub open spec fn spec_queue_view(self, g: u64) -> Seq<QueueEntry> {
        if !self.spec_has_session(g) {
            Seq::empty()
        } else {
            Seq::new(
                self.spec_queue(g).len(),
                |i: int| QueueEntry {
                    position: i as usize,
                    track: self.spec_queue(g)[i],
                    metadata: self.metadata@[self.spec_queue(g)[i]],
                    now_playing: i == 0,
                },
            )
        }
    }

    /// Builds the queue projection. Every entry of a live queue is
    /// guaranteed a metadata entry — the cache is written atomically
    /// with the enqueue — so the lookup here cannot miss.
    pub fn current_queue_view(&self, guild: u64) -> (v: Vec<QueueEntry>)
        requires
            self.wf(),
        ensures
            v@ == self.spec_queue_view(guild),
    {
        let mut v: Vec<QueueEntry> = Vec::new();
        match self.sessions.get(&guild) {
            None => {
                proof {
                    assert(v@ =~= self.spec_queue_view(guild));
                }
                v
            },
            Some(session) => {
                let mut i: usize = 0;
                while i < session.queue.len()
                    invariant
                        0 <= i <= session.queue@.len(),
                        self.wf(),
                        self.spec_has_session(guild),
                        session.queue@ == self.spec_queue(guild),
                        v@ == self.spec_queue_view(guild).subrange(0, i as int),
                    decreases session.queue@.len() - i,
                {
                    let t = session.queue[i];
                    let meta = match self.metadata.get(&t) {
                        Some(m) => m.clone(),
                        None => unreached(),
                    };
                    v.push(
                        QueueEntry { position: i, track: t, metadata: meta, now_playing: i == 0 },
                    );
                    proof {
                        assert(v@ =~= self.spec_queue_view(guild).subrange(0, i as int + 1));
                    }
                    i += 1;
                }
                proof {
                    assert(self.spec_queue_view(guild).subrange(
                        0,
                        session.queue@.len() as int,
                    ) =~= self.spec_queue_view(guild));
                }
                v
            },
        }
    }

    /// Removes the guild's session. Idempotent: with no session this is
    /// a no-op and `acted` is false. The caller, when `acted`, stops
    /// the engine's queue, unregisters all global handlers, and closes
    /// the connection. Channel settings and cached metadata stay; the
    /// last-member-disconnect path removes the channel's settings
    /// itself, see [`PlayerManager::on_member_change`].
    pub fn teardown(&mut self, guild: u64) -> (acted: bool)
        requires
            old(self).wf(),
        ensures
            final(self).wf(),
            acted == old(self).spec_has_session(guild),
            final(self).sessions@ == old(self).sessions@.remove(guild),
            final(self).metadata@ == old(self).metadata@,
            final(self).properties@ == old(self).properties@,
    {
        match self.sessions.remove(&guild) {
            Some(_) => true,
            None => false,
        }
    }

    /// The last-member-disconnected notifier: the engine reports a
    /// membership change in the guild's voice channel, with the number
    /// of members still in it. When the bot is the sole remaining
    /// member and the session is still live, the session is torn down
    /// and the channel's settings entry is removed, in one atomic step.
    ///
    /// Overlapping invocations are safe: only the first one acts, every
    /// later one observes the session already gone and is a no-op.
    pub fn on_member_change(&mut self, guild: u64, members_in_channel: usize) -> (acted: bool)
        requires
            old(self).wf(),
        ensures
            final(self).wf(),
            acted == (members_in_channel == 1 && old(self).spec_has_session(guild)),
            !acted ==> old(self).same_state(*final(self)),
            acted ==> final(self).sessions@ == old(self).sessions@.remove(guild),
            acted ==> final(self).properties@ == old(self).properties@.remove(
                old(self).sessions@[guild].channel,
            ),
            acted ==> final(self).metadata@ == old(self).metadata@,
    {
        if members_in_channel != 1 {
            return false;
        }
        match self.sessions.remove(&guild) {
            None => {
                proof {
                    assert(final(self).sessions@ =~= old(self).sessions@);
                }
                false
            },
            Some(session) => {
                self.properties.remove(&session.channel);
                true
            },
        }
    }
}

/// The metadata cache after a batch of tracks ended: each reported
/// track's entry is removed; a track whose entry is already absent is
/// passed over without effect.
pub open spec fn cache_after_end(
    cache: Map<u128, TrackMetadata>,
    ended: Seq<u128>,
) -> Map<u128, TrackMetadata> {
    cache.remove_keys(ended.to_set())
}

/// The queue after a batch of tracks ended: the reported tracks are
/// gone, the others keep their order.
pub open spec fn queue_after_end(q: Seq<u128>, ended: Seq<u128>) -> Seq<u128>
    decreases q.len(),
{
    if q.len() == 0 {
        Seq::empty()
    } else {
        let prefix = queue_after_end(q.drop_last(), ended);
        if ended.contains(q.last()) {
            prefix
        } else {
            prefix.push(q.last())
        }
    }
}

/// No identifier occurs twice in the sequence.
pub open spec fn distinct_seq(q: Seq<u128>) -> bool {
    forall|i: int, j: int| 0 <= i < q.len() && 0 <= j < q.len() && i != j ==> q[i] != q[j]
}

/// What [`queue_after_end`] keeps: only original tracks that were not
/// reported ended, and no duplicates appear that were not there before.
pub proof fn lemma_queue_after_end_props(q: Seq<u128>, ended: Seq<u128>)
    ensures
        forall|x: u128| #[trigger] queue_after_end(q, ended).contains(x) ==> q.contains(x)
            && !ended.contains(x),
        distinct_seq(q) ==> distinct_seq(queue_after_end(q, ended)),
    decreases q.len(),
{
    if q.len() > 0 {
        lemma_queue_after_end_props(q.drop_last(), ended);
        let prefix = queue_after_end(q.drop_last(), ended);
        assert forall|x: u128| #[trigger] queue_after_end(q, ended).contains(x) implies q.contains(
            x,
        ) && !ended.contains(x) by {
            if prefix.contains(x) {
                assert(q.drop_last().contains(x));
                let i = choose|i: int| 0 <= i < q.drop_last().len() && q.drop_last()[i] == x;
                assert(q[i] == x);
            } else {
                assert(x == q.last());
            }
        }
        if distinct_seq(q) {
            assert(distinct_seq(q.drop_last()));
            if !ended.contains(q.last()) {
                assert forall|i: int, j: int|
                    0 <= i < queue_after_end(q, ended).len() && 0 <= j < queue_after_end(
                        q,
                        ended,
                    ).len() && i != j implies queue_after_end(q, ended)[i] != queue_after_end(
                    q,
                    ended,
                )[j] by {
                    if i == prefix.len() || j == prefix.len() {
                        let k = if i == prefix.len() {
                            j
                        } else {
                            i
                        };
                        assert(prefix.contains(prefix[k]));
                        assert(q.drop_last().contains(prefix[k]));
                        let w = choose|w: int|
                            0 <= w < q.drop_last().len() && q.drop_last()[w] == prefix[k];
                        assert(q[w] == prefix[k]);
                        assert(q.last() == q[q.len() - 1]);
                    }
                }
            }
        }
    }
}

impl PlayerManager {
    /// The track-end notifier: the engine reports that a batch of the
    /// guild's tracks ended — finished, were skipped, or were stopped,
    /// which all collapse to "ended" here. Each reported track leaves
    /// the guild's queue and its metadata entry leaves the cache; each
    /// removal stands on its own, so a track whose entry is already
    /// absent (a duplicate report) is passed over without failing the
    /// batch, and no error is ever surfaced.
    ///
    /// The engine reports a track's end only to the guild that owns it,
    /// which is what the second precondition records.
    pub fn on_track_end(&mut self, guild: u64, ended: &Vec<u128>)
        requires
            old(self).wf(),
            forall|g: u64, i: int|
                #![trigger old(self).sessions@[g].queue@[i]]
                g != guild && old(self).sessions@.contains_key(g) && 0 <= i < old(
                    self,
                ).sessions@[g].queue@.len() ==> !ended@.contains(
                    old(self).sessions@[g].queue@[i],
                ),
        ensures
            final(self).wf(),
            final(self).metadata@ == cache_after_end(old(self).metadata@, ended@),
            final(self).properties@ == old(self).properties@,
            final(self).sessions@.dom() == old(self).sessions@.dom(),
            forall|g: u64| g != guild && old(self).sessions@.contains_key(g)
                ==> final(self).sessions@[g] == old(self).sessions@[g],
            old(self).spec_has_session(guild) ==> {
                &&& final(self).sessions@[guild].channel == old(self).sessions@[guild].channel
                &&& final(self).sessions@[guild].paused == old(self).sessions@[guild].paused
                &&& final(self).spec_queue(guild) == queue_after_end(
                    old(self).spec_queue(guild),
                    ended@,
                )
            },
    {
        let mut i: usize = 0;
        while i < ended.len()
            invariant
                0 <= i <= ended@.len(),
                self.sessions@ == old(self).sessions@,
                self.properties@ == old(self).properties@,
                self.metadata@ == old(self).metadata@.remove_keys(
                    ended@.subrange(0, i as int).to_set(),
                ),
            decreases ended@.len() - i,
        {
            self.metadata.remove(&ended[i]);
            proof {
                let s1 = ended@.subrange(0, i as int + 1);
                let s0 = ended@.subrange(0, i as int);
                assert forall|x: u128| s1.contains(x) <==> s0.contains(x) || x == ended@[
                    i as int
                ] by {
                    if s1.contains(x) {
                        let j = choose|j: int| 0 <= j < s1.len() && s1[j] == x;
                        if j < i as int {
                            assert(s0[j] == x);
                        }
                    }
                    if s0.contains(x) {
                        let j = choose|j: int| 0 <= j < s0.len() && s0[j] == x;
                        assert(s1[j] == x);
                    }
                    if x == ended@[i as int] {
                        assert(s1[i as int] == x);
                    }
                }
                assert(self.metadata@ =~= old(self).metadata@.remove_keys(s1.to_set()));
            }
            i += 1;
        }
        proof {
            assert(ended@.subrange(0, ended@.len() as int) =~= ended@);
        }
        match self.sessions.remove(&guild) {
            None => {
                proof {
                    assert(final(self).sessions@ =~= old(self).sessions@);
                    assert(final(self).sessions@.dom() =~= old(self).sessions@.dom());
                }
            },
            Some(mut session) => {
                let mut kept: Vec<u128> = Vec::new();
                let mut j: usize = 0;
                while j < session.queue.len()
                    invariant
                        0 <= j <= session.queue@.len(),
                        kept@ == queue_after_end(session.queue@.subrange(0, j as int), ended@),
                    decreases session.queue@.len() - j,
                {
                    let t = session.queue[j];
                    proof {
                        assert(session.queue@.subrange(0, j as int + 1)
                            =~= session.queue@.subrange(0, j as int).push(t));
                        assert(session.queue@.subrange(0, j as int + 1).drop_last()
                            =~= session.queue@.subrange(0, j as int));
                    }
                    if !contains_id(ended, t) {
                        kept.push(t);
                    }
                    j += 1;
                }
                proof {
                    assert(session.queue@.subrange(0, session.queue@.len() as int)
                        =~= session.queue@);
                }
                session.queue = kept;
                self.sessions.insert(guild, session);
                proof {
                    assert(final(self).sessions@.dom() =~= old(self).sessions@.dom());
                    let oldq = old(self).spec_queue(guild);
                    let newq = final(self).spec_queue(guild);
                    lemma_queue_after_end_props(oldq, ended@);
                    assert(old(self).queued_tracks_distinct());
                    assert(distinct_seq(oldq)) by {
                        assert(forall|i1: int, i2: int|
                            0 <= i1 < oldq.len() && 0 <= i2 < oldq.len() && i1 != i2
                                ==> old(self).sessions@[guild].queue@[i1] != old(
                                self,
                            ).sessions@[guild].queue@[i2]);
                    }
                    assert forall|g1: u64, i1: int, g2: u64, i2: int|
                        final(self).sessions@.contains_key(g1)
                            && final(self).sessions@.contains_key(g2)
                            && 0 <= i1 < final(self).sessions@[g1].queue@.len()
                            && 0 <= i2 < final(self).sessions@[g2].queue@.len()
                            && (g1 != g2 || i1 != i2)
                        implies #[trigger] final(self).sessions@[g1].queue@[i1]
                            != #[trigger] final(self).sessions@[g2].queue@[i2] by {
                        if g1 == guild && g2 == guild {
                            assert(distinct_seq(newq));
                        } else if g1 == guild {
                            assert(newq.contains(newq[i1]));
                            assert(oldq.contains(newq[i1]));
                            let w = choose|w: int| 0 <= w < oldq.len() && oldq[w] == newq[i1];
                            assert(old(self).sessions@[guild].queue@[w] != old(
                                self,
                            ).sessions@[g2].queue@[i2]);
                        } else if g2 == guild {
                            assert(newq.contains(newq[i2]));
                            assert(oldq.contains(newq[i2]));
                            let w = choose|w: int| 0 <= w < oldq.len() && oldq[w] == newq[i2];
                            assert(old(self).sessions@[g1].queue@[i1] != old(
                                self,
                            ).sessions@[guild].queue@[w]);
                        }
                    }
                    assert forall|g: u64, i: int|
                        final(self).sessions@.contains_key(g)
                            && 0 <= i < final(self).sessions@[g].queue@.len()
                        implies final(self).metadata@.contains_key(
                        #[trigger] final(self).sessions@[g].queue@[i],
                    ) by {
                        if g == guild {
                            assert(newq.contains(newq[i]));
                            assert(oldq.contains(newq[i]) && !ended@.contains(newq[i]));
                            let w = choose|w: int| 0 <= w < oldq.len() && oldq[w] == newq[i];
                            assert(old(self).metadata@.contains_key(oldq[w]));
                        } else {
                            assert(old(self).metadata@.contains_key(
                                old(self).sessions@[g].queue@[i],
                            ));
                            assert(!ended@.contains(old(self).sessions@[g].queue@[i]));
                        }
                    }
                }
            },
        }
    }
}

/// Linear membership test used by the track-end notifier.
fn contains_id(v: &Vec<u128>, x: u128) -> (r: bool)
    ensures
        r == v@.contains(x),
{
    let mut i: usize = 0;
    while i < v.len()
        invariant
            0 <= i <= v@.len(),
            forall|j: int| 0 <= j < i ==> v@[j] != x,
        decreases v@.len() - i,
    {
        if v[i] == x {
            return true;
        }
        i += 1;
    }
    false
}

} // verus!
