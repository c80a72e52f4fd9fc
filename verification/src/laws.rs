//! The properties the manager promises across several operations,
//! proved once and for all from the operations' contracts.

use vstd::prelude::*;

use crate::manager::{cache_after_end, PlayerManager};
use crate::session::VoiceSession;
use crate::track::{QueueEntry, TrackMetadata};

verus! {

/// An enqueue is visible at once: immediately after a successful
/// enqueue, the queue projection has grown by exactly the new track,
/// and its last entry carries the very metadata that was written — not
/// a placeholder — because the cache write and the queue append are one
/// step.
pub proof fn lemma_enqueue_visible(
    pre: PlayerManager,
    post: PlayerManager,
    guild: u64,
    track: u128,
    meta: TrackMetadata,
)
    requires
        pre.wf(),
        pre.spec_has_session(guild),
        pre.enqueue_updates(post, guild, track, meta),
    ensures
        post.spec_queue_view(guild).len() == pre.spec_queue(guild).len() + 1,
        post.spec_queue_view(guild).last() == (QueueEntry {
            position: pre.spec_queue(guild).len() as usize,
            track,
            metadata: meta,
            now_playing: pre.spec_queue(guild).len() == 0,
        }),
        post.spec_queue_view(guild).subrange(0, pre.spec_queue(guild).len() as int)
            =~= pre.spec_queue_view(guild).map_values(
            |e: QueueEntry| (QueueEntry { metadata: post.metadata@[e.track], ..e }),
        ),
{
    assert(post.sessions@.dom().contains(guild));
    let n = pre.spec_queue(guild).len() as int;
    assert(post.spec_queue(guild).len() == n + 1);
    assert(post.spec_queue(guild)[n] == track);
    assert(post.metadata@[track] == meta);
}

/// Nothing plays iff nothing is queued: for a guild whose queue is
/// empty — or who has no session at all — the queue projection is the
/// empty sequence.
pub proof fn lemma_empty_queue_empty_view(m: PlayerManager, guild: u64)
    requires
        m.spec_has_session(guild) ==> m.spec_queue(guild).len() == 0,
    ensures
        m.spec_queue_view(guild) == Seq::<QueueEntry>::empty(),
{
    assert(m.spec_queue_view(guild) =~= Seq::<QueueEntry>::empty());
}

/// Skipping the last remaining track empties the queue: after a
/// successful skip of a single-element queue, the queue length is zero
/// and the queue projection is empty.
pub proof fn lemma_skip_last_track(pre: PlayerManager, post: PlayerManager, guild: u64)
    requires
        pre.wf(),
        pre.spec_has_session(guild),
        pre.spec_queue(guild).len() == 1,
        pre.skip_updates(post, guild),
    ensures
        post.spec_queue(guild).len() == 0,
        post.spec_queue_view(guild) == Seq::<QueueEntry>::empty(),
{
    assert(post.sessions@.dom().contains(guild));
    lemma_empty_queue_empty_view(post, guild);
}

/// A duplicate end report removes nothing further: ending the same
/// batch of tracks twice leaves the cache exactly as ending it once
/// did. Together with the totality of the notifier — it returns no
/// error — a duplicate callback is a harmless no-op.
pub proof fn lemma_track_end_idempotent(cache: Map<u128, TrackMetadata>, ended: Seq<u128>)
    ensures
        cache_after_end(cache_after_end(cache, ended), ended) == cache_after_end(cache, ended),
{
    assert(cache_after_end(cache_after_end(cache, ended), ended) =~= cache_after_end(
        cache,
        ended,
    ));
}

/// A duplicate identifier inside one end report changes nothing
/// either: the batch acts as the set of its identifiers.
pub proof fn lemma_duplicate_in_batch(
    cache: Map<u128, TrackMetadata>,
    ended: Seq<u128>,
    track: u128,
)
    requires
        ended.contains(track),
    ensures
        cache_after_end(cache, ended.push(track)) == cache_after_end(cache, ended),
{
    assert forall|x: u128| ended.push(track).contains(x) implies ended.contains(x) by {
        let j = choose|j: int| 0 <= j < ended.push(track).len() && ended.push(track)[j] == x;
        if j < ended.len() {
            assert(ended[j] == x);
        }
    }
    assert forall|x: u128| ended.contains(x) implies ended.push(track).contains(x) by {
        let j = choose|j: int| 0 <= j < ended.len() && ended[j] == x;
        assert(ended.push(track)[j] == x);
    }
    assert(cache_after_end(cache, ended.push(track)) =~= cache_after_end(cache, ended));
}

/// Tearing down is idempotent: removing a guild's session a second
/// time finds the registry exactly as the first removal left it.
pub proof fn lemma_teardown_idempotent(sessions: Map<u64, VoiceSession>, guild: u64)
    ensures
        sessions.remove(guild).remove(guild) == sessions.remove(guild),
{
    assert(sessions.remove(guild).remove(guild) =~= sessions.remove(guild));
}

/// Two managers whose session registries look the same to every
/// observer: the same guilds, and per guild the same channel, paused
/// flag, and queue contents.
pub open spec fn sessions_agree(a: PlayerManager, b: PlayerManager) -> bool {
    &&& a.sessions@.dom() == b.sessions@.dom()
    &&& forall|g: u64| #[trigger] a.sessions@.contains_key(g) ==> {
        &&& a.sessions@[g].channel == b.sessions@[g].channel
        &&& a.sessions@[g].paused == b.sessions@[g].paused
        &&& a.sessions@[g].queue@ == b.sessions@[g].queue@
    }
}

/// Operations on distinct guilds are independent: enqueueing into two
/// different guilds' sessions reaches the same state in either order,
/// so neither operation can disturb — or need to wait on — the other's
/// session.
pub proof fn lemma_enqueue_distinct_guilds_commutes(
    pre: PlayerManager,
    p1: PlayerManager,
    p12: PlayerManager,
    p2: PlayerManager,
    p21: PlayerManager,
    g1: u64,
    g2: u64,
    t1: u128,
    t2: u128,
    m1: TrackMetadata,
    m2: TrackMetadata,
)
    requires
        g1 != g2,
        t1 != t2,
        pre.spec_has_session(g1),
        pre.spec_has_session(g2),
        pre.enqueue_updates(p1, g1, t1, m1),
        p1.enqueue_updates(p12, g2, t2, m2),
        pre.enqueue_updates(p2, g2, t2, m2),
        p2.enqueue_updates(p21, g1, t1, m1),
    ensures
        sessions_agree(p12, p21),
        p12.metadata@ == p21.metadata@,
        p12.properties@ == p21.properties@,
{
    assert(p12.sessions@.dom() =~= p21.sessions@.dom());
    assert(p1.sessions@.contains_key(g1));
    assert(p2.sessions@.contains_key(g2));
    assert(p12.sessions@[g1] == p1.sessions@[g1]);
    assert(p2.sessions@[g1] == pre.sessions@[g1]);
    assert(p1.spec_queue(g1) == pre.spec_queue(g1).push(t1));
    assert(p21.spec_queue(g1) == pre.spec_queue(g1).push(t1));
    assert(p21.sessions@[g2] == p2.sessions@[g2]);
    assert(p1.sessions@[g2] == pre.sessions@[g2]);
    assert(p2.spec_queue(g2) == pre.spec_queue(g2).push(t2));
    assert(p12.spec_queue(g2) == pre.spec_queue(g2).push(t2));
    assert forall|g: u64| #[trigger] p12.sessions@.contains_key(g) implies {
        &&& p12.sessions@[g].channel == p21.sessions@[g].channel
        &&& p12.sessions@[g].paused == p21.sessions@[g].paused
        &&& p12.sessions@[g].queue@ == p21.sessions@[g].queue@
    } by {
        if g != g1 && g != g2 {
            assert(p12.sessions@[g] == pre.sessions@[g]);
            assert(p21.sessions@[g] == pre.sessions@[g]);
        }
    }
    assert(p12.metadata@ =~= p21.metadata@);
}

} // verus!
