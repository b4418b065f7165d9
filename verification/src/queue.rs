//! Operations on the play queue.
use crate::data_types::track::Track;
use crate::database_types::queue_item::QueueItem;
use crate::state::{
    find_track_pos, first_track, has_track, is_first_track, is_last_track, last_track,
    lemma_track_positions, set_track_playing, with_playing, State, TimeLine,
};
use rand::Rng;
use vstd::prelude::*;

verus! {

/// A number drawn at random from `0..=upper` (`rand`'s `random_range` on the
/// thread-local generator). Only that the number lies in the range is claimed.
#[verifier::external_body]
fn random_index_inclusive(upper: usize) -> (r: usize)
    ensures
        r <= upper,
{
    rand::rng().random_range(0..=upper)
}

/// The track the index map of the queue finds for the entry is playing. The map is
/// built from the index in order, so for a repeated id the last track wins.
pub open spec fn queued_is_playing(index: Seq<Track>, item: QueueItem) -> bool {
    has_track(index, item.media_id) && index[last_track(index, item.media_id)].playing
}

/// Position `f` is the first queue entry whose track is playing.
pub open spec fn is_first_playing(index: Seq<Track>, queue: Seq<QueueItem>, f: int) -> bool {
    &&& 0 <= f < queue.len()
    &&& queued_is_playing(index, queue[f])
    &&& forall|j: int| 0 <= j < f ==> !queued_is_playing(index, #[trigger] queue[j])
}

/// Some queue entry's track is playing.
pub open spec fn has_playing(index: Seq<Track>, queue: Seq<QueueItem>) -> bool {
    exists|f: int| 0 <= f < queue.len() && queued_is_playing(index, #[trigger] queue[f])
}

/// The position in the index of the track queued at `pos`, or -1.
pub open spec fn queue_track_pos(index: Seq<Track>, queue: Seq<QueueItem>, pos: int) -> int {
    if 0 <= pos < queue.len() && has_track(index, queue[pos].media_id) {
        first_track(index, queue[pos].media_id)
    } else {
        -1
    }
}

/// The index after the track queued at `pos` had its `playing` flag set to `value`.
pub open spec fn playing_set(index: Seq<Track>, queue: Seq<QueueItem>, pos: int, value: bool) -> Seq<Track> {
    let p = queue_track_pos(index, queue, pos);
    if p >= 0 {
        index.update(p, with_playing(index[p], value))
    } else {
        index
    }
}

/// The timeline after the track queued at `pos` had its `playing` flag set to `value`.
pub open spec fn timeline_set(
    index: Seq<Track>,
    queue: Seq<QueueItem>,
    tl: TimeLine,
    pos: usize,
    value: bool,
) -> TimeLine {
    let p = queue_track_pos(index, queue, pos as int);
    if p >= 0 && value {
        TimeLine { media_index: Some(p as usize), queue_index: Some(pos), ..tl }
    } else {
        tl
    }
}

/// The fields that none of the queue operations but the named ones touch.
pub open spec fn same_apart_from_queue_and_index(a: &State, b: &State) -> bool {
    &&& a.trash_queue == b.trash_queue
    &&& a.playlists == b.playlists
    &&& a.volume == b.volume
    &&& a.search_result == b.search_result
}

/// The position of the last track of the index with the id.
pub fn find_last_track_pos(index: &Vec<Track>, id: i32) -> (r: Option<usize>)
    ensures
        match r {
            Some(p) => p as int == last_track(index@, id) && is_last_track(index@, id, p as int),
            None => !has_track(index@, id),
        },
{
    proof {
        lemma_track_positions(index@, id);
    }
    let mut i: usize = index.len();
    while i > 0
        invariant
            i <= index.len(),
            forall|j: int| i <= j < index.len() ==> #[trigger] index@[j].id != id,
        decreases i,
    {
        if index[i - 1].id == id {
            assert(is_last_track(index@, id, i - 1));
            return Some(i - 1);
        }
        i = i - 1;
    }
    None
}

/// The first queue entry whose track is playing.
pub fn first_playing_pos(index: &Vec<Track>, queue: &Vec<QueueItem>) -> (r: Option<usize>)
    ensures
        match r {
            Some(f) => is_first_playing(index@, queue@, f as int),
            None => !has_playing(index@, queue@),
        },
{
    let mut f: usize = 0;
    while f < queue.len()
        invariant
            f <= queue@.len(),
            forall|j: int| 0 <= j < f ==> !queued_is_playing(index@, #[trigger] queue@[j]),
        decreases queue@.len() - f,
    {
        let id = queue[f].media_id;
        match find_last_track_pos(index, id) {
            Some(p) => {
                if index[p].playing {
                    return Some(f);
                }
            },
            None => {},
        }
        f = f + 1;
    }
    None
}

/// The queue operations the player runs on its state.
pub trait Queue: Sized {
    /// `after` is `self` with the id queued at the end.
    spec fn spec_added(&self, media_id: i32, after: &Self) -> bool;

    /// `after` is `self` with the first queue entry of the id taken out (if any).
    spec fn spec_removed(&self, id: i32, after: &Self) -> bool;

    /// Moving on from the playing entry finds the next entry's track.
    spec fn spec_can_progress(&self) -> bool;

    /// `after` and `out` are what moving on from the playing entry gives.
    spec fn spec_progressed(&self, after: &Self, out: Seq<QueueItem>) -> bool;

    /// Moving the playing position by `offset` stays within `usize`.
    spec fn spec_can_move(&self, offset: i32) -> bool;

    /// `after` and `r` are what moving the playing position by `offset` gives.
    spec fn spec_moved(&self, offset: i32, after: &Self, r: Option<(usize, usize)>) -> bool;

    /// `after` holds the queue entries of `self` in the order some valid picks give
    /// (see [`fisher_yates`]).
    spec fn spec_shuffled(&self, after: &Self) -> bool;

    /// Queues a track at the end.
    fn add_to_queue(&mut self, media: &Track)
        ensures
            old(self).spec_added(media.id, final(self)),
    ;

    /// Takes the first queue entry of the id out.
    fn remove_from_queue(&mut self, id: i32)
        ensures
            old(self).spec_removed(id, final(self)),
    ;

    /// Moves playback on from the first queue entry whose track is playing to the
    /// next entry, and gives the queue from the playing entry on.
    fn progress_queue(&mut self) -> (r: Vec<QueueItem>)
        requires
            old(self).spec_can_progress(),
        ensures
            old(self).spec_progressed(final(self), r@),
    ;

    /// Moves the playing position of the queue by `offset`.
    fn update_playing_audio_in_queue(&mut self, offset: i32) -> (r: Option<(usize, usize)>)
        requires
            old(self).spec_can_move(offset),
        ensures
            old(self).spec_moved(offset, final(self), r),
    ;

    /// Puts the queue in a random order.
    fn shuffle(&mut self)
        ensures
            old(self).spec_shuffled(final(self)),
    ;
}

impl State {
    /// Queues a track at the end (the [`Queue::add_to_queue`] operation, callable
    /// beside the inherent `add_to_queue`).
    pub fn add_to_queue_item(&mut self, media: &Track)
        ensures
            old(self).spec_added(media.id, final(self)),
    {
        Queue::add_to_queue(self, media);
    }
}

/// The entries with the ones at `i` and `j` exchanged.
pub open spec fn swapped(s: Seq<QueueItem>, i: int, j: int) -> Seq<QueueItem> {
    s.update(i, s[j]).update(j, s[i])
}

/// Picks that fit a queue of `n` entries: one for each position from the last down
/// to the second, the `k`-th at most `n - 1 - k` (the position it is swapped with).
pub open spec fn valid_picks(picks: Seq<usize>, n: nat) -> bool {
    &&& picks.len() == (if n == 0 {
        0
    } else {
        n - 1
    })
    &&& forall|k: int| 0 <= k < picks.len() ==> #[trigger] picks[k] + k <= n - 1
}

/// The entries after the first `k` steps of the shuffle: step `m` exchanges the entry
/// at position `len - 1 - m` with the one at `picks[m]`.
pub open spec fn shuffle_steps(s: Seq<QueueItem>, picks: Seq<usize>, k: nat) -> Seq<QueueItem>
    decreases k,
{
    if k == 0 {
        s
    } else {
        swapped(shuffle_steps(s, picks, (k - 1) as nat), s.len() - k, picks[k - 1] as int)
    }
}

/// The entries after all the steps the picks call for (a Fisher-Yates shuffle run
/// with these picks as its random draws).
pub open spec fn fisher_yates(s: Seq<QueueItem>, picks: Seq<usize>) -> Seq<QueueItem> {
    shuffle_steps(s, picks, picks.len())
}

impl State {
    /// Reorders the queue by the given picks (see [`fisher_yates`]): from the last
    /// position down to the second, each entry is exchanged with the one at its pick.
    pub fn shuffle_with(&mut self, picks: &Vec<usize>)
        requires
            valid_picks(picks@, old(self).queue@.len()),
        ensures
            final(self).queue@ == fisher_yates(old(self).queue@, picks@),
            final(self).queue@.len() == old(self).queue@.len(),
            final(self).queue@.to_multiset() == old(self).queue@.to_multiset(),
            final(self).index == old(self).index,
            final(self).timeline == old(self).timeline,
            same_apart_from_queue_and_index(old(self), final(self)),
    {
        let n = self.queue.len();
        let mut k: usize = 0;
        while k < picks.len()
            invariant
                k <= picks@.len(),
                n == self.queue@.len(),
                n == old(self).queue@.len(),
                valid_picks(picks@, n as nat),
                self.queue@ == shuffle_steps(old(self).queue@, picks@, k as nat),
                self.queue@.to_multiset() == old(self).queue@.to_multiset(),
                self.index == old(self).index,
                self.timeline == old(self).timeline,
                same_apart_from_queue_and_index(old(self), self),
            decreases picks@.len() - k,
        {
            assert(picks@[k as int] + k <= n - 1);
            let i = n - 1 - k;
            let j = picks[k];
            let a = self.queue[i];
            let b = self.queue[j];
            let ghost s0 = self.queue@;
            self.queue.set(i, b);
            self.queue.set(j, a);
            proof {
                broadcast use vstd::seq_lib::group_to_multiset_ensures;
                broadcast use vstd::multiset::group_multiset_axioms;
                let s1 = s0.update(i as int, b);
                assert(s1.to_multiset() == s0.to_multiset().insert(b).remove(a));
                assert(s1[j as int] == b);
                assert(self.queue@ == s1.update(j as int, a));
                assert(self.queue@.to_multiset() == s1.to_multiset().insert(a).remove(s1[j as int]));
                assert(self.queue@.to_multiset() =~= s0.to_multiset());
                assert(self.queue@ == swapped(s0, i as int, j as int));
            }
            k = k + 1;
        }
    }
}

impl Queue for State {
    open spec fn spec_added(&self, media_id: i32, after: &Self) -> bool {
        &&& after.queue@ == self.queue@.push(QueueItem { media_id })
        &&& after.index == self.index
        &&& after.timeline == self.timeline
        &&& same_apart_from_queue_and_index(self, after)
    }

    open spec fn spec_removed(&self, id: i32, after: &Self) -> bool {
        &&& (forall|q: int|
            0 <= q < self.queue@.len() && self.queue@[q].media_id == id && (forall|j: int|
                0 <= j < q ==> #[trigger] self.queue@[j].media_id != id) ==> after.queue@
                == self.queue@.remove(q))
        &&& ((forall|j: int| 0 <= j < self.queue@.len() ==> #[trigger] self.queue@[j].media_id != id)
            ==> after.queue@ == self.queue@)
        &&& after.index == self.index
        &&& after.timeline == self.timeline
        &&& same_apart_from_queue_and_index(self, after)
    }

    open spec fn spec_can_progress(&self) -> bool {
        forall|f: int|
            is_first_playing(self.index@, self.queue@, f) && f + 1 < self.queue@.len() ==> has_track(
                self.index@,
                #[trigger] self.queue@[f + 1].media_id,
            )
    }

    open spec fn spec_progressed(&self, after: &Self, out: Seq<QueueItem>) -> bool {
        &&& (forall|f: int|
            #[trigger] is_first_playing(self.index@, self.queue@, f) ==> {
                let p1 = first_track(self.index@, self.queue@[f].media_id);
                let i1 = self.index@.update(p1, with_playing(self.index@[p1], false));
                let p2 = first_track(i1, self.queue@[f + 1].media_id);
                let i2 = i1.update(p2, with_playing(i1[p2], true));
                &&& after.index@ == (if f + 1 < self.queue@.len() {
                    i2
                } else {
                    self.index@
                })
                &&& out == self.queue@.subrange(f, self.queue@.len() as int)
            })
        &&& (!has_playing(self.index@, self.queue@) ==> after.index@ == self.index@ && out.len() == 0)
        &&& after.queue == self.queue
        &&& after.timeline == self.timeline
        &&& same_apart_from_queue_and_index(self, after)
    }

    open spec fn spec_can_move(&self, offset: i32) -> bool {
        &&& self.timeline.queue_index is Some
        &&& self.timeline.queue_index->0 + (offset as usize) <= usize::MAX
    }

    open spec fn spec_moved(&self, offset: i32, after: &Self, r: Option<(usize, usize)>) -> bool {
        let q = self.timeline.queue_index->0;
        let n = (q + (offset as usize)) as usize;
        let i1 = playing_set(self.index@, self.queue@, q as int, false);
        let i2 = playing_set(i1, self.queue@, n as int, true);
        &&& after.index@ == i2
        &&& after.timeline == timeline_set(i1, self.queue@, self.timeline, n, true)
        &&& r == (if queue_track_pos(i1, self.queue@, n as int) >= 0 {
            Some((q, n))
        } else {
            None
        })
        &&& after.queue == self.queue
        &&& same_apart_from_queue_and_index(self, after)
    }

    open spec fn spec_shuffled(&self, after: &Self) -> bool {
        &&& after.queue@.len() == self.queue@.len()
        &&& after.queue@.to_multiset() == self.queue@.to_multiset()
        &&& exists|picks: Seq<usize>|
            valid_picks(picks, self.queue@.len()) && after.queue@ == #[trigger] fisher_yates(self.queue@, picks)
        &&& after.index == self.index
        &&& after.timeline == self.timeline
        &&& same_apart_from_queue_and_index(self, after)
    }

    fn add_to_queue(&mut self, media: &Track) {
        self.queue.push(QueueItem { media_id: media.id });
    }

    fn remove_from_queue(&mut self, id: i32) {
        let mut i: usize = 0;
        while i < self.queue.len()
            invariant
                i <= self.queue@.len(),
                self.queue == old(self).queue,
                self.index == old(self).index,
                self.timeline == old(self).timeline,
                same_apart_from_queue_and_index(old(self), self),
                forall|j: int| 0 <= j < i ==> #[trigger] self.queue@[j].media_id != id,
            decreases self.queue@.len() - i,
        {
            if self.queue[i].media_id == id {
                self.queue.remove(i);
                proof {
                    assert forall|q: int|
                        0 <= q < old(self).queue@.len() && old(self).queue@[q].media_id == id && (forall|
                            j: int,
                        | 0 <= j < q ==> #[trigger] old(self).queue@[j].media_id != id) implies self.queue@
                        == old(self).queue@.remove(q) by {
                        if q < i {
                            assert(old(self).queue@[q].media_id != id);
                        } else if i < q {
                            assert(old(self).queue@[i as int].media_id != id);
                        }
                    }
                }
                return;
            }
            i = i + 1;
        }
    }

    fn progress_queue(&mut self) -> (r: Vec<QueueItem>) {
        let len = self.queue.len();
        let f = match first_playing_pos(&self.index, &self.queue) {
            Some(f) => f,
            None => {
                proof {
                    assert forall|g: int| #[trigger] is_first_playing(self.index@, self.queue@, g) implies false by {
                        assert(queued_is_playing(self.index@, self.queue@[g]));
                    }
                }
                return Vec::new();
            },
        };
        proof {
            lemma_track_positions(self.index@, self.queue@[f as int].media_id);
        }
        assert(is_first_playing(self.index@, self.queue@, f as int));
        proof {
            assert forall|g: int| #[trigger] is_first_playing(self.index@, self.queue@, g) implies g == f by {
                if g < f {
                    assert(!queued_is_playing(self.index@, self.queue@[g]));
                } else if f < g {
                    assert(!queued_is_playing(self.index@, self.queue@[f as int]));
                }
            }
        }
        if f + 1 < len {
            let cur = self.queue[f].media_id;
            let nxt = self.queue[f + 1].media_id;
            match find_track_pos(&self.index, cur) {
                Some(p1) => {
                    set_track_playing(&mut self.index, p1, false);
                },
                None => {},
            }
            proof {
                lemma_track_positions(self.index@, nxt);
                lemma_track_positions(old(self).index@, nxt);
                assert forall|j: int| 0 <= j < self.index@.len() implies #[trigger] self.index@[j].id
                    == old(self).index@[j].id by {}
                assert(has_track(self.index@, nxt)) by {
                    let w = choose|p: int| 0 <= p < old(self).index@.len() && #[trigger] old(self).index@[p].id == nxt;
                    assert(self.index@[w].id == nxt);
                }
            }
            match find_track_pos(&self.index, nxt) {
                Some(p2) => {
                    set_track_playing(&mut self.index, p2, true);
                },
                None => {},
            }
        }
        let mut out: Vec<QueueItem> = Vec::new();
        let mut k: usize = f;
        while k < len
            invariant
                f <= k <= len,
                len == self.queue@.len(),
                out@ == self.queue@.subrange(f as int, k as int),
            decreases len - k,
        {
            out.push(self.queue[k]);
            k = k + 1;
            assert(out@ =~= self.queue@.subrange(f as int, k as int));
        }
        out
    }

    fn update_playing_audio_in_queue(&mut self, offset: i32) -> (r: Option<(usize, usize)>) {
        let index = match self.timeline.queue_index {
            Some(q) => q,
            None => {
                return None;
            },
        };
        let next_index = index + offset as usize;
        let ghost s0 = *old(self);
        proof {
            if index < s0.queue@.len() {
                lemma_track_positions(s0.index@, s0.queue@[index as int].media_id);
            }
        }
        let _ = self.set_index_playing(index, false);
        let ghost i1 = playing_set(s0.index@, s0.queue@, index as int, false);
        assert(self.index@ == i1);
        assert(self.timeline == s0.timeline);
        proof {
            if next_index < s0.queue@.len() {
                lemma_track_positions(i1, s0.queue@[next_index as int].media_id);
            }
        }
        let done = self.set_index_playing(next_index, true);
        assert(self.index@ == playing_set(i1, s0.queue@, next_index as int, true));
        assert(self.timeline == timeline_set(i1, s0.queue@, s0.timeline, next_index, true));
        if done.is_some() {
            return Some((index, next_index));
        }
        None
    }

    fn shuffle(&mut self) {
        let n = self.queue.len();
        let mut picks: Vec<usize> = Vec::new();
        if n >= 2 {
            let mut k: usize = 0;
            while k < n - 1
                invariant
                    n >= 2,
                    k <= n - 1,
                    picks@.len() == k,
                    forall|q: int| 0 <= q < k ==> #[trigger] picks@[q] + q <= n - 1,
                decreases n - 1 - k,
            {
                let j = random_index_inclusive(n - 1 - k);
                picks.push(j);
                k = k + 1;
            }
        }
        self.shuffle_with(&picks);
    }
}

/// Taking an id out of the queue right after queueing it, when it was not queued
/// before, gives back the queue and the rest of the state as they were.
pub proof fn law_remove_undoes_add(before: State, added: State, removed: State, id: i32)
    requires
        forall|j: int| 0 <= j < before.queue@.len() ==> #[trigger] before.queue@[j].media_id != id,
        before.spec_added(id, &added),
        added.spec_removed(id, &removed),
    ensures
        removed.queue@ == before.queue@,
        removed.index == before.index,
        removed.timeline == before.timeline,
        same_apart_from_queue_and_index(&before, &removed),
{
    let q = before.queue@.len() as int;
    assert(added.queue@[q].media_id == id);
    assert forall|j: int| 0 <= j < q implies #[trigger] added.queue@[j].media_id != id by {
        assert(added.queue@[j] == before.queue@[j]);
    }
    assert(added.queue@.remove(q) =~= before.queue@);
}

/// Progress with nothing playing does nothing: when no track of the index whose id is
/// queued is playing, moving on leaves every track of the index as it was and gives
/// no entries.
pub proof fn law_progress_without_playing_changes_nothing(before: State, after: State, out: Seq<QueueItem>)
    requires
        forall|p: int, j: int|
            0 <= p < before.index@.len() && 0 <= j < before.queue@.len() && #[trigger] before.index@[p].id
                == #[trigger] before.queue@[j].media_id ==> !before.index@[p].playing,
        before.spec_progressed(&after, out),
    ensures
        after.index@ == before.index@,
        out.len() == 0,
        after.queue == before.queue,
{
    assert forall|f: int| 0 <= f < before.queue@.len() implies !queued_is_playing(
        before.index@,
        #[trigger] before.queue@[f],
    ) by {
        let id = before.queue@[f].media_id;
        if has_track(before.index@, id) {
            lemma_track_positions(before.index@, id);
            let l = last_track(before.index@, id);
            assert(before.index@[l].id == before.queue@[f].media_id);
        }
    }
}

} // verus!
