//! The controller object the Qt front end calls: the state and the player together.
use crate::data_types::track::Track;
use crate::database_types::queue_item::QueueItem;
use crate::media_player::{switches_apart, Controls, MediaPlayer};
use crate::queue::Queue;
use crate::state::{find_track_pos, first_track, has_track, is_first_track, with_playing, State};
use crate::text::decimal;
use crate::ui_events::audio_control_events::{self, HandleAction};
use vstd::prelude::*;

verus! {

/// The state and the player the front end drives.
pub struct QMediaController {
    pub state: State,
    pub player: MediaPlayer,
}

/// Position `q` holds the first queue entry of the id.
pub open spec fn is_first_queued(queue: Seq<QueueItem>, id: i32, q: int) -> bool {
    &&& 0 <= q < queue.len()
    &&& queue[q].media_id == id
    &&& forall|j: int| 0 <= j < q ==> #[trigger] queue[j].media_id != id
}

/// The first queue position of the id.
pub fn first_queue_pos(queue: &Vec<QueueItem>, id: i32) -> (r: Option<usize>)
    ensures
        match r {
            Some(q) => is_first_queued(queue@, id, q as int),
            None => forall|j: int| 0 <= j < queue@.len() ==> #[trigger] queue@[j].media_id != id,
        },
{
    let mut q: usize = 0;
    while q < queue.len()
        invariant
            q <= queue@.len(),
            forall|j: int| 0 <= j < q ==> #[trigger] queue@[j].media_id != id,
        decreases queue@.len() - q,
    {
        if queue[q].media_id == id {
            return Some(q);
        }
        q = q + 1;
    }
    None
}

impl QMediaController {
    /// The start event of a track by id: every `playing` flag of the index is cleared
    /// first; then, when the index holds a track with the id, the player plays the
    /// first such track (see [`MediaPlayer::play`]), the timeline records its index
    /// position and, when the id is queued, its first queue position. Starting a track
    /// does not queue it. Answers, when such a track exists, whether the caller stops a
    /// previous sound handle; `None` when there is none, with only the flags cleared.
    pub fn handle_media_start(&mut self, id: i32) -> (r: Option<bool>)
        ensures
            switches_apart(old(self).player.controls) ==> switches_apart(final(self).player.controls),
            r is Some <==> has_track(old(self).state.index@, id),
            final(self).state.index@.len() == old(self).state.index@.len(),
            final(self).state.queue == old(self).state.queue,
            final(self).state.trash_queue == old(self).state.trash_queue,
            final(self).state.playlists == old(self).state.playlists,
            final(self).state.volume == old(self).state.volume,
            final(self).state.search_result == old(self).state.search_result,
            r is None ==> {
                &&& (forall|i: int|
                    0 <= i < old(self).state.index@.len() ==> #[trigger] final(self).state.index@[i]
                        == with_playing(old(self).state.index@[i], false))
                &&& final(self).state.timeline == old(self).state.timeline
                &&& final(self).player == old(self).player
            },
            r is Some ==> {
                let p = first_track(old(self).state.index@, id);
                &&& r == Some(old(self).player.has_handle)
                &&& (forall|i: int|
                    0 <= i < old(self).state.index@.len() ==> #[trigger] final(self).state.index@[i]
                        == with_playing(old(self).state.index@[i], i == p))
                &&& final(self).player.currently == Some(with_playing(old(self).state.index@[p], true))
                &&& final(self).player.controls == (Controls { pause: false, ..old(self).player.controls })
                &&& final(self).player.has_handle == old(self).player.has_handle
                &&& final(self).player.generation == old(self).player.generation
                &&& final(self).state.timeline.media_index == Some(p as usize)
                &&& (forall|q: int|
                    is_first_queued(old(self).state.queue@, id, q) ==> final(self).state.timeline.queue_index
                        == Some(q as usize))
                &&& ((forall|j: int|
                    0 <= j < old(self).state.queue@.len() ==> #[trigger] old(self).state.queue@[j].media_id
                        != id) ==> final(self).state.timeline.queue_index == old(self).state.timeline.queue_index)
                &&& final(self).state.timeline.current == old(self).state.timeline.current
                &&& final(self).state.timeline.length == old(self).state.timeline.length
            },
    {
        let found = find_track_pos(&self.state.index, id);
        let ghost old_index = self.state.index@;
        self.state.index_playing_reset();
        let index = match found {
            Some(p) => p,
            None => {
                return None;
            },
        };
        let ghost reset_index = self.state.index@;
        let stop_previous = self.player.play(&mut self.state, index);
        proof {
            assert forall|i: int| 0 <= i < old_index.len() implies #[trigger] self.state.index@[i]
                == with_playing(old_index[i], i == index) by {
                assert(reset_index[i] == with_playing(old_index[i], false));
            }
            assert(self.player.currently == Some(with_playing(old_index[index as int], true)));
        }
        self.state.timeline.media_index = Some(index);
        match first_queue_pos(&self.state.queue, id) {
            Some(q) => {
                self.state.timeline.queue_index = Some(q);
                proof {
                    assert forall|q2: int| is_first_queued(old(self).state.queue@, id, q2) implies q2 == q by {
                        if q2 < q {
                            assert(self.state.queue@[q2].media_id != id);
                        } else if q < q2 {
                            assert(old(self).state.queue@[q as int].media_id != id);
                        }
                    }
                }
            },
            None => {},
        }
        Some(stop_previous)
    }

    /// A move of the playing position of the queue by `index` (see
    /// [`Queue::update_playing_audio_in_queue`]); when the move lands on a queued track
    /// the index holds, the player takes the media-change event for the move (see
    /// [`audio_control_events::media_changed`]) and the track it gives is returned for
    /// the caller to start. The queue must have a playing position that the move keeps
    /// within `usize`.
    pub fn handle_media_change(&mut self, index: i32) -> (r: Option<Track>)
        requires
            old(self).state.spec_can_move(index),
        ensures
            switches_apart(old(self).player.controls) ==> switches_apart(final(self).player.controls),
            exists|mid: State, m: Option<(usize, usize)>|
                #[trigger] old(self).state.spec_moved(index, &mid, m) && (if m is Some && has_track(
                    mid.index@,
                    mid.queue@[(m->0).1 as int].media_id,
                ) {
                    audio_control_events::media_changed(
                        old(self).player,
                        mid,
                        m->0,
                        final(self).player,
                        final(self).state,
                        r,
                    )
                } else {
                    final(self).state == mid && final(self).player == old(self).player && r is None
                }),
    {
        let moved = Queue::update_playing_audio_in_queue(&mut self.state, index);
        let ghost mid = self.state;
        assert(old(self).state.spec_moved(index, &mid, moved));
        if let Some((previous_index, target_index)) = moved {
            if self.state.queue.len() > 0 {
                let id = self.state.queue[target_index].media_id;
                if self.state.find_source_by_id(id).is_some() {
                    return audio_control_events::handle_media_change(
                        &mut self.player,
                        &mut self.state,
                        (previous_index, target_index),
                    );
                }
            }
        }
        None
    }

    /// Play/pause (see [`audio_control_events::handle_media_toggle`]).
    pub fn handle_media_toggle(&mut self) -> (r: HandleAction)
        ensures
            switches_apart(old(self).player.controls) ==> switches_apart(final(self).player.controls),
            final(self).state == old(self).state,
            final(self).player.controls == audio_control_events::toggled(
                old(self).player.controls,
                old(self).player.has_handle,
            ),
            r == (if !old(self).player.has_handle {
                HandleAction::Nothing
            } else if old(self).player.controls.pause {
                HandleAction::Resume
            } else {
                HandleAction::Pause
            }),
            final(self).player.generation == old(self).player.generation,
            final(self).player.currently == old(self).player.currently,
            final(self).player.has_handle == old(self).player.has_handle,
    {
        audio_control_events::handle_media_toggle(&mut self.player)
    }

    /// The controller's volume change: only the player records the volume (see
    /// [`MediaPlayer::set_volume`]); the state stays as it is. Answers whether the
    /// caller sets the volume of the sound handle.
    pub fn handle_media_change_volume(&mut self, volume: i32) -> (r: bool)
        ensures
            switches_apart(old(self).player.controls) ==> switches_apart(final(self).player.controls),
            r == old(self).player.has_handle,
            final(self).player.controls == (Controls { volume: volume, ..old(self).player.controls }),
            final(self).player.generation == old(self).player.generation,
            final(self).player.currently == old(self).player.currently,
            final(self).player.has_handle == old(self).player.has_handle,
            final(self).state == old(self).state,
    {
        self.player.set_volume(volume)
    }

    /// Mix button: shuffles the queue and switches random picking over.
    pub fn handle_media_mix(&mut self)
        ensures
            switches_apart(final(self).player.controls),
            old(self).state.spec_shuffled(&final(self).state),
            final(self).player.controls == audio_control_events::mix_pressed(old(self).player.controls),
            final(self).player.generation == old(self).player.generation,
            final(self).player.currently == old(self).player.currently,
            final(self).player.has_handle == old(self).player.has_handle,
    {
        self.state.shuffle();
        audio_control_events::handle_media_mix(&mut self.player);
    }

    /// Adds a track to a playlist (see [`State::add_to_playlist`]); `now` is the
    /// current time in seconds since the epoch, when the clock gives one.
    pub fn handle_add_to_playlist(&mut self, playlist_id: i32, media_id: i32, now: Option<u64>) -> (r: bool)
        ensures
            switches_apart(old(self).player.controls) ==> switches_apart(final(self).player.controls),
            r == (exists|p: int| 0 <= p < old(self).state.playlists@.len() && #[trigger] old(self).state.playlists@[p].id == playlist_id),
            final(self).state.playlists@.len() == old(self).state.playlists@.len(),
            forall|p: int|
                crate::state::is_first_playlist(old(self).state.playlists@, playlist_id, p) ==> (match now {
                    Some(secs) => crate::state::entry_appended(
                        old(self).state.playlists@[p],
                        final(self).state.playlists@[p],
                        media_id,
                        decimal(secs as nat),
                    ),
                    None => final(self).state.playlists@[p] == old(self).state.playlists@[p],
                }) && forall|j: int|
                    0 <= j < old(self).state.playlists@.len() && j != p ==> #[trigger] final(self).state.playlists@[j]
                        == old(self).state.playlists@[j],
            !r ==> final(self).state.playlists@ == old(self).state.playlists@,
            final(self).state.index == old(self).state.index,
            final(self).state.queue == old(self).state.queue,
            final(self).state.trash_queue == old(self).state.trash_queue,
            final(self).state.timeline == old(self).state.timeline,
            final(self).state.volume == old(self).state.volume,
            final(self).state.search_result == old(self).state.search_result,
            final(self).player == old(self).player,
    {
        self.state.add_to_playlist(playlist_id, media_id, now)
    }
}

} // verus!
