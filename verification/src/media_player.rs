//! The player's control state. The sound itself (a streaming handle of the audio
//! engine) lives with the caller; the functions here decide, and tell the caller
//! what to do with that handle.
use crate::data_types::track::Track;
use crate::database_types::queue_item::QueueItem;
use crate::state::{
    find_track_pos, first_track, has_track, is_first_track, set_track_playing, with_playing, State,
};
use vstd::prelude::*;

verus! {

/// The switches of the player: queue looping, random picking, paused, stopped, and
/// the volume in percent.
#[derive(Clone, Copy, PartialEq, Eq, Debug)]
pub struct Controls {
    pub loop_pick: bool,
    pub rng_pick: bool,
    pub pause: bool,
    pub stopped: bool,
    pub volume: i32,
}

/// Looping and random picking are not both on. A new player has them apart, the
/// two setters leave them apart, and every other operation keeps them as they were,
/// so no sequence of operations turns both on.
pub open spec fn switches_apart(c: Controls) -> bool {
    !(c.loop_pick && c.rng_pick)
}

/// The player: a generation stamp that tells timers apart, the track it plays, its
/// switches, and whether a sound handle exists.
pub struct MediaPlayer {
    pub generation: u64,
    pub currently: Option<Track>,
    pub controls: Controls,
    pub has_handle: bool,
}

impl MediaPlayer {
    /// A player with nothing loaded: all switches off, volume 1.
    pub fn new(generation: u64) -> (r: Self)
        ensures
            switches_apart(r.controls),
            r.generation == generation,
            r.currently is None,
            r.controls == (Controls {
                loop_pick: false,
                rng_pick: false,
                pause: false,
                stopped: false,
                volume: 1,
            }),
            !r.has_handle,
    {
        MediaPlayer {
            generation,
            currently: None,
            controls: Controls {
                loop_pick: false,
                rng_pick: false,
                pause: false,
                stopped: false,
                volume: 1,
            },
            has_handle: false,
        }
    }

    /// Starts playing the index track at `position`: clears every `playing` flag of the
    /// index, marks that track playing, makes it the current track and lifts the pause.
    /// Answers whether a previous sound handle exists, which the caller stops before
    /// it loads the new sound.
    pub fn play(&mut self, state: &mut State, position: usize) -> (stop_previous: bool)
        requires
            position < old(state).index@.len(),
        ensures
            switches_apart(old(self).controls) ==> switches_apart(final(self).controls),
            stop_previous == old(self).has_handle,
            final(state).index@.len() == old(state).index@.len(),
            forall|i: int|
                0 <= i < old(state).index@.len() ==> #[trigger] final(state).index@[i] == with_playing(
                    old(state).index@[i],
                    i == position,
                ),
            final(self).currently == Some(with_playing(old(state).index@[position as int], true)),
            final(self).controls == (Controls { pause: false, ..old(self).controls }),
            final(self).generation == old(self).generation,
            final(self).has_handle == old(self).has_handle,
            final(state).queue == old(state).queue,
            final(state).trash_queue == old(state).trash_queue,
            final(state).timeline == old(state).timeline,
            final(state).playlists == old(state).playlists,
            final(state).volume == old(state).volume,
            final(state).search_result == old(state).search_result,
    {
        state.index_playing_reset();
        self.controls.pause = false;
        let stop_previous = self.has_handle;
        set_track_playing(&mut state.index, position, true);
        self.currently = Some(state.index[position].clone());
        proof {
            assert forall|i: int| 0 <= i < old(state).index@.len() implies #[trigger] state.index@[i]
                == with_playing(old(state).index@[i], i == position) by {}
        }
        stop_previous
    }

    /// Records whether a sound handle now exists (after loading a sound, or after
    /// loading failed).
    pub fn set_handle(&mut self, present: bool)
        ensures
            switches_apart(old(self).controls) ==> switches_apart(final(self).controls),
            final(self).has_handle == present,
            final(self).generation == old(self).generation,
            final(self).currently == old(self).currently,
            final(self).controls == old(self).controls,
    {
        self.has_handle = present;
    }

    /// Lifts the pause when a sound handle exists; answers whether the caller resumes
    /// the handle.
    pub fn unpause(&mut self) -> (resume: bool)
        ensures
            switches_apart(old(self).controls) ==> switches_apart(final(self).controls),
            resume == old(self).has_handle,
            final(self).controls == (if old(self).has_handle {
                Controls { pause: false, ..old(self).controls }
            } else {
                old(self).controls
            }),
            final(self).generation == old(self).generation,
            final(self).currently == old(self).currently,
            final(self).has_handle == old(self).has_handle,
    {
        if self.has_handle {
            self.controls.pause = false;
            return true;
        }
        false
    }

    /// Pauses when a sound handle exists; answers whether the caller pauses the handle.
    pub fn pause(&mut self) -> (pause: bool)
        ensures
            switches_apart(old(self).controls) ==> switches_apart(final(self).controls),
            pause == old(self).has_handle,
            final(self).controls == (if old(self).has_handle {
                Controls { pause: true, ..old(self).controls }
            } else {
                old(self).controls
            }),
            final(self).generation == old(self).generation,
            final(self).currently == old(self).currently,
            final(self).has_handle == old(self).has_handle,
    {
        if self.has_handle {
            self.controls.pause = true;
            return true;
        }
        false
    }

    /// Whether the player is paused.
    pub fn is_paused(&self) -> (r: bool)
        ensures
            r == self.controls.pause,
    {
        self.controls.pause
    }

    /// Whether the queue loops.
    pub fn is_looped(&self) -> (r: bool)
        ensures
            r == self.controls.loop_pick,
    {
        self.controls.loop_pick
    }

    /// Whether tracks are picked at random.
    pub fn is_rnged(&self) -> (r: bool)
        ensures
            r == self.controls.rng_pick,
    {
        self.controls.rng_pick
    }

    /// Sets queue looping, which switches random picking off.
    pub fn set_queue_loop(&mut self, b: bool)
        ensures
            switches_apart(final(self).controls),
            final(self).controls == (Controls { loop_pick: b, rng_pick: false, ..old(self).controls }),
            final(self).generation == old(self).generation,
            final(self).currently == old(self).currently,
            final(self).has_handle == old(self).has_handle,
    {
        self.controls.loop_pick = b;
        self.controls.rng_pick = false;
    }

    /// Sets random picking, which switches queue looping off.
    pub fn set_queue_rng(&mut self, b: bool)
        ensures
            switches_apart(final(self).controls),
            final(self).controls == (Controls { rng_pick: b, loop_pick: false, ..old(self).controls }),
            final(self).generation == old(self).generation,
            final(self).currently == old(self).currently,
            final(self).has_handle == old(self).has_handle,
    {
        self.controls.rng_pick = b;
        self.controls.loop_pick = false;
    }

    /// Answers whether the caller stops the sound handle (one exists); the switches stay.
    pub fn stop(&self) -> (stop: bool)
        ensures
            stop == self.has_handle,
    {
        self.has_handle
    }

    /// Playing a given queue position is not done yet: nothing changes.
    pub fn play_specific_in_queue(&mut self, index: i32)
        ensures
            switches_apart(old(self).controls) ==> switches_apart(final(self).controls),
            final(self).generation == old(self).generation,
            final(self).currently == old(self).currently,
            final(self).controls == old(self).controls,
            final(self).has_handle == old(self).has_handle,
    {
    }

    /// Forgets the current track and the sound handle; the switches stay.
    pub fn clear(&mut self)
        ensures
            switches_apart(old(self).controls) ==> switches_apart(final(self).controls),
            final(self).currently is None,
            !final(self).has_handle,
            final(self).controls == old(self).controls,
            final(self).generation == old(self).generation,
    {
        self.currently = None;
        self.has_handle = false;
    }

    /// The volume in percent.
    pub fn volume(&self) -> (r: i32)
        ensures
            r == self.controls.volume,
    {
        self.controls.volume
    }

    /// Records the volume; answers whether the caller sets the volume of the sound
    /// handle (one exists).
    pub fn set_volume(&mut self, value: i32) -> (apply: bool)
        ensures
            switches_apart(old(self).controls) ==> switches_apart(final(self).controls),
            apply == old(self).has_handle,
            final(self).controls == (Controls { volume: value, ..old(self).controls }),
            final(self).generation == old(self).generation,
            final(self).currently == old(self).currently,
            final(self).has_handle == old(self).has_handle,
    {
        self.controls.volume = value;
        self.has_handle
    }

    /// With more than one queued entry, takes the head of the queue off and gives the
    /// first index track with its id (none when the index lacks it); with one or
    /// none, changes nothing and gives none.
    pub fn next(&mut self, state: &mut State) -> (r: Option<Track>)
        ensures
            switches_apart(old(self).controls) ==> switches_apart(final(self).controls),
            old(state).queue@.len() > 1 ==> {
                let id = old(state).queue@[0].media_id;
                &&& final(state).queue@ == old(state).queue@.remove(0)
                &&& r == (if has_track(old(state).index@, id) {
                    Some(old(state).index@[first_track(old(state).index@, id)])
                } else {
                    None
                })
            },
            old(state).queue@.len() <= 1 ==> final(state).queue == old(state).queue && r is None,
            final(self).generation == old(self).generation,
            final(self).currently == old(self).currently,
            final(self).controls == old(self).controls,
            final(self).has_handle == old(self).has_handle,
            final(state).index == old(state).index,
            final(state).trash_queue == old(state).trash_queue,
            final(state).timeline == old(state).timeline,
            final(state).playlists == old(state).playlists,
            final(state).volume == old(state).volume,
            final(state).search_result == old(state).search_result,
    {
        if state.queue.len() > 1 {
            let item: QueueItem = state.queue.remove(0);
            match state.find_source_by_id(item.media_id) {
                Some((_, track)) => {
                    return Some(track);
                },
                None => {},
            }
        }
        None
    }

    /// With more than one entry in the list of played entries, gives the first index
    /// track with the id of its last entry (none when the index lacks it); otherwise none.
    pub fn previous(&self, state: &State) -> (r: Option<Track>)
        ensures
            state.trash_queue@.len() > 1 ==> {
                let id = state.trash_queue@.last().media_id;
                r == (if has_track(state.index@, id) {
                    Some(state.index@[first_track(state.index@, id)])
                } else {
                    None
                })
            },
            state.trash_queue@.len() <= 1 ==> r is None,
    {
        let n = state.trash_queue.len();
        if n > 1 {
            let item = state.trash_queue[n - 1];
            match state.find_source_by_id(item.media_id) {
                Some((_, track)) => {
                    return Some(track);
                },
                None => {},
            }
        }
        None
    }
}

} // verus!
