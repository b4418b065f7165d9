//! What the window's media controls do.
use crate::data_types::track::Track;
use crate::media_player::{switches_apart, Controls, MediaPlayer};
use crate::state::{first_track, has_track, State};
use vstd::prelude::*;

verus! {

/// What the caller does with the sound handle after a control event.
#[derive(Clone, Copy, PartialEq, Eq, Debug)]
pub enum HandleAction {
    Resume,
    Pause,
    Nothing,
}

/// The switches after play/pause: the pause flips when a sound handle exists.
pub open spec fn toggled(c: Controls, has_handle: bool) -> Controls {
    if has_handle {
        Controls { pause: !c.pause, ..c }
    } else {
        c
    }
}

/// The switches after the loop button: looping flips, random picking goes off.
pub open spec fn loop_pressed(c: Controls) -> Controls {
    Controls { loop_pick: !c.loop_pick, rng_pick: false, ..c }
}

/// The switches after the mix button: random picking flips, looping goes off.
pub open spec fn mix_pressed(c: Controls) -> Controls {
    Controls { rng_pick: !c.rng_pick, loop_pick: false, ..c }
}

/// Play/pause: a paused player resumes, a playing one pauses (each only when a
/// sound handle exists).
pub fn handle_media_toggle(media_player: &mut MediaPlayer) -> (r: HandleAction)
    ensures
        switches_apart(old(media_player).controls) ==> switches_apart(final(media_player).controls),
        old(media_player).controls.pause ==> r == (if old(media_player).has_handle {
            HandleAction::Resume
        } else {
            HandleAction::Nothing
        }),
        !old(media_player).controls.pause ==> r == (if old(media_player).has_handle {
            HandleAction::Pause
        } else {
            HandleAction::Nothing
        }),
        final(media_player).controls == toggled(old(media_player).controls, old(media_player).has_handle),
        final(media_player).generation == old(media_player).generation,
        final(media_player).currently == old(media_player).currently,
        final(media_player).has_handle == old(media_player).has_handle,
{
    if media_player.is_paused() {
        if media_player.unpause() {
            HandleAction::Resume
        } else {
            HandleAction::Nothing
        }
    } else {
        if media_player.pause() {
            HandleAction::Pause
        } else {
            HandleAction::Nothing
        }
    }
}

/// Pause: a playing player pauses (when a sound handle exists); answers whether
/// the caller pauses the handle.
pub fn handle_media_pause(media_player: &mut MediaPlayer) -> (r: bool)
    ensures
        switches_apart(old(media_player).controls) ==> switches_apart(final(media_player).controls),
        r == (!old(media_player).controls.pause && old(media_player).has_handle),
        final(media_player).controls == (if r {
            Controls { pause: true, ..old(media_player).controls }
        } else {
            old(media_player).controls
        }),
        final(media_player).generation == old(media_player).generation,
        final(media_player).currently == old(media_player).currently,
        final(media_player).has_handle == old(media_player).has_handle,
{
    if !media_player.is_paused() {
        return media_player.pause();
    }
    false
}

/// `(p1, s1, r)` is what a move in the queue from `indices.0` to `indices.1` makes of
/// the player `p0` and the state `s0`: when it goes back by one or stays
/// (`indices.0 - indices.1`, floored at zero, is 1 or 0) and more than one entry is
/// queued, the head of the queue is taken off and the first index track with its id
/// (if any) is given; otherwise nothing changes. The player never changes.
pub open spec fn media_changed(
    p0: MediaPlayer,
    s0: State,
    indices: (usize, usize),
    p1: MediaPlayer,
    s1: State,
    r: Option<Track>,
) -> bool {
    let (previous_index, current_index) = indices;
    let difference = if previous_index >= current_index {
        previous_index - current_index
    } else {
        0
    };
    let moves = difference == 1 || difference == 0;
    &&& (moves && s0.queue@.len() > 1) ==> {
        let id = s0.queue@[0].media_id;
        &&& s1.queue@ == s0.queue@.remove(0)
        &&& r == (if has_track(s0.index@, id) {
            Some(s0.index@[first_track(s0.index@, id)])
        } else {
            None
        })
    }
    &&& (!moves || s0.queue@.len() <= 1) ==> s1.queue == s0.queue && r is None
    &&& s1.index == s0.index
    &&& s1.trash_queue == s0.trash_queue
    &&& s1.timeline == s0.timeline
    &&& s1.playlists == s0.playlists
    &&& s1.volume == s0.volume
    &&& s1.search_result == s0.search_result
    &&& p1 == p0
}

/// A move in the queue (see [`media_changed`]): the next queued track, when the move
/// calls for one, is given for the caller to start.
pub fn handle_media_change(
    media_player: &mut MediaPlayer,
    state: &mut State,
    indices: (usize, usize),
) -> (r: Option<Track>)
    ensures
        media_changed(*old(media_player), *old(state), indices, *final(media_player), *final(state), r),
{
    let (previous_index, current_index) = indices;
    let difference = previous_index.saturating_sub(current_index);
    if difference == 1 || difference == 0 {
        return media_player.next(state);
    }
    None
}

/// Loop button: switches queue looping over (switching random picking off).
pub fn handle_media_loop(media_player: &mut MediaPlayer)
    ensures
        switches_apart(final(media_player).controls),
        final(media_player).controls == loop_pressed(old(media_player).controls),
        final(media_player).generation == old(media_player).generation,
        final(media_player).currently == old(media_player).currently,
        final(media_player).has_handle == old(media_player).has_handle,
{
    if media_player.is_looped() {
        media_player.set_queue_loop(false);
    } else {
        media_player.set_queue_loop(true);
    }
}

/// Mix button: switches random picking over (switching queue looping off).
pub fn handle_media_mix(media_player: &mut MediaPlayer)
    ensures
        switches_apart(final(media_player).controls),
        final(media_player).controls == mix_pressed(old(media_player).controls),
        final(media_player).generation == old(media_player).generation,
        final(media_player).currently == old(media_player).currently,
        final(media_player).has_handle == old(media_player).has_handle,
{
    if media_player.is_rnged() {
        media_player.set_queue_rng(false);
    } else {
        media_player.set_queue_rng(true);
    }
}

/// Volume slider: records the volume in the state and in the player; answers
/// whether the caller sets the handle's volume (one exists).
pub fn handle_media_volume(media_player: &mut MediaPlayer, state: &mut State, volume: i32) -> (r: bool)
    ensures
        switches_apart(old(media_player).controls) ==> switches_apart(final(media_player).controls),
        r == old(media_player).has_handle,
        final(state).volume == volume,
        final(media_player).controls == (Controls { volume: volume, ..old(media_player).controls }),
        final(media_player).generation == old(media_player).generation,
        final(media_player).currently == old(media_player).currently,
        final(media_player).has_handle == old(media_player).has_handle,
        final(state).index == old(state).index,
        final(state).queue == old(state).queue,
        final(state).trash_queue == old(state).trash_queue,
        final(state).timeline == old(state).timeline,
        final(state).playlists == old(state).playlists,
        final(state).search_result == old(state).search_result,
{
    state.volume = volume;
    media_player.set_volume(volume)
}

/// Add-to-queue menu entry: queues the first index track with the id, if any.
pub fn handle_add_media_queue(state: &mut State, id: i32)
    ensures
        final(state).queue@ == (if has_track(old(state).index@, id) {
            old(state).queue@.push(crate::database_types::queue_item::QueueItem { media_id: id })
        } else {
            old(state).queue@
        }),
        final(state).index == old(state).index,
        final(state).trash_queue == old(state).trash_queue,
        final(state).timeline == old(state).timeline,
        final(state).playlists == old(state).playlists,
        final(state).volume == old(state).volume,
        final(state).search_result == old(state).search_result,
{
    let _was_added = state.add_to_queue(id, true);
}

/// Pressing play/pause twice gives back the switches as they were.
pub proof fn law_toggle_twice_restores(c: Controls, has_handle: bool)
    ensures
        toggled(toggled(c, has_handle), has_handle) == c,
{
}

/// After the loop button or the mix button, looping and random picking are never
/// both on.
pub proof fn law_loop_and_mix_exclusive(c: Controls)
    ensures
        !(loop_pressed(c).loop_pick && loop_pressed(c).rng_pick),
        !(mix_pressed(c).loop_pick && mix_pressed(c).rng_pick),
{
}

/// Pressing the loop button twice gives back the switches when random picking was
/// off; the mix button likewise when looping was off.
pub proof fn law_button_twice_restores(c: Controls)
    ensures
        !c.rng_pick ==> loop_pressed(loop_pressed(c)) == c,
        !c.loop_pick ==> mix_pressed(mix_pressed(c)) == c,
{
}

} // verus!
