//! The first UI hooks of the media controls, none of which does anything yet.
use vstd::prelude::*;

verus! {

/// Media change hook: whether the move goes forward is worked out, and nothing else.
pub fn handle_media_change(index: i32) {
    let _move_to_next_audio = index > 0;
}

/// Media start hook: does nothing.
pub fn handle_media_start(start: bool) {
}

/// Media loop hook: does nothing.
pub fn handle_media_loop(create_loop: bool) {
}

/// Media mix hook: does nothing.
pub fn handle_media_mix() {
}

/// Reading all sources at once: not done yet, does nothing.
pub fn read_sources() {
}

/// Updating the index: not done yet, does nothing.
pub fn update_index() {
}

} // verus!
