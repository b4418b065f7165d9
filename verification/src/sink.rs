//! The bookkeeping of a queued audio sink: how many sounds it holds, how many of
//! them are to be skipped, and whether it is paused, stopped or detached. The audio
//! sources and their mixing stay with the caller, which asks these functions what
//! to do at each step.
use vstd::prelude::*;

verus! {

/// The control state of a sink.
#[derive(Clone, Copy, PartialEq, Eq, Debug)]
pub struct Sink {
    pub pause: bool,
    pub stopped: bool,
    pub to_clear: u32,
    pub sound_count: usize,
    pub detached: bool,
}

/// What the periodic callback of the playing sound does at one tick.
#[derive(Clone, Copy, PartialEq, Eq, Debug)]
pub struct Tick {
    /// Stop the sound (the sink was stopped).
    pub stop: bool,
    /// Skip the sound (a clear or skip is pending).
    pub skip: bool,
    /// Report the position as zero instead of reading it from the sound.
    pub reset_position: bool,
    /// Whether the sound is paused.
    pub paused: bool,
}

impl Sink {
    /// An empty sink: nothing held, nothing pending, playing, attached.
    pub fn new() -> (r: Self)
        ensures
            r == (Sink { pause: false, stopped: false, to_clear: 0, sound_count: 0, detached: false }),
    {
        Sink { pause: false, stopped: false, to_clear: 0, sound_count: 0, detached: false }
    }

    /// Appends a sound. A stopped sink first waits for the sounds it still holds to
    /// end (when it holds any) and starts again. Answers whether the caller waits.
    pub fn append(&mut self) -> (wait_for_end: bool)
        requires
            old(self).sound_count < usize::MAX,
        ensures
            wait_for_end == (old(self).stopped && old(self).sound_count > 0),
            *final(self) == (Sink {
                stopped: false,
                sound_count: (old(self).sound_count + 1) as usize,
                ..*old(self)
            }),
    {
        let mut wait = false;
        if self.stopped {
            if self.sound_count > 0 {
                wait = true;
            }
            self.stopped = false;
        }
        self.sound_count = self.sound_count + 1;
        wait
    }

    /// A held sound ended.
    pub fn sound_done(&mut self)
        ensures
            *final(self) == (Sink {
                sound_count: if old(self).sound_count > 0 {
                    (old(self).sound_count - 1) as usize
                } else {
                    0
                },
                ..*old(self)
            }),
    {
        if self.sound_count > 0 {
            self.sound_count = self.sound_count - 1;
        }
    }

    /// One tick of the playing sound's callback: a stopped sink stops the sound; a
    /// pending clear skips the sound, counts one clear off and reports position zero
    /// (otherwise the sound's own position is reported); the pause state is passed on.
    pub fn periodic_access(&mut self) -> (r: Tick)
        ensures
            r.stop == old(self).stopped,
            r.skip == (old(self).to_clear > 0),
            r.reset_position == (old(self).to_clear > 0),
            r.paused == old(self).pause,
            *final(self) == (Sink {
                to_clear: if old(self).to_clear > 0 {
                    (old(self).to_clear - 1) as u32
                } else {
                    0
                },
                ..*old(self)
            }),
    {
        let stop = self.stopped;
        let mut skip = false;
        if self.to_clear > 0 {
            skip = true;
            self.to_clear = self.to_clear - 1;
        }
        Tick { stop, skip, reset_position: skip, paused: self.pause }
    }

    /// Lifts the pause.
    pub fn play(&mut self)
        ensures
            *final(self) == (Sink { pause: false, ..*old(self) }),
    {
        self.pause = false;
    }

    /// Pauses.
    pub fn pause(&mut self)
        ensures
            *final(self) == (Sink { pause: true, ..*old(self) }),
    {
        self.pause = true;
    }

    /// Whether the sink is paused.
    pub fn is_paused(&self) -> (r: bool)
        ensures
            r == self.pause,
    {
        self.pause
    }

    /// Whether seeking waits for the audio thread's answer: only when a sound is held.
    pub fn seek_waits(&self) -> (r: bool)
        ensures
            r == (self.sound_count != 0),
    {
        self.sound_count != 0
    }

    /// Marks every held sound to be skipped (the count cut to `u32`).
    pub fn clear(&mut self)
        ensures
            *final(self) == (Sink { to_clear: old(self).sound_count as u32, ..*old(self) }),
    {
        self.to_clear = self.sound_count as u32;
    }

    /// Marks one more held sound to be skipped, when fewer than all are marked.
    pub fn skip_one(&mut self)
        ensures
            *final(self) == (Sink {
                to_clear: if (old(self).sound_count as u32) > old(self).to_clear {
                    (old(self).to_clear + 1) as u32
                } else {
                    old(self).to_clear
                },
                ..*old(self)
            }),
    {
        let len = self.sound_count as u32;
        if len > self.to_clear {
            self.to_clear = self.to_clear + 1;
        }
    }

    /// Stops the sink.
    pub fn stop(&mut self)
        ensures
            *final(self) == (Sink { stopped: true, ..*old(self) }),
    {
        self.stopped = true;
    }

    /// Detaches the sink: its sounds play on once the handle goes.
    pub fn detach(&mut self)
        ensures
            *final(self) == (Sink { detached: true, ..*old(self) }),
    {
        self.detached = true;
    }

    /// Whether the sink holds no sound.
    pub fn empty(&self) -> (r: bool)
        ensures
            r == (self.sound_count == 0),
    {
        self.len() == 0
    }

    /// The number of sounds held.
    pub fn len(&self) -> (r: usize)
        ensures
            r == self.sound_count,
    {
        self.sound_count
    }

    /// What dropping the sink does: an attached sink stops its sounds.
    pub fn drop_stops(&self) -> (r: bool)
        ensures
            r == !self.detached,
    {
        !self.detached
    }
}

} // verus!
