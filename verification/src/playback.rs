//! Playback pacing: a state machine owning the current frame index, the
//! play/pause state and the frame-rate clock.
//!
//! Frame advancement is gated by the clip's own frame rate, never by the
//! caller's redraw cadence: the controller compares a passed-in current time
//! against the explicit `last_advance_ms` field on each periodic check and
//! advances at most one frame when at least one frame interval has elapsed.
//! Rates and times are kept in integer thousandths: `fps_millis` is frames
//! per second times 1000, and timestamps are milliseconds.

use vstd::prelude::*;

verus! {

#[derive(Debug, Clone, Copy, PartialEq, Eq, Structural)]
pub enum PlaybackState {
    /// No media loaded.
    Stopped,
    /// Media loaded, not advancing.
    Paused,
    /// Media loaded and advancing under the frame-rate clock.
    Playing,
}

/// What a frame-advance request did.
#[derive(Debug, Clone, Copy, PartialEq, Eq, Structural)]
pub enum AdvanceStatus {
    /// The index moved one frame forward.
    Advanced,
    /// The advance would have moved past the last frame: the index stayed
    /// and playback paused.
    EndOfMedia,
    /// No media is loaded.
    NoMedia,
}

pub struct PlaybackController {
    pub current_frame_index: usize,
    pub total_frame_count: usize,
    pub state: PlaybackState,
    pub fps_millis: u32,
    pub last_advance_ms: u64,
}

/// Milliseconds of one frame interval at a rate of `fps_millis` thousandths
/// of a frame per second: `floor(1000 / fps) = floor(1_000_000 / fps_millis)`.
pub open spec fn frame_interval_ms(fps_millis: u32) -> int {
    1_000_000 as int / fps_millis as int
}

impl PlaybackController {
    /// Well-formedness: a positive frame rate and an index inside the clip
    /// (or zero when no media is loaded).
    pub open spec fn wf(self) -> bool {
        &&& 1 <= self.fps_millis
        &&& self.total_frame_count > 0 ==> self.current_frame_index < self.total_frame_count
        &&& self.total_frame_count == 0 ==> self.current_frame_index == 0
    }

    /// A fresh controller: no media, index zero, ten frames per second.
    pub fn new() -> (c: PlaybackController)
        ensures
            c.wf(),
            c.current_frame_index == 0,
            c.total_frame_count == 0,
            c.state == PlaybackState::Stopped,
            c.fps_millis == 10_000,
            c.last_advance_ms == 0,
    {
        PlaybackController {
            current_frame_index: 0,
            total_frame_count: 0,
            state: PlaybackState::Stopped,
            fps_millis: 10_000,
            last_advance_ms: 0,
        }
    }

    /// Installs a newly loaded clip: index zero, paused when the clip has
    /// frames, stopped when it has none. The frame rate and clock carry over.
    pub fn load_media(&mut self, total_frame_count: usize)
        requires
            old(self).wf(),
        ensures
            final(self).wf(),
            final(self).current_frame_index == 0,
            final(self).total_frame_count == total_frame_count,
            final(self).state == if total_frame_count > 0 {
                PlaybackState::Paused
            } else {
                PlaybackState::Stopped
            },
            final(self).fps_millis == old(self).fps_millis,
            final(self).last_advance_ms == old(self).last_advance_ms,
    {
        self.current_frame_index = 0;
        self.total_frame_count = total_frame_count;
        self.state = if total_frame_count > 0 {
            PlaybackState::Paused
        } else {
            PlaybackState::Stopped
        };
    }

    /// Starts playback and resets the frame clock to `now_ms`.
    pub fn play(&mut self, now_ms: u64)
        requires
            old(self).wf(),
        ensures
            final(self).wf(),
            final(self).state == PlaybackState::Playing,
            final(self).last_advance_ms == now_ms,
            final(self).current_frame_index == old(self).current_frame_index,
            final(self).total_frame_count == old(self).total_frame_count,
            final(self).fps_millis == old(self).fps_millis,
    {
        self.state = PlaybackState::Playing;
        self.last_advance_ms = now_ms;
    }

    /// Pauses playback; a controller that was not playing is unchanged.
    pub fn pause(&mut self)
        requires
            old(self).wf(),
        ensures
            final(self).wf(),
            final(self).state == if old(self).state == PlaybackState::Playing {
                PlaybackState::Paused
            } else {
                old(self).state
            },
            final(self).current_frame_index == old(self).current_frame_index,
            final(self).total_frame_count == old(self).total_frame_count,
            final(self).fps_millis == old(self).fps_millis,
            final(self).last_advance_ms == old(self).last_advance_ms,
    {
        if self.state == PlaybackState::Playing {
            self.state = PlaybackState::Paused;
        }
    }

    /// Toggles between playing and not playing; starting playback resets the
    /// frame clock to `now_ms`.
    pub fn toggle_playback(&mut self, now_ms: u64)
        requires
            old(self).wf(),
        ensures
            final(self).wf(),
            old(self).state == PlaybackState::Playing ==> final(self).state
                == PlaybackState::Paused && final(self).last_advance_ms == old(
                self,
            ).last_advance_ms,
            old(self).state != PlaybackState::Playing ==> final(self).state
                == PlaybackState::Playing && final(self).last_advance_ms == now_ms,
            final(self).current_frame_index == old(self).current_frame_index,
            final(self).total_frame_count == old(self).total_frame_count,
            final(self).fps_millis == old(self).fps_millis,
    {
        if self.state == PlaybackState::Playing {
            self.state = PlaybackState::Paused;
        } else {
            self.state = PlaybackState::Playing;
            self.last_advance_ms = now_ms;
        }
    }

    /// Moves one frame forward. At the last frame the index stays, playback
    /// auto-pauses and an end-of-media status is emitted; with no media
    /// loaded nothing changes.
    pub fn next_frame(&mut self) -> (status: AdvanceStatus)
        requires
            old(self).wf(),
        ensures
            final(self).wf(),
            old(self).total_frame_count == 0 ==> status == AdvanceStatus::NoMedia && *final(self)
                == *old(self),
            old(self).total_frame_count > 0 && old(self).current_frame_index + 1 < old(
                self,
            ).total_frame_count ==> status == AdvanceStatus::Advanced && final(self)
                .current_frame_index == old(self).current_frame_index + 1 && final(self).state
                == old(self).state,
            old(self).total_frame_count > 0 && old(self).current_frame_index + 1 == old(
                self,
            ).total_frame_count ==> status == AdvanceStatus::EndOfMedia && final(self)
                .current_frame_index == old(self).current_frame_index && final(self).state
                == PlaybackState::Paused,
            final(self).total_frame_count == old(self).total_frame_count,
            final(self).fps_millis == old(self).fps_millis,
            final(self).last_advance_ms == old(self).last_advance_ms,
    {
        if self.total_frame_count == 0 {
            AdvanceStatus::NoMedia
        } else if self.current_frame_index + 1 < self.total_frame_count {
            self.current_frame_index = self.current_frame_index + 1;
            AdvanceStatus::Advanced
        } else {
            self.state = PlaybackState::Paused;
            AdvanceStatus::EndOfMedia
        }
    }

    /// Moves one frame backwards, clamped at the first frame.
    pub fn previous_frame(&mut self)
        requires
            old(self).wf(),
        ensures
            final(self).wf(),
            final(self).current_frame_index == if old(self).current_frame_index > 0 {
                old(self).current_frame_index - 1
            } else {
                0
            },
            final(self).state == old(self).state,
            final(self).total_frame_count == old(self).total_frame_count,
            final(self).fps_millis == old(self).fps_millis,
            final(self).last_advance_ms == old(self).last_advance_ms,
    {
        if self.current_frame_index > 0 {
            self.current_frame_index = self.current_frame_index - 1;
        }
    }

    /// Sets the playback rate, in thousandths of a frame per second.
    pub fn set_frame_rate(&mut self, fps_millis: u32)
        requires
            old(self).wf(),
            1 <= fps_millis,
        ensures
            final(self).wf(),
            final(self).fps_millis == fps_millis,
            final(self).current_frame_index == old(self).current_frame_index,
            final(self).total_frame_count == old(self).total_frame_count,
            final(self).state == old(self).state,
            final(self).last_advance_ms == old(self).last_advance_ms,
    {
        self.fps_millis = fps_millis;
    }

    /// Whether an advance is due at `now_ms`: playback must be running, the
    /// clip must have more than one frame, and at least one frame interval
    /// must have elapsed since the last advance.
    pub fn should_advance_frame(&self, now_ms: u64) -> (r: bool)
        requires
            self.wf(),
        ensures
            r == (self.state == PlaybackState::Playing && self.total_frame_count > 1 && now_ms
                >= self.last_advance_ms + frame_interval_ms(self.fps_millis)),
    {
        if self.state != PlaybackState::Playing || self.total_frame_count <= 1 {
            return false;
        }
        let interval: u64 = 1_000_000 / (self.fps_millis as u64);
        now_ms >= self.last_advance_ms && now_ms - self.last_advance_ms >= interval
    }

    /// One periodic check: when an advance is due the controller moves one
    /// frame and resets the frame clock to `now_ms`; otherwise it does
    /// nothing this tick. The caller's own polling cadence never enters the
    /// decision.
    pub fn tick(&mut self, now_ms: u64) -> (r: Option<AdvanceStatus>)
        requires
            old(self).wf(),
        ensures
            final(self).wf(),
            !(old(self).state == PlaybackState::Playing && old(self).total_frame_count > 1
                && now_ms >= old(self).last_advance_ms + frame_interval_ms(old(self).fps_millis))
                ==> *final(self) == *old(self) && r is None,
            (old(self).state == PlaybackState::Playing && old(self).total_frame_count > 1 && now_ms
                >= old(self).last_advance_ms + frame_interval_ms(old(self).fps_millis)) ==> {
                &&& (old(self).current_frame_index + 1 < old(self).total_frame_count ==> {
                    &&& r == Some(AdvanceStatus::Advanced)
                    &&& final(self).current_frame_index == old(self).current_frame_index + 1
                    &&& final(self).state == old(self).state
                    &&& final(self).last_advance_ms == now_ms
                })
                &&& (old(self).current_frame_index + 1 == old(self).total_frame_count ==> {
                    &&& r == Some(AdvanceStatus::EndOfMedia)
                    &&& final(self).current_frame_index == old(self).current_frame_index
                    &&& final(self).state == PlaybackState::Paused
                    &&& final(self).last_advance_ms == old(self).last_advance_ms
                })
            },
            final(self).total_frame_count == old(self).total_frame_count,
            final(self).fps_millis == old(self).fps_millis,
    {
        if self.should_advance_frame(now_ms) {
            let status = self.next_frame();
            if status == AdvanceStatus::Advanced {
                self.last_advance_ms = now_ms;
            }
            Some(status)
        } else {
            None
        }
    }
}

} // verus!
