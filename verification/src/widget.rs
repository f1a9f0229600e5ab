//! The media widget: owns the current frame, the quality profile, the frame
//! store and the playback controller, and produces character grids for a
//! rendering surface.
//!
//! Decoding and drawing run outside: the widget is handed decoded frames and
//! a current time, and hands back character grids and decode requests. When
//! a requested decode fails, the caller reports `decode_failed` and the
//! widget returns the playback index to the frame still shown, so the last
//! good frame and index are retained.

use vstd::prelude::*;

use crate::ascii;
use crate::ascii::cell_char;
use crate::frame::Frame;
use crate::playback::{AdvanceStatus, PlaybackController, PlaybackState};
use crate::quality::{ramp_chars, ImageQuality};
use crate::resample::resample_of;
use crate::source::{FrameQuery, FrameSource};

verus! {

/// How many decoded frames the widget caches for a clip decoded on demand.
pub const DEFAULT_CACHE_CAPACITY: usize = 50;

pub struct ImageWidget {
    pub current_image: Option<Frame>,
    pub quality: ImageQuality,
    pub source: FrameSource,
    pub controller: PlaybackController,
    pub pending_decode: Option<usize>,
    /// The clip index of the frame currently shown.
    pub shown_frame_index: usize,
    pub frames_rendered: usize,
}

/// The recency order of a cache after a hit on `index`: the entry moves to
/// the most recently used end, everything else keeps its place.
pub open spec fn refreshed_cache_view(
    cache: crate::cache::FrameCache,
    index: usize,
) -> Seq<(usize, Frame)> {
    cache.view().remove(cache.key_pos(index)).push(cache.view()[cache.key_pos(index)])
}

impl ImageWidget {
    /// Well-formedness: sound parts, a well-formed current frame, a shown
    /// index inside the clip, and a controller that agrees with the frame
    /// store about the clip length.
    pub open spec fn wf(self) -> bool {
        &&& self.controller.wf()
        &&& self.source.wf()
        &&& self.current_image matches Some(f) ==> f.wf()
        &&& self.source.total_frames > 0 ==> self.controller.total_frame_count
            == self.source.total_frames
        &&& self.controller.total_frame_count > 1 ==> self.source.total_frames
            == self.controller.total_frame_count
        &&& self.controller.total_frame_count > 0 ==> self.shown_frame_index
            < self.controller.total_frame_count
        &&& self.controller.total_frame_count == 0 ==> self.shown_frame_index == 0
    }

    /// A fresh widget: no media, medium quality, not playing, ten frames per
    /// second.
    pub fn new() -> (w: ImageWidget)
        ensures
            w.wf(),
            w.current_image is None,
            w.quality == ImageQuality::Medium,
            w.controller.current_frame_index == 0,
            w.controller.total_frame_count == 0,
            w.controller.state == PlaybackState::Stopped,
            w.controller.fps_millis == 10_000,
            w.controller.last_advance_ms == 0,
            w.source.bulk_frames@.len() == 0,
            w.source.total_frames == 0,
            w.source.cache.view().len() == 0,
            w.source.cache.spec_max_size() == DEFAULT_CACHE_CAPACITY,
            w.pending_decode is None,
            w.shown_frame_index == 0,
            w.frames_rendered == 0,
    {
        ImageWidget {
            current_image: None,
            quality: ImageQuality::Medium,
            source: FrameSource::new(DEFAULT_CACHE_CAPACITY),
            controller: PlaybackController::new(),
            pending_decode: None,
            shown_frame_index: 0,
            frames_rendered: 0,
        }
    }

    /// A fresh widget with the given quality level: exactly as `new` leaves
    /// it, but for the quality.
    pub fn with_quality(quality: ImageQuality) -> (w: ImageWidget)
        ensures
            w.wf(),
            w.quality == quality,
            w.current_image is None,
            w.controller == (PlaybackController {
                current_frame_index: 0,
                total_frame_count: 0,
                state: PlaybackState::Stopped,
                fps_millis: 10_000,
                last_advance_ms: 0,
            }),
            w.source.bulk_frames@.len() == 0,
            w.source.total_frames == 0,
            w.source.cache.view().len() == 0,
            w.source.cache.spec_max_size() == DEFAULT_CACHE_CAPACITY,
            w.pending_decode is None,
            w.shown_frame_index == 0,
            w.frames_rendered == 0,
    {
        let mut w = ImageWidget::new();
        w.quality = quality;
        w
    }

    /// Installs a decoded still image: a one-frame clip, paused at its only
    /// frame; the previous clip and cache are dropped.
    pub fn load_image(&mut self, frame: Frame)
        requires
            old(self).wf(),
            frame.wf(),
        ensures
            final(self).wf(),
            final(self).current_image matches Some(f) && f == frame,
            final(self).controller.current_frame_index == 0,
            final(self).controller.total_frame_count == 1,
            final(self).controller.state == PlaybackState::Paused,
            final(self).controller.fps_millis == old(self).controller.fps_millis,
            final(self).pending_decode is None,
            final(self).shown_frame_index == 0,
            final(self).frames_rendered == 0,
            final(self).quality == old(self).quality,
            final(self).source.bulk_frames@.len() == 0,
            final(self).source.total_frames == 0,
            final(self).source.cache.view().len() == 0,
            final(self).source.cache.spec_max_size() == old(self).source.cache.spec_max_size(),
    {
        self.source.clear();
        self.controller.load_media(1);
        self.current_image = Some(frame);
        self.pending_decode = None;
        self.shown_frame_index = 0;
        self.frames_rendered = 0;
    }

    /// Installs a pre-extracted clip (bulk strategy): the frame list becomes
    /// the clip, playback pauses at frame zero, and the first frame is shown.
    pub fn load_video_frames(&mut self, frames: Vec<Frame>, fps_millis: u32)
        requires
            old(self).wf(),
            forall|i: int| 0 <= i < frames@.len() ==> (#[trigger] frames@[i]).wf(),
            1 <= fps_millis,
        ensures
            final(self).wf(),
            final(self).source.bulk_frames@ == frames@,
            final(self).source.cache.view().len() == 0,
            final(self).controller.total_frame_count == frames@.len(),
            final(self).controller.current_frame_index == 0,
            final(self).controller.fps_millis == fps_millis,
            final(self).controller.state == if frames@.len() > 0 {
                PlaybackState::Paused
            } else {
                PlaybackState::Stopped
            },
            frames@.len() > 0 ==> (final(self).current_image matches Some(f) && f.wf()
                && f.data() == frames@[0].data()),
            frames@.len() == 0 ==> final(self).current_image is None,
            final(self).pending_decode is None,
            final(self).shown_frame_index == 0,
            final(self).frames_rendered == 0,
            final(self).quality == old(self).quality,
    {
        self.controller.set_frame_rate(fps_millis);
        self.controller.load_media(frames.len());
        if frames.len() > 0 {
            self.current_image = Some(frames[0].duplicate());
        } else {
            self.current_image = None;
        }
        self.source.set_bulk_frames(frames);
        self.pending_decode = None;
        self.shown_frame_index = 0;
        self.frames_rendered = 0;
    }

    /// Installs a clip decoded on demand (seek strategy): nothing is decoded
    /// yet, so the widget shows no frame and requests a decode of frame zero.
    pub fn load_video_streamed(&mut self, total_frames: usize, fps_millis: u32)
        requires
            old(self).wf(),
            1 <= fps_millis,
        ensures
            final(self).wf(),
            final(self).source.bulk_frames@.len() == 0,
            final(self).source.total_frames == total_frames,
            final(self).source.cache.view().len() == 0,
            final(self).controller.total_frame_count == total_frames,
            final(self).controller.current_frame_index == 0,
            final(self).controller.fps_millis == fps_millis,
            final(self).current_image is None,
            final(self).pending_decode == if total_frames > 0 {
                Some(0usize)
            } else {
                Option::<usize>::None
            },
            final(self).shown_frame_index == 0,
            final(self).frames_rendered == 0,
            final(self).quality == old(self).quality,
    {
        self.controller.set_frame_rate(fps_millis);
        self.controller.load_media(total_frames);
        self.source.set_streamed(total_frames);
        self.current_image = None;
        self.pending_decode = if total_frames > 0 {
            Some(0)
        } else {
            None
        };
        self.shown_frame_index = 0;
        self.frames_rendered = 0;
    }

    /// Current playback information: frame index, total frames, and whether
    /// the clip is playing.
    pub fn get_playback_info(&self) -> (r: (usize, usize, bool))
        ensures
            r.0 == self.controller.current_frame_index,
            r.1 == self.controller.total_frame_count,
            r.2 == (self.controller.state == PlaybackState::Playing),
    {
        (
            self.controller.current_frame_index,
            self.controller.total_frame_count,
            self.controller.state == PlaybackState::Playing,
        )
    }

    /// Sets the playback rate, in thousandths of a frame per second; nothing
    /// else changes.
    pub fn set_frame_rate(&mut self, fps_millis: u32)
        requires
            old(self).wf(),
            1 <= fps_millis,
        ensures
            final(self).wf(),
            final(self).controller == (PlaybackController {
                fps_millis,
                ..old(self).controller
            }),
            *final(self) == (ImageWidget { controller: final(self).controller, ..*old(self) }),
    {
        self.controller.set_frame_rate(fps_millis);
    }

    /// The playback rate, in thousandths of a frame per second.
    pub fn frame_rate(&self) -> (r: u32)
        ensures
            r == self.controller.fps_millis,
    {
        self.controller.fps_millis
    }

    /// Sets the quality level for later conversions; nothing else changes.
    pub fn set_quality(&mut self, quality: ImageQuality)
        requires
            old(self).wf(),
        ensures
            final(self).wf(),
            final(self).quality == quality,
            *final(self) == (ImageWidget { quality, ..*old(self) }),
    {
        self.quality = quality;
    }

    /// Whether a frame advance is due at `now_ms`; true only while playing a
    /// clip of more than one frame after a full frame interval.
    pub fn should_advance_frame(&self, now_ms: u64) -> (r: bool)
        requires
            self.wf(),
        ensures
            r == (self.controller.state == PlaybackState::Playing
                && self.controller.total_frame_count > 1 && now_ms
                >= self.controller.last_advance_ms + crate::playback::frame_interval_ms(
                self.controller.fps_millis,
            )),
    {
        self.controller.should_advance_frame(now_ms)
    }

    /// Toggles playback; starting resets the frame clock to `now_ms`. Only
    /// the play state and the clock change: the index, the shown frame and
    /// the whole frame store stay as they are, so two consecutive toggles
    /// restore the play state.
    pub fn toggle_playback(&mut self, now_ms: u64)
        requires
            old(self).wf(),
        ensures
            final(self).wf(),
            old(self).controller.state == PlaybackState::Playing ==> final(self).controller
                == (PlaybackController { state: PlaybackState::Paused, ..old(self).controller }),
            old(self).controller.state != PlaybackState::Playing ==> final(self).controller
                == (PlaybackController {
                state: PlaybackState::Playing,
                last_advance_ms: now_ms,
                ..old(self).controller
            }),
            *final(self) == (ImageWidget { controller: final(self).controller, ..*old(self) }),
    {
        self.controller.toggle_playback(now_ms);
    }

    /// Starts playback and resets the frame clock; nothing else changes.
    pub fn play(&mut self, now_ms: u64)
        requires
            old(self).wf(),
        ensures
            final(self).wf(),
            final(self).controller == (PlaybackController {
                state: PlaybackState::Playing,
                last_advance_ms: now_ms,
                ..old(self).controller
            }),
            *final(self) == (ImageWidget { controller: final(self).controller, ..*old(self) }),
    {
        self.controller.play(now_ms);
    }

    /// Pauses playback; a widget that was not playing is unchanged, and
    /// nothing but the play state ever changes.
    pub fn pause(&mut self)
        requires
            old(self).wf(),
        ensures
            final(self).wf(),
            final(self).controller == (PlaybackController {
                state: if old(self).controller.state == PlaybackState::Playing {
                    PlaybackState::Paused
                } else {
                    old(self).controller.state
                },
                ..old(self).controller
            }),
            *final(self) == (ImageWidget { controller: final(self).controller, ..*old(self) }),
    {
        self.controller.pause();
    }

    /// Resolves the controller's current frame through the frame store: a
    /// bulk frame or cache hit becomes the shown frame (a copy — the hit
    /// also refreshes the entry's recency); a cache miss leaves the last
    /// good frame shown and records the decode request. Nothing but the
    /// shown frame, its index, the request and the cache recency changes.
    fn resolve_current(&mut self)
        requires
            old(self).wf(),
        ensures
            final(self).wf(),
            final(self).controller == old(self).controller,
            final(self).quality == old(self).quality,
            final(self).frames_rendered == old(self).frames_rendered,
            final(self).source.bulk_frames@ == old(self).source.bulk_frames@,
            final(self).source.total_frames == old(self).source.total_frames,
            final(self).source.cache.spec_max_size() == old(self).source.cache.spec_max_size(),
            old(self).controller.current_frame_index >= old(self).source.total_frames ==> final(self).current_image == old(self).current_image && final(self).pending_decode == old(self).pending_decode && final(self).shown_frame_index == old(self).shown_frame_index
                && final(self).source.cache.view() == old(self).source.cache.view(),
            old(self).source.bulk_frames@.len() > 0 && old(self).controller.current_frame_index
                < old(self).source.total_frames ==> (final(self).current_image matches Some(f)
                && f.data() == old(self).source.bulk_frames@[
            old(self).controller.current_frame_index as int].data()) && final(self).pending_decode
                is None && final(self).shown_frame_index == old(self).controller.current_frame_index && final(self).source.cache.view() == old(self).source.cache.view(),
            old(self).source.bulk_frames@.len() == 0 && old(self).controller.current_frame_index
                < old(self).source.total_frames && old(self).source.cache.contains_key(
                old(self).controller.current_frame_index,
            ) ==> (final(self).current_image matches Some(f) && f.data() == old(self).source.cache.frame_of(old(self).controller.current_frame_index).data()) && final(self).pending_decode is None && final(self).shown_frame_index == old(self).controller.current_frame_index && final(self).source.cache.view()
                == refreshed_cache_view(
                old(self).source.cache,
                old(self).controller.current_frame_index,
            ),
            old(self).source.bulk_frames@.len() == 0 && old(self).controller.current_frame_index
                < old(self).source.total_frames && !old(self).source.cache.contains_key(
                old(self).controller.current_frame_index,
            ) ==> final(self).pending_decode == Some(old(self).controller.current_frame_index)
                && final(self).current_image == old(self).current_image && final(self).shown_frame_index == old(self).shown_frame_index && final(self).source.cache.view()
                == old(self).source.cache.view(),
    {
        let idx = self.controller.current_frame_index;
        let q = self.source.frame_at(idx);
        match q {
            FrameQuery::Ready(f) => {
                self.current_image = Some(f);
                self.pending_decode = None;
                self.shown_frame_index = idx;
            },
            FrameQuery::NeedsDecode(i) => {
                self.pending_decode = Some(i);
            },
            FrameQuery::OutOfRange => {},
        }
    }

    /// Moves one frame forward under the controller's rules and resolves the
    /// new frame: a bulk frame or cached frame (copied out, its recency
    /// refreshed) becomes the shown one; a frame not yet decoded becomes a
    /// pending decode request while the last good frame stays shown. At the
    /// end of the clip the index stays and playback pauses; with no media
    /// nothing changes.
    pub fn next_frame(&mut self) -> (status: AdvanceStatus)
        requires
            old(self).wf(),
        ensures
            final(self).wf(),
            final(self).quality == old(self).quality,
            final(self).frames_rendered == old(self).frames_rendered,
            final(self).source.bulk_frames@ == old(self).source.bulk_frames@,
            final(self).source.total_frames == old(self).source.total_frames,
            final(self).source.cache.spec_max_size() == old(self).source.cache.spec_max_size(),
            final(self).controller.total_frame_count == old(self).controller.total_frame_count,
            final(self).controller.fps_millis == old(self).controller.fps_millis,
            final(self).controller.last_advance_ms == old(self).controller.last_advance_ms,
            old(self).controller.total_frame_count == 0 ==> status == AdvanceStatus::NoMedia
                && *final(self) == *old(self),
            old(self).controller.total_frame_count > 0 && old(self).controller.current_frame_index + 1 < old(self).controller.total_frame_count ==> {
                let target = (old(self).controller.current_frame_index + 1) as usize;
                &&& status == AdvanceStatus::Advanced
                &&& final(self).controller.current_frame_index == target
                &&& final(self).controller.state == old(self).controller.state
                &&& (old(self).source.bulk_frames@.len() > 0 ==> (
                final(self).current_image matches Some(f) && f.data() == old(self).source.bulk_frames@[target as int].data()) && final(self).pending_decode is None
                    && final(self).shown_frame_index == target && final(self).source.cache.view()
                    == old(self).source.cache.view())
                &&& (old(self).source.bulk_frames@.len() == 0 && old(self).source.cache.contains_key(target) ==> (
                final(self).current_image matches Some(f) && f.data() == old(self).source.cache.frame_of(target).data()) && final(self).pending_decode is None
                    && final(self).shown_frame_index == target && final(self).source.cache.view()
                    == refreshed_cache_view(old(self).source.cache, target))
                &&& (old(self).source.bulk_frames@.len() == 0 && !old(self).source.cache.contains_key(target) ==> final(self).pending_decode == Some(target)
                    && final(self).current_image == old(self).current_image && final(self).shown_frame_index == old(self).shown_frame_index && final(self).source.cache.view() == old(self).source.cache.view())
            },
            old(self).controller.total_frame_count > 0 && old(self).controller.current_frame_index + 1 == old(self).controller.total_frame_count ==> {
                &&& status == AdvanceStatus::EndOfMedia
                &&& final(self).controller == (PlaybackController {
                    state: PlaybackState::Paused,
                    ..old(self).controller
                })
                &&& *final(self) == (ImageWidget {
                    controller: final(self).controller,
                    ..*old(self)
                })
            },
    {
        let status = self.controller.next_frame();
        if status == AdvanceStatus::Advanced {
            self.resolve_current();
        }
        status
    }

    /// Moves one frame backwards, clamped at the first frame, and resolves
    /// the new frame through the frame store as `next_frame` does.
    pub fn previous_frame(&mut self)
        requires
            old(self).wf(),
        ensures
            final(self).wf(),
            final(self).quality == old(self).quality,
            final(self).frames_rendered == old(self).frames_rendered,
            final(self).source.bulk_frames@ == old(self).source.bulk_frames@,
            final(self).source.total_frames == old(self).source.total_frames,
            final(self).source.cache.spec_max_size() == old(self).source.cache.spec_max_size(),
            final(self).controller == (PlaybackController {
                current_frame_index: if old(self).controller.current_frame_index > 0 {
                    (old(self).controller.current_frame_index - 1) as usize
                } else {
                    0usize
                },
                ..old(self).controller
            }),
            (old(self).source.bulk_frames@.len() > 0 && old(self).controller.current_frame_index
                > 0) ==> (final(self).current_image matches Some(f) && f.data() == old(self).source.bulk_frames@[old(self).controller.current_frame_index - 1].data()),
    {
        self.controller.previous_frame();
        self.resolve_current();
    }

    /// One periodic check: advances one frame when a frame interval has
    /// elapsed while playing — resetting the clock and resolving the new
    /// frame exactly as `next_frame` does, with the play state untouched —
    /// and otherwise changes nothing at all. The caller's poll cadence never
    /// gates the decision.
    pub fn tick(&mut self, now_ms: u64) -> (r: Option<AdvanceStatus>)
        requires
            old(self).wf(),
        ensures
            final(self).wf(),
            final(self).quality == old(self).quality,
            final(self).frames_rendered == old(self).frames_rendered,
            final(self).source.bulk_frames@ == old(self).source.bulk_frames@,
            final(self).source.total_frames == old(self).source.total_frames,
            final(self).source.cache.spec_max_size() == old(self).source.cache.spec_max_size(),
            final(self).controller.total_frame_count == old(self).controller.total_frame_count,
            final(self).controller.fps_millis == old(self).controller.fps_millis,
            !(old(self).controller.state == PlaybackState::Playing && old(self).controller.total_frame_count > 1 && now_ms >= old(self).controller.last_advance_ms
                + crate::playback::frame_interval_ms(old(self).controller.fps_millis)) ==> r
                is None && *final(self) == *old(self),
            (old(self).controller.state == PlaybackState::Playing && old(self).controller.total_frame_count > 1 && now_ms >= old(self).controller.last_advance_ms
                + crate::playback::frame_interval_ms(old(self).controller.fps_millis)) ==> {
                let target = (old(self).controller.current_frame_index + 1) as usize;
                &&& (old(self).controller.current_frame_index + 1 < old(self).controller.total_frame_count ==> {
                    &&& r == Some(AdvanceStatus::Advanced)
                    &&& final(self).controller.current_frame_index == target
                    &&& final(self).controller.state == old(self).controller.state
                    &&& final(self).controller.last_advance_ms == now_ms
                    &&& (old(self).source.bulk_frames@.len() > 0 ==> (
                    final(self).current_image matches Some(f) && f.data() == old(self).source.bulk_frames@[target as int].data()) && final(self).pending_decode
                        is None && final(self).shown_frame_index == target)
                    &&& (old(self).source.bulk_frames@.len() == 0 && !old(self).source.cache.contains_key(target) ==> final(self).pending_decode == Some(
                        target,
                    ) && final(self).current_image == old(self).current_image)
                })
                &&& (old(self).controller.current_frame_index + 1 == old(self).controller.total_frame_count ==> {
                    &&& r == Some(AdvanceStatus::EndOfMedia)
                    &&& final(self).controller == (PlaybackController {
                        state: PlaybackState::Paused,
                        ..old(self).controller
                    })
                    &&& *final(self) == (ImageWidget {
                        controller: final(self).controller,
                        ..*old(self)
                    })
                })
            },
    {
        if self.should_advance_frame(now_ms) {
            let status = self.controller.tick(now_ms);
            match status {
                Some(AdvanceStatus::Advanced) => {
                    self.resolve_current();
                },
                _ => {},
            }
            status
        } else {
            None
        }
    }

    /// Takes the pending decode request, if any: the caller decodes that
    /// frame index from the clip's start and hands the frame back through
    /// `supply_frame`, or reports `decode_failed`. Nothing else changes.
    pub fn take_pending_decode(&mut self) -> (r: Option<usize>)
        requires
            old(self).wf(),
        ensures
            final(self).wf(),
            r == old(self).pending_decode,
            *final(self) == (ImageWidget { pending_decode: None, ..*old(self) }),
    {
        let r = self.pending_decode;
        self.pending_decode = None;
        r
    }

    /// Receives a frame the caller decoded on request: it enters the cache
    /// as the most recently used entry — evicting the least recently used
    /// one if the cache was full, exactly as the cache's own contract says —
    /// and becomes the shown frame when it is the current one.
    pub fn supply_frame(&mut self, index: usize, frame: Frame)
        requires
            old(self).wf(),
            frame.wf(),
        ensures
            final(self).wf(),
            final(self).quality == old(self).quality,
            final(self).frames_rendered == old(self).frames_rendered,
            final(self).pending_decode == old(self).pending_decode,
            final(self).controller == old(self).controller,
            final(self).source.bulk_frames@ == old(self).source.bulk_frames@,
            final(self).source.total_frames == old(self).source.total_frames,
            final(self).source.cache.spec_max_size() == old(self).source.cache.spec_max_size(),
            final(self).source.cache.contains_key(index),
            old(self).source.cache.contains_key(index) ==> final(self).source.cache.view() == old(self).source.cache.view().remove(old(self).source.cache.key_pos(index)).push(
                (index, frame),
            ),
            !old(self).source.cache.contains_key(index) && old(self).source.cache.view().len()
                < old(self).source.cache.spec_max_size() ==> final(self).source.cache.view()
                == old(self).source.cache.view().push((index, frame)),
            !old(self).source.cache.contains_key(index) && old(self).source.cache.view().len()
                == old(self).source.cache.spec_max_size() ==> final(self).source.cache.view()
                == old(self).source.cache.view().subrange(
                1,
                old(self).source.cache.view().len() as int,
            ).push((index, frame)),
            index == old(self).controller.current_frame_index ==> (
            final(self).current_image matches Some(f) && f.data() == frame.data()) && final(self).shown_frame_index == index,
            index != old(self).controller.current_frame_index ==> final(self).current_image == old(self).current_image && final(self).shown_frame_index == old(self).shown_frame_index,
    {
        if index == self.controller.current_frame_index {
            self.current_image = Some(frame.duplicate());
            self.shown_frame_index = index;
        }
        self.source.complete_decode(index, frame);
    }

    /// Records that the requested decode failed: the request is dropped and
    /// the playback index returns to the frame still shown, so the last good
    /// frame and index are retained. The caller surfaces the error as a
    /// status message; nothing else changes.
    pub fn decode_failed(&mut self)
        requires
            old(self).wf(),
        ensures
            final(self).wf(),
            final(self).pending_decode is None,
            final(self).current_image == old(self).current_image,
            final(self).controller == (PlaybackController {
                current_frame_index: old(self).shown_frame_index,
                ..old(self).controller
            }),
            *final(self) == (ImageWidget {
                pending_decode: None,
                controller: final(self).controller,
                ..*old(self)
            }),
    {
        self.controller.current_frame_index = self.shown_frame_index;
        self.pending_decode = None;
    }

    /// Converts the shown frame to a character grid of exactly the requested
    /// dimensions, using the widget's quality level, and counts the render;
    /// nothing else changes. Without a frame there is nothing to draw. The
    /// source-to-target ratio bound is a machine limit: it keeps the trusted
    /// resampler's floating-point rounding below half a quantisation step.
    pub fn render_ascii(&mut self, target_width: u32, target_height: u32) -> (r: Option<
        Vec<Vec<char>>,
    >)
        requires
            old(self).wf(),
            target_width <= 16384,
            target_height <= 16384,
            old(self).current_image matches Some(f) ==> (target_width > 0 && target_height > 0
                ==> f.spec_width() <= 1024 * target_width && f.spec_height() <= 1024
                * target_height),
        ensures
            final(self).wf(),
            r is Some <==> old(self).current_image is Some,
            *final(self) == (ImageWidget {
                frames_rendered: final(self).frames_rendered,
                ..*old(self)
            }),
            old(self).current_image matches Some(f) ==> (target_width > 0 && target_height > 0
                ==> (r matches Some(grid) && {
                let resampled = resample_of(
                    f.data(),
                    f.spec_width() as int,
                    f.spec_height() as int,
                    target_width as int,
                    target_height as int,
                    old(self).quality.spec_filter().spec_code(),
                );
                &&& grid@.len() == target_height
                &&& forall|y: int|
                    0 <= y < target_height ==> (#[trigger] grid@[y])@.len() == target_width
                &&& forall|y: int, x: int|
                    0 <= y < target_height && 0 <= x < target_width ==> (#[trigger] grid@[y]@[x])
                        == cell_char(
                        resampled,
                        target_width as int,
                        x,
                        y,
                        ramp_chars(old(self).quality),
                    )
            })),
    {
        match &self.current_image {
            Some(frame) => {
                let grid = ascii::convert(frame, target_width, target_height, self.quality);
                if self.frames_rendered < usize::MAX {
                    self.frames_rendered = self.frames_rendered + 1;
                }
                Some(grid)
            },
            None => None,
        }
    }
}

} // verus!
