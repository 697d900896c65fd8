//! A queued track paired with its timeline.
//!
//! The queue owns each `PlayItem`; only the head item's timeline ever
//! advances.  Every operation takes the current clock reading and maps
//! exactly to one timeline transition, with the track itself untouched.

use vstd::prelude::*;
use crate::config::Config;
use crate::media::Media;
use crate::timeline::Timeline;

verus! {

/// One entry of the play queue: a track and its play position.
#[derive(Clone, PartialEq, Eq, Debug)]
pub struct PlayItem {
    pub media: Media,
    pub timeline: Timeline,
}

impl PlayItem {
    /// Queue a track: its timeline starts paused at the beginning.
    pub fn new(media: Media) -> (p: PlayItem)
        ensures
            p.media == media,
            p.timeline == (Timeline::Paused { accumulated_ms: 0u64 }),
    {
        PlayItem { media, timeline: Timeline::new() }
    }

    /// Begin playing the track from its start.
    pub fn play(&mut self, now_ms: u64)
        ensures
            final(self).media == old(self).media,
            final(self).timeline == Timeline::spec_started(now_ms),
    {
        self.timeline.start(now_ms);
    }

    /// Begin playing the track with `d_ms` of it already behind.
    pub fn play_offset(&mut self, now_ms: u64, d_ms: u64)
        ensures
            final(self).media == old(self).media,
            final(self).timeline == Timeline::spec_started_at(now_ms, d_ms),
    {
        self.timeline.start_at(now_ms, d_ms);
    }

    /// Pause the track's timeline.
    pub fn pause(&mut self, now_ms: u64)
        ensures
            final(self).media == old(self).media,
            final(self).timeline == old(self).timeline.spec_paused(now_ms),
    {
        self.timeline.pause(now_ms);
    }

    /// Resume the track's timeline.
    pub fn resume(&mut self, now_ms: u64)
        ensures
            final(self).media == old(self).media,
            final(self).timeline == old(self).timeline.spec_resumed(now_ms),
    {
        self.timeline.resume(now_ms);
    }

    /// Seek forward by the configured step, capped at the track's duration.
    pub fn forward(&mut self, now_ms: u64)
        ensures
            final(self).media == old(self).media,
            final(self).timeline == old(self).timeline.spec_advanced(
                now_ms,
                Config::FORWARD_AND_REVERSE_STEP_MS,
                old(self).media->duration_ms,
            ),
    {
        let cap = self.media.get_duration();
        self.timeline.advance_by(now_ms, Config::FORWARD_AND_REVERSE_STEP_MS, cap);
    }

    /// Seek backward by the configured step, floored at zero.
    pub fn reverse(&mut self, now_ms: u64)
        ensures
            final(self).media == old(self).media,
            final(self).timeline == old(self).timeline.spec_retreated(
                now_ms,
                Config::FORWARD_AND_REVERSE_STEP_MS,
            ),
    {
        self.timeline.retreat_by(now_ms, Config::FORWARD_AND_REVERSE_STEP_MS);
    }

    /// The track's elapsed play time and its duration, in milliseconds.
    pub fn progress(&self, now_ms: u64) -> (r: (u64, u64))
        ensures
            r.0 == self.timeline.spec_elapsed(now_ms),
            r.1 == self.media->duration_ms,
    {
        (self.timeline.elapsed(now_ms), self.media.get_duration())
    }

    /// Whether the track's timeline is running.
    pub fn is_playing(&self) -> (b: bool)
        ensures
            b == self.timeline.spec_is_playing(),
    {
        self.timeline.is_playing()
    }
}

} // verus!
