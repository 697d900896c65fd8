//! The play-queue engine.
//!
//! The engine owns the ordered queue of tracks and drives each track's
//! timeline.  The audio sink itself lives outside the library: every
//! operation returns the `SinkAction` the caller must perform on the sink,
//! and sink observations (`is_empty`, load confirmation) come back in as
//! arguments.  The whole behaviour is written down as spec transition
//! functions over `EngineModel`, and each operation is proved to be exactly
//! its transition.
//!
//! Seeking deliberately answers `Clear` without a reload: the sink holds no
//! position memory, so the stream is reloaded lazily, at the next resume, at
//! the offset the timeline then reports (see `lemma_forward_then_resume`).

use vstd::prelude::*;
use crate::media::Media;
use crate::play_item::PlayItem;
use crate::timeline::Timeline;
use crate::config::Config;

verus! {

/// What the caller must do to the audio sink after an engine operation.
#[derive(Clone, Copy, PartialEq, Eq, Debug)]
pub enum SinkAction {
    /// Leave the sink alone.
    Nothing,
    /// Unload the sink, decode the head track anew, skip the first
    /// `offset_ms` of it and play; then report back via `confirm_loaded`
    /// whether the sink accepted the stream.
    Load { offset_ms: u64 },
    /// Pause the sink's stream.
    Pause,
    /// Resume the sink's stream.
    Resume,
    /// Unload the sink.
    Clear,
}

/// The engine's state as the contracts see it.
#[verifier::ext_equal]
pub ghost struct EngineModel {
    /// The queue; index 0 is now playing.
    pub items: Seq<PlayItem>,
    /// Output volume in percent, 0 to 100.
    pub volume: u8,
    /// A load handed to the sink whose confirmation is still outstanding,
    /// with the offset the timeline must start at once the sink confirms.
    pub pending_load_ms: Option<u64>,
}

impl EngineModel {
    /// The queue invariant: only the head item ever advances — every other
    /// item waits paused at the start of its track — and the volume is a
    /// percentage.
    pub open spec fn wf(self) -> bool {
        &&& forall|i: int|
            1 <= i < self.items.len() ==> self.items[i].timeline == (Timeline::Paused {
                accumulated_ms: 0u64,
            })
        &&& self.volume <= 100
    }
}

/// The item with its timeline freshly started at `now_ms`.
pub open spec fn started_item(item: PlayItem, now_ms: u64) -> PlayItem {
    PlayItem { media: item.media, timeline: Timeline::spec_started(now_ms) }
}

/// The item with its timeline started at `now_ms` with `d_ms` behind.
pub open spec fn offset_item(item: PlayItem, now_ms: u64, d_ms: u64) -> PlayItem {
    PlayItem { media: item.media, timeline: Timeline::spec_started_at(now_ms, d_ms) }
}

/// Play the head of the queue from its start; with an empty queue, unload
/// the sink instead.
pub open spec fn spec_play(m: EngineModel, now_ms: u64) -> (EngineModel, SinkAction) {
    if m.items.len() > 0 {
        (
            EngineModel {
                items: m.items.update(0, started_item(m.items[0], now_ms)),
                volume: m.volume,
                pending_load_ms: m.pending_load_ms,
            },
            SinkAction::Load { offset_ms: 0 },
        )
    } else {
        (m, SinkAction::Clear)
    }
}

/// Drop the head and play the next track, if any.
pub open spec fn spec_on_next(m: EngineModel, now_ms: u64) -> (EngineModel, SinkAction) {
    if m.items.len() > 0 {
        spec_play(
            EngineModel {
                items: m.items.drop_first(),
                volume: m.volume,
                pending_load_ms: m.pending_load_ms,
            },
            now_ms,
        )
    } else {
        (m, SinkAction::Nothing)
    }
}

/// One refresh tick's auto-advance check: a head whose timeline is running
/// while the sink reports empty has finished naturally, so the queue moves
/// on.
pub open spec fn spec_tick(m: EngineModel, now_ms: u64, sink_empty: bool) -> (
    EngineModel,
    SinkAction,
) {
    if m.items.len() > 0 && m.items[0].timeline.spec_is_playing() && sink_empty {
        spec_on_next(m, now_ms)
    } else {
        (m, SinkAction::Nothing)
    }
}

/// Pause the head's timeline and the sink.
pub open spec fn spec_on_pause(m: EngineModel, now_ms: u64) -> (EngineModel, SinkAction) {
    if m.items.len() > 0 {
        (
            EngineModel {
                items: m.items.update(
                    0,
                    PlayItem {
                        media: m.items[0].media,
                        timeline: m.items[0].timeline.spec_paused(now_ms),
                    },
                ),
                volume: m.volume,
                pending_load_ms: m.pending_load_ms,
            },
            SinkAction::Pause,
        )
    } else {
        (m, SinkAction::Nothing)
    }
}

/// Resume playback.  An empty sink (after a seek or a natural end) holds no
/// stream to resume, so the caller is asked to reload at the head's current
/// elapsed time and the timeline waits for the confirmation; otherwise the
/// timeline resumes and so does the sink.
pub open spec fn spec_on_play(m: EngineModel, now_ms: u64, sink_empty: bool) -> (
    EngineModel,
    SinkAction,
) {
    if m.items.len() > 0 {
        if sink_empty {
            let d = m.items[0].timeline.spec_elapsed(now_ms);
            (
                EngineModel { items: m.items, volume: m.volume, pending_load_ms: Some(d) },
                SinkAction::Load { offset_ms: d },
            )
        } else {
            (
                EngineModel {
                    items: m.items.update(
                        0,
                        PlayItem {
                            media: m.items[0].media,
                            timeline: m.items[0].timeline.spec_resumed(now_ms),
                        },
                    ),
                    volume: m.volume,
                    pending_load_ms: m.pending_load_ms,
                },
                SinkAction::Resume,
            )
        }
    } else {
        (m, SinkAction::Nothing)
    }
}

/// The sink's answer to a requested load.  On success the head's timeline
/// starts at the pending offset; on failure (the bounded reload poll ran
/// out, or the source would not decode) the timeline is left alone and the
/// engine falls back to its idle reading.  Either way the request is spent.
pub open spec fn spec_confirm_loaded(m: EngineModel, now_ms: u64, loaded: bool) -> EngineModel {
    match m.pending_load_ms {
        Some(d) => EngineModel {
            items: if loaded && m.items.len() > 0 {
                m.items.update(0, offset_item(m.items[0], now_ms, d))
            } else {
                m.items
            },
            volume: m.volume,
            pending_load_ms: None,
        },
        None => m,
    }
}

/// Toggle between pause and resume by whether the head's timeline runs.
pub open spec fn spec_on_change_pause_play(m: EngineModel, now_ms: u64, sink_empty: bool) -> (
    EngineModel,
    SinkAction,
) {
    if m.items.len() > 0 {
        if m.items[0].timeline.spec_is_playing() {
            spec_on_pause(m, now_ms)
        } else {
            spec_on_play(m, now_ms, sink_empty)
        }
    } else {
        (m, SinkAction::Nothing)
    }
}

/// Seek the head forward one step, capped at the track's duration, and
/// unload the sink; the reload waits for the next resume.
pub open spec fn spec_on_forward(m: EngineModel, now_ms: u64) -> (EngineModel, SinkAction) {
    if m.items.len() > 0 {
        (
            EngineModel {
                items: m.items.update(
                    0,
                    PlayItem {
                        media: m.items[0].media,
                        timeline: m.items[0].timeline.spec_advanced(
                            now_ms,
                            Config::FORWARD_AND_REVERSE_STEP_MS,
                            m.items[0].media->duration_ms,
                        ),
                    },
                ),
                volume: m.volume,
                pending_load_ms: m.pending_load_ms,
            },
            SinkAction::Clear,
        )
    } else {
        (m, SinkAction::Nothing)
    }
}

/// Seek the head backward one step, floored at zero, and unload the sink;
/// the reload waits for the next resume.
pub open spec fn spec_on_reverse(m: EngineModel, now_ms: u64) -> (EngineModel, SinkAction) {
    if m.items.len() > 0 {
        (
            EngineModel {
                items: m.items.update(
                    0,
                    PlayItem {
                        media: m.items[0].media,
                        timeline: m.items[0].timeline.spec_retreated(
                            now_ms,
                            Config::FORWARD_AND_REVERSE_STEP_MS,
                        ),
                    },
                ),
                volume: m.volume,
                pending_load_ms: m.pending_load_ms,
            },
            SinkAction::Clear,
        )
    } else {
        (m, SinkAction::Nothing)
    }
}

/// Move the selected non-head item to just after the head, without
/// disturbing the head's playback.
pub open spec fn spec_on_post_top(m: EngineModel, selected: int) -> EngineModel {
    if 0 < selected < m.items.len() {
        EngineModel {
            items: seq![m.items[0], m.items[selected]] + m.items.subrange(1, selected)
                + m.items.subrange(selected + 1, m.items.len() as int),
            volume: m.volume,
            pending_load_ms: m.pending_load_ms,
        }
    } else {
        m
    }
}

/// Play the selected non-head item now: it replaces the head, which is
/// discarded, and starts from offset zero.
pub open spec fn spec_on_play_now(m: EngineModel, now_ms: u64, selected: int) -> (
    EngineModel,
    SinkAction,
) {
    if 0 < selected < m.items.len() {
        spec_play(
            EngineModel {
                items: seq![m.items[selected]] + m.items.subrange(1, selected) + m.items.subrange(
                    selected + 1,
                    m.items.len() as int,
                ),
                volume: m.volume,
                pending_load_ms: m.pending_load_ms,
            },
            now_ms,
        )
    } else {
        (m, SinkAction::Nothing)
    }
}

/// Remove the selected item: removing the head means skipping to the next
/// track, removing any other item just splices it out.
pub open spec fn spec_on_remove(m: EngineModel, now_ms: u64, selected: int) -> (
    EngineModel,
    SinkAction,
) {
    if selected == 0 {
        spec_on_next(m, now_ms)
    } else if 0 < selected < m.items.len() {
        (
            EngineModel {
                items: m.items.remove(selected),
                volume: m.volume,
                pending_load_ms: m.pending_load_ms,
            },
            SinkAction::Nothing,
        )
    } else {
        (m, SinkAction::Nothing)
    }
}

/// Append a track to the queue; a track that becomes the sole item starts
/// playing at once.
pub open spec fn spec_enqueue(m: EngineModel, media: Media, now_ms: u64) -> (
    EngineModel,
    SinkAction,
) {
    let pushed = EngineModel {
        items: m.items.push(
            PlayItem { media, timeline: Timeline::Paused { accumulated_ms: 0u64 } },
        ),
        volume: m.volume,
        pending_load_ms: m.pending_load_ms,
    };
    if m.items.len() == 0 {
        spec_play(pushed, now_ms)
    } else {
        (pushed, SinkAction::Nothing)
    }
}

/// The head's elapsed time and duration; (0, 0) with an empty queue.
pub open spec fn spec_progress(m: EngineModel, now_ms: u64) -> (u64, u64) {
    if m.items.len() > 0 {
        (m.items[0].timeline.spec_elapsed(now_ms), m.items[0].media->duration_ms)
    } else {
        (0u64, 0u64)
    }
}

/// The play-queue engine; see the module text.
pub struct QueueEngine {
    /// The queue; index 0 is now playing.
    pub play_list: Vec<PlayItem>,
    /// Output volume in percent, 0 to 100.
    pub volume: u8,
    /// A load handed to the sink whose confirmation is still outstanding.
    pub pending_load_ms: Option<u64>,
}

impl View for QueueEngine {
    type V = EngineModel;

    open spec fn view(&self) -> EngineModel {
        EngineModel {
            items: self.play_list@,
            volume: self.volume,
            pending_load_ms: self.pending_load_ms,
        }
    }
}

impl QueueEngine {
    /// A fresh engine: empty queue, full volume, no outstanding load.
    pub fn new() -> (e: QueueEngine)
        ensures
            e@.items =~= Seq::<PlayItem>::empty(),
            e@.volume == 100u8,
            e@.pending_load_ms is None,
            e@.wf(),
    {
        QueueEngine { play_list: Vec::new(), volume: 100, pending_load_ms: None }
    }

    /// How many tracks are queued.
    pub fn len(&self) -> (n: usize)
        ensures
            n == self@.items.len(),
    {
        self.play_list.len()
    }

    /// The queued items, head first.
    pub fn items(&self) -> (r: &Vec<PlayItem>)
        ensures
            r@ == self@.items,
    {
        &self.play_list
    }

    /// The head item, when the queue is not empty.
    pub fn head(&self) -> (r: Option<&PlayItem>)
        ensures
            match r {
                Some(p) => self@.items.len() > 0 && *p == self@.items[0],
                None => self@.items.len() == 0,
            },
    {
        if self.play_list.len() > 0 {
            Some(&self.play_list[0])
        } else {
            None
        }
    }

    /// The output volume in percent.
    pub fn volume(&self) -> (v: u8)
        ensures
            v == self@.volume,
    {
        self.volume
    }

    /// Whether the head's timeline is running; false with an empty queue.
    pub fn is_head_playing(&self) -> (b: bool)
        ensures
            b == (self@.items.len() > 0 && self@.items[0].timeline.spec_is_playing()),
    {
        if self.play_list.len() > 0 {
            self.play_list[0].is_playing()
        } else {
            false
        }
    }

    /// The head's elapsed time and duration in milliseconds; (0, 0) with an
    /// empty queue.
    pub fn progress(&self, now_ms: u64) -> (r: (u64, u64))
        ensures
            r == spec_progress(self@, now_ms),
    {
        if self.play_list.len() > 0 {
            self.play_list[0].progress(now_ms)
        } else {
            (0, 0)
        }
    }

    /// The head track's name, or the empty string with an empty queue.
    pub fn now_playing_name(&self) -> (r: String)
        ensures
            self@.items.len() > 0 ==> r@ == self@.items[0].media->name@,
            self@.items.len() == 0 ==> r@ == Seq::<char>::empty(),
    {
        if self.play_list.len() > 0 {
            self.play_list[0].media.get_name()
        } else {
            String::new()
        }
    }

    /// The second track's name, or the empty string when there is none.
    pub fn next_play_name(&self) -> (r: String)
        ensures
            self@.items.len() > 1 ==> r@ == self@.items[1].media->name@,
            self@.items.len() <= 1 ==> r@ == Seq::<char>::empty(),
    {
        if self.play_list.len() > 1 {
            self.play_list[1].media.get_name()
        } else {
            String::new()
        }
    }

    /// Raise the volume one step, capped at 100 percent.
    pub fn on_volume_incr(&mut self)
        ensures
            final(self)@.items == old(self)@.items,
            final(self)@.pending_load_ms == old(self)@.pending_load_ms,
            final(self)@.volume == (if old(self)@.volume + Config::VOLUME_STEP_PERCENT > 100 {
                100u8
            } else {
                (old(self)@.volume + Config::VOLUME_STEP_PERCENT) as u8
            }),
    {
        self.volume = if self.volume > 100 - Config::VOLUME_STEP_PERCENT {
            100
        } else {
            self.volume + Config::VOLUME_STEP_PERCENT
        };
    }

    /// Lower the volume one step, floored at zero.
    pub fn on_volume_decr(&mut self)
        ensures
            final(self)@.items == old(self)@.items,
            final(self)@.pending_load_ms == old(self)@.pending_load_ms,
            final(self)@.volume == (if old(self)@.volume < Config::VOLUME_STEP_PERCENT {
                0u8
            } else {
                (old(self)@.volume - Config::VOLUME_STEP_PERCENT) as u8
            }),
    {
        self.volume = if self.volume < Config::VOLUME_STEP_PERCENT {
            0
        } else {
            self.volume - Config::VOLUME_STEP_PERCENT
        };
    }

    /// Play the head from its start (unload the sink when the queue is
    /// empty).
    pub fn play(&mut self, now_ms: u64) -> (a: SinkAction)
        requires
            old(self)@.wf(),
        ensures
            final(self)@.wf(),
            final(self)@ =~= spec_play(old(self)@, now_ms).0,
            a == spec_play(old(self)@, now_ms).1,
    {
        if self.play_list.len() > 0 {
            let mut head = self.play_list.remove(0);
            head.play(now_ms);
            self.play_list.insert(0, head);
            proof {
                assert(self@.items =~= old(self)@.items.update(
                    0,
                    started_item(old(self)@.items[0], now_ms),
                ));
            }
            SinkAction::Load { offset_ms: 0 }
        } else {
            SinkAction::Clear
        }
    }

    /// Drop the head and play the next track, if any.
    pub fn on_next(&mut self, now_ms: u64) -> (a: SinkAction)
        requires
            old(self)@.wf(),
        ensures
            final(self)@.wf(),
            final(self)@ =~= spec_on_next(old(self)@, now_ms).0,
            a == spec_on_next(old(self)@, now_ms).1,
    {
        if self.play_list.len() > 0 {
            self.play_list.remove(0);
            proof {
                assert(self@.items =~= old(self)@.items.drop_first());
            }
            self.play(now_ms)
        } else {
            SinkAction::Nothing
        }
    }

    /// One refresh tick: auto-advance when the head's timeline runs while
    /// the sink reports empty — the only place a natural end of track is
    /// detected.
    pub fn tick(&mut self, now_ms: u64, sink_empty: bool) -> (a: SinkAction)
        requires
            old(self)@.wf(),
        ensures
            final(self)@.wf(),
            final(self)@ =~= spec_tick(old(self)@, now_ms, sink_empty).0,
            a == spec_tick(old(self)@, now_ms, sink_empty).1,
    {
        if self.play_list.len() > 0 && self.play_list[0].is_playing() && sink_empty {
            self.on_next(now_ms)
        } else {
            SinkAction::Nothing
        }
    }

    /// Pause the head's timeline and the sink.
    pub fn on_pause(&mut self, now_ms: u64) -> (a: SinkAction)
        requires
            old(self)@.wf(),
        ensures
            final(self)@.wf(),
            final(self)@ =~= spec_on_pause(old(self)@, now_ms).0,
            a == spec_on_pause(old(self)@, now_ms).1,
    {
        if self.play_list.len() > 0 {
            let mut head = self.play_list.remove(0);
            head.pause(now_ms);
            self.play_list.insert(0, head);
            proof {
                assert(self@.items =~= spec_on_pause(old(self)@, now_ms).0.items);
            }
            SinkAction::Pause
        } else {
            SinkAction::Nothing
        }
    }

    /// Resume playback; see `spec_on_play` for the empty-sink reload.
    pub fn on_play(&mut self, now_ms: u64, sink_empty: bool) -> (a: SinkAction)
        requires
            old(self)@.wf(),
        ensures
            final(self)@.wf(),
            final(self)@ =~= spec_on_play(old(self)@, now_ms, sink_empty).0,
            a == spec_on_play(old(self)@, now_ms, sink_empty).1,
    {
        if self.play_list.len() > 0 {
            if sink_empty {
                let d = self.play_list[0].timeline.elapsed(now_ms);
                self.pending_load_ms = Some(d);
                SinkAction::Load { offset_ms: d }
            } else {
                let mut head = self.play_list.remove(0);
                head.resume(now_ms);
                self.play_list.insert(0, head);
                proof {
                    assert(self@.items =~= spec_on_play(old(self)@, now_ms, false).0.items);
                }
                SinkAction::Resume
            }
        } else {
            SinkAction::Nothing
        }
    }

    /// Take the sink's answer to a requested load; see `spec_confirm_loaded`.
    pub fn confirm_loaded(&mut self, now_ms: u64, loaded: bool)
        requires
            old(self)@.wf(),
        ensures
            final(self)@.wf(),
            final(self)@ =~= spec_confirm_loaded(old(self)@, now_ms, loaded),
    {
        match self.pending_load_ms {
            Some(d) => {
                if loaded && self.play_list.len() > 0 {
                    let mut head = self.play_list.remove(0);
                    head.play_offset(now_ms, d);
                    self.play_list.insert(0, head);
                    proof {
                        assert(self@.items =~= old(self)@.items.update(
                            0,
                            offset_item(old(self)@.items[0], now_ms, d),
                        ));
                    }
                }
                self.pending_load_ms = None;
            },
            None => {},
        }
    }

    /// Toggle between pause and resume by whether the head's timeline runs.
    pub fn on_change_pause_play(&mut self, now_ms: u64, sink_empty: bool) -> (a: SinkAction)
        requires
            old(self)@.wf(),
        ensures
            final(self)@.wf(),
            final(self)@ =~= spec_on_change_pause_play(old(self)@, now_ms, sink_empty).0,
            a == spec_on_change_pause_play(old(self)@, now_ms, sink_empty).1,
    {
        if self.play_list.len() > 0 {
            if self.play_list[0].is_playing() {
                self.on_pause(now_ms)
            } else {
                self.on_play(now_ms, sink_empty)
            }
        } else {
            SinkAction::Nothing
        }
    }

    /// Seek the head forward one step and unload the sink.
    pub fn on_forward(&mut self, now_ms: u64) -> (a: SinkAction)
        requires
            old(self)@.wf(),
        ensures
            final(self)@.wf(),
            final(self)@ =~= spec_on_forward(old(self)@, now_ms).0,
            a == spec_on_forward(old(self)@, now_ms).1,
    {
        if self.play_list.len() > 0 {
            let mut head = self.play_list.remove(0);
            head.forward(now_ms);
            self.play_list.insert(0, head);
            proof {
                assert(self@.items =~= spec_on_forward(old(self)@, now_ms).0.items);
            }
            SinkAction::Clear
        } else {
            SinkAction::Nothing
        }
    }

    /// Seek the head backward one step and unload the sink.
    pub fn on_reverse(&mut self, now_ms: u64) -> (a: SinkAction)
        requires
            old(self)@.wf(),
        ensures
            final(self)@.wf(),
            final(self)@ =~= spec_on_reverse(old(self)@, now_ms).0,
            a == spec_on_reverse(old(self)@, now_ms).1,
    {
        if self.play_list.len() > 0 {
            let mut head = self.play_list.remove(0);
            head.reverse(now_ms);
            self.play_list.insert(0, head);
            proof {
                assert(self@.items =~= spec_on_reverse(old(self)@, now_ms).0.items);
            }
            SinkAction::Clear
        } else {
            SinkAction::Nothing
        }
    }

    /// Move the selected non-head item to just after the head.
    pub fn on_post_top_play_list(&mut self, selected: usize)
        requires
            old(self)@.wf(),
        ensures
            final(self)@.wf(),
            final(self)@ =~= spec_on_post_top(old(self)@, selected as int),
    {
        if 0 < selected && selected < self.play_list.len() {
            let item = self.play_list.remove(selected);
            self.play_list.insert(1, item);
            proof {
                assert(self@.items =~= spec_on_post_top(old(self)@, selected as int).items);
            }
        }
    }

    /// Play the selected non-head item now, discarding the current head.
    pub fn on_play_now_play_list(&mut self, now_ms: u64, selected: usize) -> (a: SinkAction)
        requires
            old(self)@.wf(),
        ensures
            final(self)@.wf(),
            final(self)@ =~= spec_on_play_now(old(self)@, now_ms, selected as int).0,
            a == spec_on_play_now(old(self)@, now_ms, selected as int).1,
    {
        if 0 < selected && selected < self.play_list.len() {
            let item = self.play_list.remove(selected);
            self.play_list.remove(0);
            self.play_list.insert(0, item);
            proof {
                assert(self@.items =~= seq![old(self)@.items[selected as int]] + old(
                    self,
                )@.items.subrange(1, selected as int) + old(self)@.items.subrange(
                    selected as int + 1,
                    old(self)@.items.len() as int,
                ));
            }
            self.play(now_ms)
        } else {
            SinkAction::Nothing
        }
    }

    /// Remove the selected item; removing the head skips to the next track.
    pub fn on_remove_from_play_list(&mut self, now_ms: u64, selected: usize) -> (a: SinkAction)
        requires
            old(self)@.wf(),
        ensures
            final(self)@.wf(),
            final(self)@ =~= spec_on_remove(old(self)@, now_ms, selected as int).0,
            a == spec_on_remove(old(self)@, now_ms, selected as int).1,
    {
        if selected == 0 {
            self.on_next(now_ms)
        } else if selected < self.play_list.len() {
            self.play_list.remove(selected);
            proof {
                assert(self@.items =~= old(self)@.items.remove(selected as int));
            }
            SinkAction::Nothing
        } else {
            SinkAction::Nothing
        }
    }

    /// Append a track to the queue; a track that becomes the sole item
    /// starts playing at once.
    pub fn add_local_file_to_play_list(&mut self, media: Media, now_ms: u64) -> (a: SinkAction)
        requires
            old(self)@.wf(),
        ensures
            final(self)@.wf(),
            final(self)@ =~= spec_enqueue(old(self)@, media, now_ms).0,
            a == spec_enqueue(old(self)@, media, now_ms).1,
    {
        let was_empty = self.play_list.len() == 0;
        self.play_list.push(PlayItem::new(media));
        if was_empty {
            self.play(now_ms)
        } else {
            SinkAction::Nothing
        }
    }
}


/// Law (auto-advance): on a tick where the head's timeline runs while the
/// sink reports empty, the head leaves the queue, the next track becomes the
/// head with a freshly started timeline — elapsed 0 at the tick's clock
/// reading — and the sink is asked to load it at offset zero.
pub proof fn lemma_auto_advance(m: EngineModel, now_ms: u64)
    requires
        m.items.len() == 2,
        m.items[0].timeline.spec_is_playing(),
    ensures
        spec_tick(m, now_ms, true).0.items =~= seq![started_item(m.items[1], now_ms)],
        spec_tick(m, now_ms, true).0.items[0].timeline.spec_elapsed(now_ms) == 0,
        spec_tick(m, now_ms, true).1 == (SinkAction::Load { offset_ms: 0u64 }),
{
    assert(m.items.drop_first().update(0, started_item(m.items[1], now_ms)) =~= seq![
        started_item(m.items[1], now_ms),
    ]);
}

/// Law (play-now): playing the item at `selected` now puts that item,
/// restarted from offset zero, at the head; the old head is discarded, not
/// requeued — the queue shrinks by one and keeps exactly the other items in
/// their order — and the sink is asked to load at offset zero.
pub proof fn lemma_play_now(m: EngineModel, now_ms: u64, selected: int)
    requires
        0 < selected < m.items.len(),
    ensures
        spec_on_play_now(m, now_ms, selected).0.items =~= seq![
            started_item(m.items[selected], now_ms),
        ] + m.items.subrange(1, selected) + m.items.subrange(
            selected + 1,
            m.items.len() as int,
        ),
        spec_on_play_now(m, now_ms, selected).0.items.len() == m.items.len() - 1,
        spec_on_play_now(m, now_ms, selected).1 == (SinkAction::Load { offset_ms: 0u64 }),
{
    let gathered = seq![m.items[selected]] + m.items.subrange(1, selected) + m.items.subrange(
        selected + 1,
        m.items.len() as int,
    );
    assert(gathered.update(0, started_item(gathered[0], now_ms)) =~= seq![
        started_item(m.items[selected], now_ms),
    ] + m.items.subrange(1, selected) + m.items.subrange(selected + 1, m.items.len() as int));
}

/// Law (seek then resume): a forward seek answers `Clear` and leaves the
/// sink unloaded, so a resume straight after it — the sink still empty —
/// asks for a reload at the head's new offset, the seek target
/// min(duration, elapsed + step), not at the pre-seek position.
pub proof fn lemma_forward_then_resume(m: EngineModel, seek_ms: u64, resume_ms: u64)
    requires
        m.items.len() > 0,
    ensures
        spec_on_forward(m, seek_ms).1 == SinkAction::Clear,
        ({
            let after_seek = spec_on_forward(m, seek_ms).0;
            let target = after_seek.items[0].timeline.spec_elapsed(resume_ms);
            &&& spec_on_play(after_seek, resume_ms, true).1 == (SinkAction::Load {
                offset_ms: target,
            })
            &&& target as int == vstd::math::min(
                m.items[0].media->duration_ms as int,
                m.items[0].timeline.spec_elapsed(seek_ms).saturating_add(
                    Config::FORWARD_AND_REVERSE_STEP_MS,
                ) as int,
            )
        }),
{
}

} // verus!
