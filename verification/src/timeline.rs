//! Per-track elapsed-time model.
//!
//! A `Timeline` records how far into a track playback has come without
//! keeping a live counter: while playing it stores the clock reading at
//! which playback (re)started plus the time accumulated before that start;
//! while paused it stores only the accumulated time.  Every operation takes
//! the current clock reading in milliseconds as an argument, so the whole
//! type is a pure value and `elapsed` is a side-effect-free query.
//!
//! All arithmetic saturates, so no operation can panic; a caller with a
//! monotone clock gets exact answers (see `lemma_run_monotone`).

use vstd::prelude::*;

verus! {

/// One track's play position.
#[derive(Clone, Copy, PartialEq, Eq, Debug)]
pub enum Timeline {
    /// Playback is running: it (re)started at clock reading `start_ms`,
    /// with `accumulated_ms` of the track already played before that.
    Playing { start_ms: u64, accumulated_ms: u64 },
    /// Playback is paused after `accumulated_ms` of the track.
    Paused { accumulated_ms: u64 },
}

/// The pause/resume alphabet of the timeline, used to state laws about
/// arbitrary call sequences.
pub enum TimelineOp {
    Pause,
    Resume,
}

impl Timeline {
    /// How far into the track playback is at clock reading `now_ms`.
    pub open spec fn spec_elapsed(self, now_ms: u64) -> u64 {
        match self {
            Timeline::Playing { start_ms, accumulated_ms } => accumulated_ms.saturating_add(
                now_ms.saturating_sub(start_ms),
            ),
            Timeline::Paused { accumulated_ms } => accumulated_ms,
        }
    }

    /// The timeline of a track that begins playing from its start at `now_ms`.
    pub open spec fn spec_started(now_ms: u64) -> Timeline {
        Timeline::Playing { start_ms: now_ms, accumulated_ms: 0 }
    }

    /// The timeline of a track that begins playing at `now_ms` with
    /// `offset_ms` of it already behind.
    pub open spec fn spec_started_at(now_ms: u64, offset_ms: u64) -> Timeline {
        Timeline::Playing { start_ms: now_ms, accumulated_ms: offset_ms }
    }

    /// The timeline after a pause at `now_ms`: the elapsed time collapses
    /// into the accumulated value.  Pausing a paused timeline changes nothing.
    pub open spec fn spec_paused(self, now_ms: u64) -> Timeline {
        Timeline::Paused { accumulated_ms: self.spec_elapsed(now_ms) }
    }

    /// The timeline after a resume at `now_ms`.  Resuming a playing timeline
    /// changes nothing.
    pub open spec fn spec_resumed(self, now_ms: u64) -> Timeline {
        match self {
            Timeline::Paused { accumulated_ms } => Timeline::Playing {
                start_ms: now_ms,
                accumulated_ms,
            },
            playing => playing,
        }
    }

    /// The timeline after a forward seek at `now_ms` by `step_ms`, capped at
    /// `cap_ms` (the track duration): paused at min(cap, elapsed + step).
    pub open spec fn spec_advanced(self, now_ms: u64, step_ms: u64, cap_ms: u64) -> Timeline {
        let target = self.spec_elapsed(now_ms).saturating_add(step_ms);
        Timeline::Paused { accumulated_ms: if target > cap_ms { cap_ms } else { target } }
    }

    /// The timeline after a backward seek at `now_ms` by `step_ms`, floored
    /// at zero: paused at elapsed - step.
    pub open spec fn spec_retreated(self, now_ms: u64, step_ms: u64) -> Timeline {
        Timeline::Paused { accumulated_ms: self.spec_elapsed(now_ms).saturating_sub(step_ms) }
    }

    /// Whether playback is running.
    pub open spec fn spec_is_playing(self) -> bool {
        self is Playing
    }

    /// A fresh timeline: paused at the start of the track.
    pub fn new() -> (t: Timeline)
        ensures
            t == (Timeline::Paused { accumulated_ms: 0u64 }),
    {
        Timeline::Paused { accumulated_ms: 0 }
    }

    /// Begin playing from the start of the track.
    pub fn start(&mut self, now_ms: u64)
        ensures
            *final(self) == Timeline::spec_started(now_ms),
            final(self).spec_elapsed(now_ms) == 0,
    {
        *self = Timeline::Playing { start_ms: now_ms, accumulated_ms: 0 };
    }

    /// Begin playing with `offset_ms` of the track already behind, as after
    /// reloading the sink at a seek target.
    pub fn start_at(&mut self, now_ms: u64, offset_ms: u64)
        ensures
            *final(self) == Timeline::spec_started_at(now_ms, offset_ms),
            final(self).spec_elapsed(now_ms) == offset_ms,
    {
        *self = Timeline::Playing { start_ms: now_ms, accumulated_ms: offset_ms };
    }

    /// Pause: collapse the running elapsed time into the accumulated value.
    /// No-op when already paused.
    pub fn pause(&mut self, now_ms: u64)
        ensures
            *final(self) == old(self).spec_paused(now_ms),
            final(self).spec_elapsed(now_ms) == old(self).spec_elapsed(now_ms),
            !final(self).spec_is_playing(),
    {
        match *self {
            Timeline::Playing { start_ms, accumulated_ms } => {
                *self = Timeline::Paused {
                    accumulated_ms: accumulated_ms.saturating_add(now_ms.saturating_sub(start_ms)),
                };
            },
            Timeline::Paused { .. } => {},
        }
    }

    /// Resume a paused timeline at `now_ms`.  No-op when already playing.
    pub fn resume(&mut self, now_ms: u64)
        ensures
            *final(self) == old(self).spec_resumed(now_ms),
            final(self).spec_elapsed(now_ms) == old(self).spec_elapsed(now_ms),
    {
        match *self {
            Timeline::Paused { accumulated_ms } => {
                *self = Timeline::Playing { start_ms: now_ms, accumulated_ms };
            },
            Timeline::Playing { .. } => {},
        }
    }

    /// Forward seek: pause, then move the position `step_ms` ahead, capped
    /// at `cap_ms`.  Afterwards the elapsed time never exceeds `cap_ms`.
    pub fn advance_by(&mut self, now_ms: u64, step_ms: u64, cap_ms: u64)
        ensures
            *final(self) == old(self).spec_advanced(now_ms, step_ms, cap_ms),
            !final(self).spec_is_playing(),
            forall|n: u64| final(self).spec_elapsed(n) <= cap_ms,
    {
        self.pause(now_ms);
        match *self {
            Timeline::Paused { accumulated_ms } => {
                let target = accumulated_ms.saturating_add(step_ms);
                *self = Timeline::Paused {
                    accumulated_ms: if target > cap_ms {
                        cap_ms
                    } else {
                        target
                    },
                };
            },
            Timeline::Playing { .. } => {},
        }
    }

    /// Backward seek: pause, then move the position `step_ms` back, floored
    /// at zero.
    pub fn retreat_by(&mut self, now_ms: u64, step_ms: u64)
        ensures
            *final(self) == old(self).spec_retreated(now_ms, step_ms),
            !final(self).spec_is_playing(),
            final(self).spec_elapsed(now_ms) == old(self).spec_elapsed(now_ms).saturating_sub(
                step_ms,
            ),
    {
        self.pause(now_ms);
        match *self {
            Timeline::Paused { accumulated_ms } => {
                *self = Timeline::Paused { accumulated_ms: accumulated_ms.saturating_sub(step_ms) };
            },
            Timeline::Playing { .. } => {},
        }
    }

    /// How far into the track playback is at clock reading `now_ms`.
    pub fn elapsed(&self, now_ms: u64) -> (d: u64)
        ensures
            d == self.spec_elapsed(now_ms),
    {
        match *self {
            Timeline::Playing { start_ms, accumulated_ms } => accumulated_ms.saturating_add(
                now_ms.saturating_sub(start_ms),
            ),
            Timeline::Paused { accumulated_ms } => accumulated_ms,
        }
    }

    /// Whether playback is running.
    pub fn is_playing(&self) -> (b: bool)
        ensures
            b == self.spec_is_playing(),
    {
        match *self {
            Timeline::Playing { .. } => true,
            Timeline::Paused { .. } => false,
        }
    }

    /// One pause or resume call, as a value.
    pub open spec fn spec_step(self, op: TimelineOp, now_ms: u64) -> Timeline {
        match op {
            TimelineOp::Pause => self.spec_paused(now_ms),
            TimelineOp::Resume => self.spec_resumed(now_ms),
        }
    }

    /// A whole sequence of pause/resume calls, each paired with the clock
    /// reading at which it was made.
    pub open spec fn spec_run(self, ops: Seq<(TimelineOp, u64)>) -> Timeline
        decreases ops.len(),
    {
        if ops.len() == 0 {
            self
        } else {
            self.spec_step(ops[0].0, ops[0].1).spec_run(ops.drop_first())
        }
    }
}

/// Whether the clock readings of `ops` are non-decreasing and all at or
/// after `lo_ms`, as they are under a monotone clock.
pub open spec fn times_ordered(ops: Seq<(TimelineOp, u64)>, lo_ms: u64) -> bool
    decreases ops.len(),
{
    ops.len() == 0 || (lo_ms <= ops[0].1 && times_ordered(ops.drop_first(), ops[0].1))
}

/// At a fixed timeline state, the elapsed time never decreases as the clock
/// moves forward.
pub proof fn lemma_elapsed_monotone(t: Timeline, n1_ms: u64, n2_ms: u64)
    requires
        n1_ms <= n2_ms,
    ensures
        t.spec_elapsed(n1_ms) <= t.spec_elapsed(n2_ms),
{
}

/// Under a monotone clock the last call of a non-empty sequence is no
/// earlier than the lower bound.
proof fn lemma_times_ordered_last(ops: Seq<(TimelineOp, u64)>, lo_ms: u64)
    requires
        times_ordered(ops, lo_ms),
        ops.len() > 0,
    ensures
        lo_ms <= ops.last().1,
    decreases ops.len(),
{
    if ops.len() > 1 {
        lemma_times_ordered_last(ops.drop_first(), ops[0].1);
        assert(ops.drop_first().last() == ops.last());
    }
}

/// Law: across any sequence of pause and resume calls made under a monotone
/// clock, the elapsed time is non-decreasing — a reading after the calls, at
/// or past the last call, is at least a reading from before them.
pub proof fn lemma_run_monotone(
    t: Timeline,
    ops: Seq<(TimelineOp, u64)>,
    n1_ms: u64,
    n2_ms: u64,
)
    requires
        n1_ms <= n2_ms,
        times_ordered(ops, n1_ms),
        ops.len() > 0 ==> ops.last().1 <= n2_ms,
    ensures
        t.spec_elapsed(n1_ms) <= t.spec_run(ops).spec_elapsed(n2_ms),
    decreases ops.len(),
{
    if ops.len() > 0 {
        let t1 = t.spec_step(ops[0].0, ops[0].1);
        assert(t.spec_elapsed(n1_ms) <= t1.spec_elapsed(ops[0].1));
        if ops.len() > 1 {
            lemma_times_ordered_last(ops.drop_first(), ops[0].1);
            assert(ops.drop_first().last() == ops.last());
        }
        lemma_run_monotone(t1, ops.drop_first(), ops[0].1, n2_ms);
    }
}

/// Law: a second pause is a no-op — elapsed time is unaffected by how often
/// pause is called.
pub proof fn lemma_pause_idempotent(t: Timeline, n1_ms: u64, n2_ms: u64)
    ensures
        t.spec_paused(n1_ms).spec_paused(n2_ms) == t.spec_paused(n1_ms),
{
}

/// Law: a second resume is a no-op — elapsed time is unaffected by how often
/// resume is called.
pub proof fn lemma_resume_idempotent(t: Timeline, n1_ms: u64, n2_ms: u64)
    ensures
        t.spec_resumed(n1_ms).spec_resumed(n2_ms) == t.spec_resumed(n1_ms),
{
}

/// Law: pausing and then resuming at the same clock reading leaves the
/// elapsed time exactly as it was just before the pause.
pub proof fn lemma_pause_resume_roundtrip(t: Timeline, now_ms: u64)
    ensures
        t.spec_paused(now_ms).spec_resumed(now_ms).spec_elapsed(now_ms) == t.spec_elapsed(now_ms),
{
}

} // verus!
