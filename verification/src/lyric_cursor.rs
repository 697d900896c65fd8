//! Picks the lyric line to highlight and the lines to show around it.
//!
//! Given the elapsed play time, a time-ordered lyric track and the number of
//! lines the viewport can hold, the cursor finds the first entry whose
//! timestamp is at or past the elapsed time; the entry before it is the
//! active line (the last line when no such entry exists); on a time-ordered
//! track, as `Lyrics::from_string` yields, that is the last line already
//! reached.  Around the active line it lays a window of at most the
//! viewport's lines, biased one row upward when the viewport is odd and
//! clamped to the track.

use vstd::prelude::*;
use crate::lyrics::Lyrics;

verus! {

/// A display window into a lyric track: the lines `start..=end` are shown,
/// and the line at offset `selected` within them is highlighted.
#[derive(Clone, Copy, PartialEq, Eq, Debug)]
pub struct LyricWindow {
    /// Index of the first shown line.
    pub start: usize,
    /// Index of the last shown line.
    pub end: usize,
    /// Offset of the highlighted line within the shown lines.
    pub selected: usize,
}

/// The timestamps of a lyric track.
pub open spec fn times_of(track: Seq<(u64, Seq<char>)>) -> Seq<u64> {
    track.map_values(|e: (u64, Seq<char>)| e.0)
}

/// The least index at or after `i` whose timestamp is at or past `t`, or the
/// track's length when there is none.
pub open spec fn first_at_or_after_from(times: Seq<u64>, t: u64, i: int) -> int
    decreases times.len() - i,
    when 0 <= i <= times.len()
{
    if i >= times.len() || times[i] >= t {
        i
    } else {
        first_at_or_after_from(times, t, i + 1)
    }
}

/// The least index whose timestamp is at or past `t`, or the track's length
/// when there is none.  The active line sits just before it.
pub open spec fn first_at_or_after(times: Seq<u64>, t: u64) -> int {
    first_at_or_after_from(times, t, 0)
}

/// The window around the split index `mid` in a track of `len` lines shown
/// in `viewport` lines: its first line, its last line, and the highlighted
/// offset.  The rows above `mid` get the odd extra line, and the window
/// never holds more than `viewport` rows.
pub open spec fn spec_window(len: int, viewport: int, mid: int) -> (int, int, int) {
    let top = if viewport % 2 == 0 {
        viewport / 2
    } else {
        viewport / 2 + 1
    };
    let bottom = viewport / 2;
    let start = if mid - top < 0 {
        0
    } else {
        mid - top
    };
    let reach = if mid + bottom < len - 1 {
        mid + bottom
    } else {
        len - 1
    };
    let end = if reach > start + viewport - 1 {
        start + viewport - 1
    } else {
        reach
    };
    let selected = if mid - start - 1 < 0 {
        0
    } else {
        mid - start - 1
    };
    (start, end, selected)
}

/// Lay the display window of a lyric track for the given elapsed time.
/// There is a window if and only if the track has lines and the viewport has
/// room; it is exactly `spec_window` at the split index, it lies inside the
/// track, holds at most `viewport_lines` rows, and highlights the active
/// line whenever that line is inside the window.
pub fn lyric_window(lyrics: &Lyrics, current_ms: u64, viewport_lines: usize) -> (w: Option<
    LyricWindow,
>)
    ensures
        w is Some <==> lyrics.list@.len() > 0 && viewport_lines > 0,
        w matches Some(win) ==> {
            let mid = first_at_or_after(times_of(lyrics@), current_ms);
            &&& (win.start as int, win.end as int, win.selected as int) == spec_window(
                lyrics.list@.len() as int,
                viewport_lines as int,
                mid,
            )
            &&& win.start <= win.end < lyrics.list@.len()
            &&& win.end - win.start < viewport_lines
            &&& win.start < mid ==> win.start + win.selected + 1 == mid
        },
{
    let len = lyrics.list.len();
    if len == 0 || viewport_lines == 0 {
        return None;
    }
    let ghost times = times_of(lyrics@);
    proof {
        assert(times.len() == lyrics.list@.len());
    }
    let mut mid: usize = 0;
    while mid < len && lyrics.list[mid].time_ms < current_ms
        invariant
            0 <= mid <= len == lyrics.list@.len(),
            times == times_of(lyrics@),
            first_at_or_after(times, current_ms) == first_at_or_after_from(
                times,
                current_ms,
                mid as int,
            ),
        decreases len - mid,
    {
        proof {
            assert(times[mid as int] == lyrics.list@[mid as int].time_ms);
        }
        mid += 1;
    }
    proof {
        if mid < len {
            assert(times[mid as int] == lyrics.list@[mid as int].time_ms);
        }
        assert(first_at_or_after(times, current_ms) == mid as int);
    }
    let half = viewport_lines / 2;
    let top = if viewport_lines % 2 == 0 {
        half
    } else {
        half + 1
    };
    let bottom = half;
    let start = if mid >= top {
        mid - top
    } else {
        0
    };
    let reach = if mid < len && bottom <= (len - 1) - mid {
        mid + bottom
    } else {
        len - 1
    };
    let end = if reach - start > viewport_lines - 1 {
        start + (viewport_lines - 1)
    } else {
        reach
    };
    let selected = if mid >= start + 1 {
        mid - start - 1
    } else {
        0
    };
    Some(LyricWindow { start, end, selected })
}

} // verus!
