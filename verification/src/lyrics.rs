//! Synchronized lyrics and the LRC text format.
//!
//! An LRC text is a stream of characters holding tokens of the shape
//! `[mm:ss.ms]text`: a `[`, a run of minute digits, a `:`, a run of second
//! digits, one separator character, a run of millisecond digits, a `]`, and
//! then the line's text, which runs until the next `[` or `]`.  Characters
//! that fit no token are skipped.  Seconds are clamped to 0..=59 and
//! milliseconds to 0..=999; a digit run too large for `u64` reads as 0, the
//! way `str::parse::<u64>` with a fallback of 0 reads it.
//!
//! The grammar is written down as spec functions over `Seq<char>`
//! (`spec_parse_lrc`), and `Lyrics::from_string` is proved to return exactly
//! that parse, stably reordered by timestamp (`sort_by_time`): a lyric track
//! is ordered by non-decreasing time, and lines that share a timestamp keep
//! their textual order.

use vstd::prelude::*;
use vstd::string::StrSliceExecFns;

verus! {

/// One synchronized lyric line.
#[derive(Clone, PartialEq, Eq, Debug)]
pub struct Lyric {
    /// Play position at which the line becomes active, in milliseconds.
    pub time_ms: u64,
    /// The line's text.
    pub content: String,
}

impl View for Lyric {
    type V = (u64, Seq<char>);

    open spec fn view(&self) -> (u64, Seq<char>) {
        (self.time_ms, self.content@)
    }
}

/// A lyric track: the lines of one track, ordered by non-decreasing
/// timestamp.
#[derive(Clone, PartialEq, Eq, Debug)]
pub struct Lyrics {
    pub list: Vec<Lyric>,
}

impl View for Lyrics {
    type V = Seq<(u64, Seq<char>)>;

    open spec fn view(&self) -> Seq<(u64, Seq<char>)> {
        self.list@.map_values(|l: Lyric| l@)
    }
}

/// A decimal digit.
pub open spec fn is_lrc_digit(c: char) -> bool {
    '0' as u32 <= c as u32 && c as u32 <= '9' as u32
}

/// A character that may stand in a lyric line's text: anything but the
/// brackets that open and close a timestamp.
pub open spec fn is_content_char(c: char) -> bool {
    c != '[' && c != ']'
}

/// Where the maximal run of digits starting at `i` ends.
pub open spec fn digit_run_end(s: Seq<char>, i: int) -> int
    decreases s.len() - i,
    when 0 <= i <= s.len()
{
    if i >= s.len() || !is_lrc_digit(s[i]) {
        i
    } else {
        digit_run_end(s, i + 1)
    }
}

/// Where the maximal run of text characters starting at `i` ends.
pub open spec fn content_run_end(s: Seq<char>, i: int) -> int
    decreases s.len() - i,
    when 0 <= i <= s.len()
{
    if i >= s.len() || !is_content_char(s[i]) {
        i
    } else {
        content_run_end(s, i + 1)
    }
}

/// A maximal digit run stays inside the text and moves only forward.
pub proof fn lemma_digit_run_end_bounds(s: Seq<char>, i: int)
    requires
        0 <= i <= s.len(),
    ensures
        i <= digit_run_end(s, i) <= s.len(),
    decreases s.len() - i,
{
    if !(i >= s.len() || !is_lrc_digit(s[i])) {
        lemma_digit_run_end_bounds(s, i + 1);
    }
}

/// A maximal text run stays inside the text and moves only forward.
pub proof fn lemma_content_run_end_bounds(s: Seq<char>, i: int)
    requires
        0 <= i <= s.len(),
    ensures
        i <= content_run_end(s, i) <= s.len(),
    decreases s.len() - i,
{
    if !(i >= s.len() || !is_content_char(s[i])) {
        lemma_content_run_end_bounds(s, i + 1);
    }
}

/// The numeric value of a digit string, read in base ten.
pub open spec fn digits_val(s: Seq<char>) -> nat
    decreases s.len(),
{
    if s.len() == 0 {
        0
    } else {
        digits_val(s.drop_last()) * 10 + (s.last() as u32 - '0' as u32) as nat
    }
}

/// The value of a digit run as `u64`, the way `str::parse::<u64>` with a
/// fallback of 0 reads it: a run too large for `u64` reads as 0.
pub open spec fn parsed_field(s: Seq<char>) -> u64 {
    if digits_val(s) > u64::MAX {
        0
    } else {
        digits_val(s) as u64
    }
}

/// The timestamp of a token, in milliseconds: seconds clamped to 0..=59,
/// milliseconds to 0..=999, the total saturated at `u64::MAX`.
pub open spec fn lrc_time_ms(min: u64, sec: u64, ms: u64) -> u64 {
    let sec_c = if sec > 59 { 59 as u64 } else { sec };
    let ms_c = if ms > 999 { 999 as u64 } else { ms };
    let total = min * 60000 + sec_c * 1000 + ms_c;
    if total > u64::MAX {
        u64::MAX
    } else {
        total as u64
    }
}

/// End of the minute digit run of a token opened at `i`.
pub open spec fn min_run_end(s: Seq<char>, i: int) -> int {
    digit_run_end(s, i + 1)
}

/// End of the second digit run of a token opened at `i`.
pub open spec fn sec_run_end(s: Seq<char>, i: int) -> int {
    digit_run_end(s, min_run_end(s, i) + 1)
}

/// End of the millisecond digit run of a token opened at `i`.
pub open spec fn ms_run_end(s: Seq<char>, i: int) -> int {
    digit_run_end(s, sec_run_end(s, i) + 1)
}

/// End of the text of a token opened at `i`, which is also where parsing
/// continues.
pub open spec fn token_end(s: Seq<char>, i: int) -> int {
    content_run_end(s, ms_run_end(s, i) + 1)
}

/// Whether a timestamp token `[mm:ss.ms]` opens at position `i`: a `[`, a
/// non-empty minute digit run, a `:`, a non-empty second digit run, one
/// separator character, a non-empty millisecond digit run, and a `]`.
pub open spec fn token_matches(s: Seq<char>, i: int) -> bool {
    &&& 0 <= i < s.len()
    &&& s[i] == '['
    &&& min_run_end(s, i) > i + 1
    &&& min_run_end(s, i) < s.len()
    &&& s[min_run_end(s, i)] == ':'
    &&& sec_run_end(s, i) > min_run_end(s, i) + 1
    &&& sec_run_end(s, i) < s.len()
    &&& ms_run_end(s, i) > sec_run_end(s, i) + 1
    &&& ms_run_end(s, i) < s.len()
    &&& s[ms_run_end(s, i)] == ']'
}

/// The entry a token opened at `i` parses to: its timestamp and its text.
pub open spec fn token_entry(s: Seq<char>, i: int) -> (u64, Seq<char>) {
    let time = lrc_time_ms(
        parsed_field(s.subrange(i + 1, min_run_end(s, i))),
        parsed_field(s.subrange(min_run_end(s, i) + 1, sec_run_end(s, i))),
        parsed_field(s.subrange(sec_run_end(s, i) + 1, ms_run_end(s, i))),
    );
    (time, s.subrange(ms_run_end(s, i) + 1, token_end(s, i)))
}

/// The entries parsed from `s` at and after position `i`: at each position a
/// token either opens, contributing an entry and skipping to its end, or the
/// position is skipped.
pub open spec fn spec_parse_lrc(s: Seq<char>, i: int) -> Seq<(u64, Seq<char>)>
    decreases s.len() - i,
    when 0 <= i <= s.len()
    via spec_parse_lrc_decreases
{
    if i >= s.len() {
        Seq::empty()
    } else if token_matches(s, i) {
        seq![token_entry(s, i)] + spec_parse_lrc(s, token_end(s, i))
    } else {
        spec_parse_lrc(s, i + 1)
    }
}

#[via_fn]
proof fn spec_parse_lrc_decreases(s: Seq<char>, i: int) {
    if i < s.len() && token_matches(s, i) {
        lemma_digit_run_end_bounds(s, i + 1);
        lemma_digit_run_end_bounds(s, min_run_end(s, i) + 1);
        lemma_digit_run_end_bounds(s, sec_run_end(s, i) + 1);
        lemma_content_run_end_bounds(s, ms_run_end(s, i) + 1);
    }
}

/// Ordered by non-decreasing timestamp, as a lyric track must be.
pub open spec fn sorted_by_time(entries: Seq<(u64, Seq<char>)>) -> bool {
    forall|i: int, j: int|
        0 <= i < j < entries.len() ==> #[trigger] entries[i].0 <= #[trigger] entries[j].0
}

/// Where an entry with timestamp `t` goes into `sorted`: after every entry
/// already there whose timestamp is at most `t`, so that entries with equal
/// timestamps keep their textual order.
pub open spec fn insert_pos(sorted: Seq<(u64, Seq<char>)>, t: u64) -> int
    decreases sorted.len(),
{
    if sorted.len() == 0 {
        0
    } else if sorted.last().0 <= t {
        sorted.len() as int
    } else {
        insert_pos(sorted.drop_last(), t)
    }
}

/// One stable insertion into a time-ordered sequence.
pub open spec fn insert_by_time(
    sorted: Seq<(u64, Seq<char>)>,
    entry: (u64, Seq<char>),
) -> Seq<(u64, Seq<char>)> {
    sorted.insert(insert_pos(sorted, entry.0), entry)
}

/// The entries reordered by non-decreasing timestamp, stably: entries with
/// equal timestamps keep their relative order.
pub open spec fn sort_by_time(entries: Seq<(u64, Seq<char>)>) -> Seq<(u64, Seq<char>)>
    decreases entries.len(),
{
    if entries.len() == 0 {
        Seq::empty()
    } else {
        insert_by_time(sort_by_time(entries.drop_last()), entries.last())
    }
}

/// The insertion position lies inside the sequence, everything at or after
/// it carries a later timestamp, and what sits just before it does not.
proof fn lemma_insert_pos_bounds(sorted: Seq<(u64, Seq<char>)>, t: u64)
    ensures
        0 <= insert_pos(sorted, t) <= sorted.len(),
        forall|k: int| insert_pos(sorted, t) <= k < sorted.len() ==> #[trigger] sorted[k].0 > t,
        insert_pos(sorted, t) > 0 ==> sorted[insert_pos(sorted, t) - 1].0 <= t,
    decreases sorted.len(),
{
    if sorted.len() > 0 && sorted.last().0 > t {
        lemma_insert_pos_bounds(sorted.drop_last(), t);
        let p = insert_pos(sorted, t);
        assert forall|k: int| p <= k < sorted.len() implies #[trigger] sorted[k].0 > t by {
            if k < sorted.len() - 1 {
                assert(sorted.drop_last()[k] == sorted[k]);
            }
        }
        if p > 0 {
            assert(sorted.drop_last()[p - 1] == sorted[p - 1]);
        }
    }
}

/// A stable insertion keeps the sequence time-ordered.
proof fn lemma_insert_by_time_sorted(sorted: Seq<(u64, Seq<char>)>, entry: (u64, Seq<char>))
    requires
        sorted_by_time(sorted),
    ensures
        sorted_by_time(insert_by_time(sorted, entry)),
        insert_by_time(sorted, entry).len() == sorted.len() + 1,
{
    let p = insert_pos(sorted, entry.0);
    lemma_insert_pos_bounds(sorted, entry.0);
    sorted.insert_ensures(p, entry);
    let r = insert_by_time(sorted, entry);
    assert forall|i: int, j: int|
        0 <= i < j < r.len() implies #[trigger] r[i].0 <= #[trigger] r[j].0 by {
        if i < p {
            assert(r[i] == sorted[i]);
            if i < p - 1 {
                assert(sorted[i].0 <= sorted[p - 1].0);
            }
            assert(sorted[i].0 <= entry.0);
        }
        if j < p {
            assert(r[j] == sorted[j]);
        }
        if i > p {
            assert(r[i] == sorted[i - 1]);
        }
        if j > p {
            assert(r[j] == sorted[j - 1]);
            assert(sorted[j - 1].0 > entry.0);
        }
    }
}

/// Law: the stable sort yields a time-ordered sequence of the same length.
pub proof fn lemma_sort_by_time_sorted(entries: Seq<(u64, Seq<char>)>)
    ensures
        sorted_by_time(sort_by_time(entries)),
        sort_by_time(entries).len() == entries.len(),
    decreases entries.len(),
{
    if entries.len() > 0 {
        lemma_sort_by_time_sorted(entries.drop_last());
        lemma_insert_by_time_sorted(sort_by_time(entries.drop_last()), entries.last());
    }
}

/// Whether the character of `s` at `j` is a decimal digit.
fn digit_at(s: &str, j: usize) -> (b: bool)
    requires
        j < s@.len(),
    ensures
        b == is_lrc_digit(s@[j as int]),
{
    let c = s.get_char(j);
    '0' as u32 <= c as u32 && c as u32 <= '9' as u32
}

/// Whether the character of `s` at `j` may stand in a lyric line's text.
fn content_char_at(s: &str, j: usize) -> (b: bool)
    requires
        j < s@.len(),
    ensures
        b == is_content_char(s@[j as int]),
{
    let c = s.get_char(j);
    c != '[' && c != ']'
}

/// Scan the maximal digit run of `s` starting at `from`.
fn scan_digit_run(s: &str, from: usize) -> (end: usize)
    requires
        from <= s@.len() <= usize::MAX,
    ensures
        end == digit_run_end(s@, from as int),
        from <= end <= s@.len(),
        forall|k: int| from <= k < end ==> is_lrc_digit(s@[k]),
{
    let n = s.unicode_len();
    let mut j = from;
    while j < n && digit_at(s, j)
        invariant
            from <= j <= n == s@.len(),
            digit_run_end(s@, from as int) == digit_run_end(s@, j as int),
            forall|k: int| from <= k < j ==> is_lrc_digit(s@[k]),
        decreases n - j,
    {
        j += 1;
    }
    j
}

/// Scan the maximal run of text characters of `s` starting at `from`.
fn scan_content_run(s: &str, from: usize) -> (end: usize)
    requires
        from <= s@.len() <= usize::MAX,
    ensures
        end == content_run_end(s@, from as int),
        from <= end <= s@.len(),
{
    let n = s.unicode_len();
    let mut j = from;
    while j < n && content_char_at(s, j)
        invariant
            from <= j <= n == s@.len(),
            content_run_end(s@, from as int) == content_run_end(s@, j as int),
        decreases n - j,
    {
        j += 1;
    }
    j
}

/// Read the digit run `s[from..to]` as `u64`, with 0 for a value too large,
/// as `parsed_field` says.
fn parse_digit_run(s: &str, from: usize, to: usize) -> (v: u64)
    requires
        from <= to <= s@.len(),
        forall|k: int| from <= k < to ==> is_lrc_digit(s@[k]),
    ensures
        v == parsed_field(s@.subrange(from as int, to as int)),
{
    let mut val: u64 = 0;
    let mut overflowed = false;
    let mut k = from;
    while k < to
        invariant
            from <= k <= to <= s@.len(),
            forall|j: int| from <= j < to ==> is_lrc_digit(s@[j]),
            !overflowed ==> val == digits_val(s@.subrange(from as int, k as int)),
            overflowed ==> digits_val(s@.subrange(from as int, k as int)) > u64::MAX,
        decreases to - k,
    {
        let c = s.get_char(k);
        let d: u64 = (c as u32 - '0' as u32) as u64;
        proof {
            assert(s@.subrange(from as int, k as int + 1).drop_last() =~= s@.subrange(
                from as int,
                k as int,
            ));
            assert(s@.subrange(from as int, k as int + 1).last() == s@[k as int]);
        }
        if !overflowed {
            match val.checked_mul(10) {
                Some(v10) => {
                    match v10.checked_add(d) {
                        Some(v) => {
                            val = v;
                        },
                        None => {
                            overflowed = true;
                        },
                    }
                },
                None => {
                    overflowed = true;
                },
            }
        }
        k += 1;
    }
    proof {
        assert(s@.subrange(from as int, to as int) =~= s@.subrange(from as int, k as int));
    }
    if overflowed {
        0
    } else {
        val
    }
}

/// Combine the three digit fields of a token into its timestamp.
fn combine_time(min: u64, sec: u64, ms: u64) -> (t: u64)
    ensures
        t == lrc_time_ms(min, sec, ms),
{
    let sec_c: u64 = if sec > 59 {
        59
    } else {
        sec
    };
    let ms_c: u64 = if ms > 999 {
        999
    } else {
        ms
    };
    match min.checked_mul(60000) {
        Some(m) => m.saturating_add(sec_c * 1000 + ms_c),
        None => u64::MAX,
    }
}

/// Put one parsed line into its place in a time-ordered track: after every
/// line with an earlier or equal timestamp.
fn insert_sorted(out: &mut Vec<Lyric>, entry: Lyric)
    ensures
        final(out)@.map_values(|l: Lyric| l@) =~= insert_by_time(
            old(out)@.map_values(|l: Lyric| l@),
            entry@,
        ),
{
    let ghost view0 = out@.map_values(|l: Lyric| l@);
    let mut j = out.len();
    proof {
        assert(view0.subrange(0, j as int) =~= view0);
    }
    while j > 0 && out[j - 1].time_ms > entry.time_ms
        invariant
            j <= out@.len(),
            view0 == out@.map_values(|l: Lyric| l@),
            insert_pos(view0, entry.time_ms) == insert_pos(
                view0.subrange(0, j as int),
                entry.time_ms,
            ),
        decreases j,
    {
        proof {
            let prefix = view0.subrange(0, j as int);
            assert(prefix.last() == view0[j as int - 1]);
            assert(view0[j as int - 1].0 == out@[j as int - 1].time_ms);
            assert(prefix.drop_last() =~= view0.subrange(0, j as int - 1));
        }
        j -= 1;
    }
    proof {
        let prefix = view0.subrange(0, j as int);
        if j > 0 {
            assert(prefix.last() == view0[j as int - 1]);
            assert(view0[j as int - 1].0 == out@[j as int - 1].time_ms);
        }
        assert(insert_pos(view0, entry.time_ms) == j as int);
        lemma_insert_pos_bounds(view0, entry.time_ms);
    }
    out.insert(j, entry);
    proof {
        assert(out@.map_values(|l: Lyric| l@) =~= insert_by_time(view0, entry@));
    }
}

impl Lyrics {
    /// A track with no lyrics.
    pub fn empty() -> (r: Lyrics)
        ensures
            r@ =~= Seq::<(u64, Seq<char>)>::empty(),
            r.list@.len() == 0,
    {
        Lyrics { list: Vec::new() }
    }

    /// Parse an LRC text into a lyric track: the lines are exactly
    /// `spec_parse_lrc` of the text, reordered by non-decreasing timestamp;
    /// lines with equal timestamps keep their textual order.
    pub fn from_string(strs: String) -> (r: Lyrics)
        ensures
            r@ == sort_by_time(spec_parse_lrc(strs@, 0)),
            sorted_by_time(r@),
    {
        let s = strs.as_str();
        let n = s.unicode_len();
        let mut out: Vec<Lyric> = Vec::new();
        let mut i: usize = 0;
        while i < n
            invariant
                i <= n == s@.len(),
                spec_parse_lrc(s@, 0) =~= out@.map_values(|l: Lyric| l@) + spec_parse_lrc(
                    s@,
                    i as int,
                ),
            decreases n - i,
        {
            let ghost prev = out@.map_values(|l: Lyric| l@);
            let c = s.get_char(i);
            if c == '[' {
                let min_end = scan_digit_run(s, i + 1);
                if min_end > i + 1 && min_end < n && s.get_char(min_end) == ':' {
                    let sec_end = scan_digit_run(s, min_end + 1);
                    if sec_end > min_end + 1 && sec_end < n {
                        let ms_end = scan_digit_run(s, sec_end + 1);
                        if ms_end > sec_end + 1 && ms_end < n && s.get_char(ms_end) == ']' {
                            let min_v = parse_digit_run(s, i + 1, min_end);
                            let sec_v = parse_digit_run(s, min_end + 1, sec_end);
                            let ms_v = parse_digit_run(s, sec_end + 1, ms_end);
                            let time = combine_time(min_v, sec_v, ms_v);
                            let cont_end = scan_content_run(s, ms_end + 1);
                            let content = s.substring_char(ms_end + 1, cont_end).to_owned();
                            let entry = Lyric { time_ms: time, content };
                            proof {
                                assert(token_matches(s@, i as int));
                                assert(entry@ == token_entry(s@, i as int));
                                assert(out@.push(entry).map_values(|l: Lyric| l@) =~= prev.push(
                                    entry@,
                                ));
                                assert(prev.push(entry@) + spec_parse_lrc(s@, cont_end as int)
                                    =~= prev + (seq![token_entry(s@, i as int)] + spec_parse_lrc(
                                    s@,
                                    token_end(s@, i as int),
                                )));
                            }
                            out.push(entry);
                            i = cont_end;
                            continue;
                        }
                    }
                }
                proof {
                    assert(!token_matches(s@, i as int));
                }
                i += 1;
            } else {
                proof {
                    assert(!token_matches(s@, i as int));
                }
                i += 1;
            }
        }
        proof {
            assert(spec_parse_lrc(s@, 0) =~= out@.map_values(|l: Lyric| l@));
        }
        let mut parsed = out;
        let ghost entries = parsed@.map_values(|l: Lyric| l@);
        let mut track: Vec<Lyric> = Vec::new();
        proof {
            assert(entries.subrange(0, 0) =~= Seq::<(u64, Seq<char>)>::empty());
        }
        while parsed.len() > 0
            invariant
                parsed@.len() <= entries.len(),
                parsed@.map_values(|l: Lyric| l@) =~= entries.subrange(
                    entries.len() - parsed@.len(),
                    entries.len() as int,
                ),
                track@.map_values(|l: Lyric| l@) =~= sort_by_time(
                    entries.subrange(0, entries.len() - parsed@.len()),
                ),
            decreases parsed@.len(),
        {
            let ghost k = entries.len() - parsed@.len();
            let ghost before = parsed@.map_values(|l: Lyric| l@);
            let ghost pv = parsed@;
            let entry = parsed.remove(0);
            proof {
                assert(entry@ == before[0]);
                assert(before[0] == entries[k]);
                assert(parsed@ =~= pv.subrange(1, pv.len() as int));
                let after = parsed@.map_values(|l: Lyric| l@);
                assert forall|m: int| 0 <= m < after.len() implies #[trigger] after[m]
                    == entries.subrange(k + 1, entries.len() as int)[m] by {
                    assert(parsed@[m] == pv[m + 1]);
                    assert(after[m] == parsed@[m]@);
                    assert(before[m + 1] == pv[m + 1]@);
                    assert(before[m + 1] == entries[k + 1 + m]);
                }
                assert(after =~= entries.subrange(k + 1, entries.len() as int));
                assert(entries.subrange(0, k + 1).drop_last() =~= entries.subrange(0, k));
                assert(entries.subrange(0, k + 1).last() == entries[k]);
            }
            insert_sorted(&mut track, entry);
            proof {
                assert(track@.map_values(|l: Lyric| l@) =~= sort_by_time(
                    entries.subrange(0, k + 1),
                ));
            }
        }
        proof {
            assert(entries.subrange(0, entries.len() as int) =~= entries);
            assert(track@.map_values(|l: Lyric| l@) == sort_by_time(spec_parse_lrc(strs@, 0)));
            lemma_sort_by_time_sorted(spec_parse_lrc(strs@, 0));
        }
        Lyrics { list: track }
    }
}

} // verus!
