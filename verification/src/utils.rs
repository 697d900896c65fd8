//! Search over a directory listing.
//!
//! The caller walks the file system and hands in the entries it found; the
//! search keeps exactly those that are playable media files whose name the
//! given regular expression matches.  Matching itself is the regex crate's;
//! the library names its results and builds on them.

use vstd::prelude::*;
use crate::config::{spec_accepted_file, Config, FileEntry};

verus! {

/// What `regex::Regex::new` decides for a pattern: whether the pattern is a
/// valid regular expression.
pub uninterp spec fn regex_valid(pattern: Seq<char>) -> bool;

/// What `regex::Regex::is_match` returns for a valid pattern: whether the
/// pattern matches anywhere in the text.
pub uninterp spec fn regex_match(pattern: Seq<char>, text: Seq<char>) -> bool;

/// Relies on regex::Regex::new and regex::Regex::is_match: whether a pattern
/// compiles depends on the pattern alone, and whether it matches somewhere
/// in a text depends on the pattern and the text alone.  The two must share
/// one wrapper because a compiled `Regex` value cannot cross into verified
/// code with its pattern still attached.
#[verifier::external_body]
fn regex_is_match(pattern: &str, text: &str) -> (r: Option<bool>)
    ensures
        r is Some <==> regex_valid(pattern@),
        r matches Some(b) ==> b == regex_match(pattern@, text@),
{
    match regex::Regex::new(pattern) {
        Ok(re) => Some(re.is_match(text)),
        Err(_) => None,
    }
}

/// A hit of the search: a playable media file whose name matches.
pub open spec fn spec_search_hit(e: FileEntry, pattern: Seq<char>) -> bool {
    regex_match(pattern, e.name@) && spec_accepted_file(e)
}

/// The indices of the hits among `entries` at and after `i`, in order.
pub open spec fn spec_search_hits(entries: Seq<FileEntry>, pattern: Seq<char>, i: int) -> Seq<int>
    decreases entries.len() - i,
    when 0 <= i <= entries.len()
{
    if i >= entries.len() {
        Seq::empty()
    } else if spec_search_hit(entries[i], pattern) {
        seq![i] + spec_search_hits(entries, pattern, i + 1)
    } else {
        spec_search_hits(entries, pattern, i + 1)
    }
}

/// Search a directory listing: the result holds the indices of exactly those
/// entries that are playable media files whose name the pattern matches, in
/// order.  The function is total by design: a pattern that is no valid
/// regular expression is taken to match nothing and yields an empty result
/// rather than a failure, in line with the player's rule that a bad input
/// degrades quietly instead of stopping the loop.
pub fn search_directory(entries: &Vec<FileEntry>, pattern: &str) -> (r: Vec<usize>)
    ensures
        regex_valid(pattern@) ==> r@.map_values(|u: usize| u as int) == spec_search_hits(
            entries@,
            pattern@,
            0,
        ),
        !regex_valid(pattern@) ==> r@.len() == 0,
{
    let mut items: Vec<usize> = Vec::new();
    let mut i: usize = 0;
    let n = entries.len();
    while i < n
        invariant
            i <= n == entries@.len(),
            regex_valid(pattern@) ==> items@.map_values(|u: usize| u as int) + spec_search_hits(
                entries@,
                pattern@,
                i as int,
            ) =~= spec_search_hits(entries@, pattern@, 0),
            !regex_valid(pattern@) ==> items@.len() == 0,
        decreases n - i,
    {
        let ghost prev = items@.map_values(|u: usize| u as int);
        let entry = &entries[i];
        let matched = regex_is_match(pattern, entry.name.as_str());
        match matched {
            Some(true) => {
                if Config::is_accepted_file(entry) {
                    proof {
                        assert(prev.push(i as int) + spec_search_hits(
                            entries@,
                            pattern@,
                            i as int + 1,
                        ) =~= prev + (seq![i as int] + spec_search_hits(
                            entries@,
                            pattern@,
                            i as int + 1,
                        )));
                        assert(items@.push(i).map_values(|u: usize| u as int) =~= prev.push(
                            i as int,
                        ));
                    }
                    items.push(i);
                }
            },
            _ => {},
        }
        i += 1;
    }
    items
}

} // verus!
