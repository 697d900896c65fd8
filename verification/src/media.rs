//! The track model: what the player core reads of a media file.
//!
//! A `Media` holds the plain values the core works on — the file's path and
//! display name, its duration in milliseconds, its parsed lyrics, and the
//! text fields read from its ID3 tag.  Probing the file for these values is
//! I/O and happens outside the library; the library states exactly how the
//! tag fields turn into the labelled rows the info panel shows.

use vstd::prelude::*;
use vstd::string::{StringExecFns, StrSliceExecFns};
use crate::lyrics::Lyrics;

verus! {

/// The text fields read from a track's ID3 tag, each under its frame id.
/// Numeric frames arrive already written out in decimal.
#[derive(Clone, PartialEq, Eq, Debug)]
pub struct TagData {
    /// TIT2, the title.
    pub title: Option<String>,
    /// TPE1, the lead performer.
    pub artist: Option<String>,
    /// TALB, the album.
    pub album: Option<String>,
    /// TPE2, the album's artist.
    pub album_artist: Option<String>,
    /// TCOM, the composer.
    pub composer: Option<String>,
    /// TPOS, the disc number.
    pub disc: Option<String>,
    /// TCON, the genre.
    pub genre: Option<String>,
    /// TYER, the year.
    pub year: Option<String>,
    /// COMM, all comment texts joined.
    pub comment: String,
}

/// One playable track.
#[derive(Clone, PartialEq, Eq, Debug)]
pub enum Media {
    LocalFile {
        /// Where the file lives, for reloading it into the sink.
        path: String,
        /// The file name, shown in lists.
        name: String,
        /// Track duration in milliseconds; 0 when probing failed.
        duration_ms: u64,
        /// The track's synchronized lyrics; empty when none were found.
        lyrics: Lyrics,
        /// The track's tag fields, when the file had a readable tag.
        tag: Option<TagData>,
    },
}

/// The views of a row of the info panel: frame id, label, text.
pub open spec fn rows_view(rows: Seq<(String, String, String)>) -> Seq<
    (Seq<char>, Seq<char>, Seq<char>),
> {
    rows.map_values(|r: (String, String, String)| (r.0@, r.1@, r.2@))
}

/// A row for the field when it is present, else nothing.
pub open spec fn row_if(
    field: Option<String>,
    id: Seq<char>,
    label: Seq<char>,
) -> Seq<(Seq<char>, Seq<char>, Seq<char>)> {
    match field {
        Some(text) => seq![(id, label, text@)],
        None => Seq::empty(),
    }
}

/// The rows of the info panel for a tag: one labelled row per present
/// field, in frame order, the joined comments last and only when non-empty.
pub open spec fn spec_tag_rows(t: TagData) -> Seq<(Seq<char>, Seq<char>, Seq<char>)> {
    row_if(t.title, "TIT2"@, "标题"@) + row_if(t.artist, "TPE1"@, "表演者"@) + row_if(
        t.album,
        "TALB"@,
        "专辑"@,
    ) + row_if(t.album_artist, "TPE2"@, "专辑集艺术家"@) + row_if(t.composer, "TCOM"@, "作曲家"@)
        + row_if(t.disc, "TPOS"@, "集数"@) + row_if(t.genre, "TCON"@, "流派"@) + row_if(
        t.year,
        "TYER"@,
        "年份"@,
    ) + (if t.comment@.len() > 0 {
        seq![("COMM"@, "注释"@, t.comment@)]
    } else {
        Seq::empty()
    })
}

/// Append a row for the field when it is present.
fn push_row(rows: &mut Vec<(String, String, String)>, field: &Option<String>, id: &str, label: &str)
    ensures
        rows_view(final(rows)@) =~= rows_view(old(rows)@) + row_if(*field, id@, label@),
{
    match field {
        Some(text) => {
            let row = (String::from_str(id), String::from_str(label), text.clone());
            proof {
                assert(rows_view(old(rows)@.push(row)) =~= rows_view(old(rows)@).push(
                    (id@, label@, text@),
                ));
            }
            rows.push(row);
        },
        None => {},
    }
}

impl Media {
    /// Assemble a local-file track from its probed values.
    pub fn new_local_file(
        path: String,
        name: String,
        duration_ms: u64,
        lyrics: Lyrics,
        tag: Option<TagData>,
    ) -> (m: Media)
        ensures
            m == (Media::LocalFile { path, name, duration_ms, lyrics, tag }),
    {
        Media::LocalFile { path, name, duration_ms, lyrics, tag }
    }

    /// The track's display name.
    pub fn get_name(&self) -> (r: String)
        ensures
            r@ == self->name@,
    {
        match self {
            Media::LocalFile { name, .. } => name.clone(),
        }
    }

    /// Where the track's file lives.
    pub fn get_path(&self) -> (r: String)
        ensures
            r@ == self->path@,
    {
        match self {
            Media::LocalFile { path, .. } => path.clone(),
        }
    }

    /// The track's duration in milliseconds.
    pub fn get_duration(&self) -> (r: u64)
        ensures
            r == self->duration_ms,
    {
        match self {
            Media::LocalFile { duration_ms, .. } => *duration_ms,
        }
    }

    /// The track's lyrics.
    pub fn get_lyrics(&self) -> (r: &Lyrics)
        ensures
            r == self->lyrics,
    {
        match self {
            Media::LocalFile { lyrics, .. } => lyrics,
        }
    }

    /// The info-panel rows of the track's tag: exactly `spec_tag_rows` of
    /// the tag, and no rows when the track has no tag.
    pub fn get_id3_tag(&self) -> (r: Vec<(String, String, String)>)
        ensures
            match self->tag {
                Some(t) => rows_view(r@) == spec_tag_rows(t),
                None => r@.len() == 0,
            },
    {
        let mut rows: Vec<(String, String, String)> = Vec::new();
        match self {
            Media::LocalFile { tag, .. } => {
                match tag {
                    Some(t) => {
                        push_row(&mut rows, &t.title, "TIT2", "标题");
                        push_row(&mut rows, &t.artist, "TPE1", "表演者");
                        push_row(&mut rows, &t.album, "TALB", "专辑");
                        push_row(&mut rows, &t.album_artist, "TPE2", "专辑集艺术家");
                        push_row(&mut rows, &t.composer, "TCOM", "作曲家");
                        push_row(&mut rows, &t.disc, "TPOS", "集数");
                        push_row(&mut rows, &t.genre, "TCON", "流派");
                        push_row(&mut rows, &t.year, "TYER", "年份");
                        if t.comment.as_str().unicode_len() > 0 {
                            let row = (
                                String::from_str("COMM"),
                                String::from_str("注释"),
                                t.comment.clone(),
                            );
                            proof {
                                assert(rows_view(rows@.push(row)) =~= rows_view(rows@).push(
                                    ("COMM"@, "注释"@, t.comment@),
                                ));
                            }
                            rows.push(row);
                        }
                        proof {
                            assert(rows_view(rows@) =~= spec_tag_rows(*t));
                        }
                    },
                    None => {},
                }
            },
        }
        rows
    }
}

} // verus!
