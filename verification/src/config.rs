use vstd::prelude::*;
use vstd::string::{StrSliceExecFns, StringExecFns};

verus! {

/// One directory entry as the browser logic sees it: the file name, its
/// extension when it has one, and what kind of entry it is.  Listing a
/// directory is I/O and happens outside the library.
#[derive(Clone, PartialEq, Eq, Debug)]
pub struct FileEntry {
    /// The entry's file name, without its directory.
    pub name: String,
    /// The file name's extension, when it has one.
    pub extension: Option<String>,
    /// Whether the entry is a regular file.
    pub is_file: bool,
    /// Whether the entry is a directory.
    pub is_dir: bool,
}

/// Fixed settings of the player core.
pub struct Config {}

/// An extension of a playable media file.
pub open spec fn spec_accepted_extension(e: Seq<char>) -> bool {
    e == "mp3"@ || e == "wav"@ || e == "flac"@ || e == "ts"@
}

/// A regular file with a playable extension.
pub open spec fn spec_accepted_file(f: FileEntry) -> bool {
    f.is_file && match f.extension {
        Some(e) => spec_accepted_extension(e@),
        None => false,
    }
}

/// A directory worth showing: not hidden behind a leading dot.
pub open spec fn spec_accepted_dir(d: FileEntry) -> bool {
    d.is_dir && !(d.name@.len() > 0 && d.name@[0] == '.')
}

impl Config {
    /// Period of the refresh tick that redraws the screen and polls the
    /// queue engine, in milliseconds.
    pub const REFRESH_RATE_MS: u64 = 50;

    /// How far a single forward or backward seek moves, in milliseconds.
    pub const FORWARD_AND_REVERSE_STEP_MS: u64 = 1000;

    /// How much one volume keypress changes the volume, in percent.
    pub const VOLUME_STEP_PERCENT: u8 = 10;

    /// Whether the entry is a media file the player can take.
    pub fn is_accepted_file(f: &FileEntry) -> (b: bool)
        ensures
            b == spec_accepted_file(*f),
    {
        if !f.is_file {
            return false;
        }
        match &f.extension {
            Some(e) => {
                e.eq(&String::from_str("mp3")) || e.eq(&String::from_str("wav")) || e.eq(
                    &String::from_str("flac"),
                ) || e.eq(&String::from_str("ts"))
            },
            None => false,
        }
    }

    /// Whether the entry is a directory the browser shows: hidden
    /// directories, whose name begins with a dot, are left out.
    pub fn is_accepted_dir(d: &FileEntry) -> (b: bool)
        ensures
            b == spec_accepted_dir(*d),
    {
        if !d.is_dir {
            return false;
        }
        let name = d.name.as_str();
        if name.unicode_len() > 0 && name.get_char(0) == '.' {
            return false;
        }
        true
    }
}

} // verus!
