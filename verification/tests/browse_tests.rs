use rustplayer::config::{Config, FileEntry};
use rustplayer::list_nav::{next_index, prev_index};
use rustplayer::lyric_cursor::lyric_window;
use rustplayer::lyrics::Lyrics;
use rustplayer::media::Media;
use rustplayer::media::TagData;
use rustplayer::utils::search_directory;

fn file(name: &str, extension: Option<&str>) -> FileEntry {
    FileEntry {
        name: String::from(name),
        extension: extension.map(String::from),
        is_file: true,
        is_dir: false,
    }
}

fn dir(name: &str) -> FileEntry {
    FileEntry {
        name: String::from(name),
        extension: None,
        is_file: false,
        is_dir: true,
    }
}

#[test]
fn accepted_files_need_a_media_extension() {
    assert!(Config::is_accepted_file(&file("a.mp3", Some("mp3"))));
    assert!(Config::is_accepted_file(&file("a.wav", Some("wav"))));
    assert!(Config::is_accepted_file(&file("a.flac", Some("flac"))));
    assert!(Config::is_accepted_file(&file("a.ts", Some("ts"))));
    assert!(!Config::is_accepted_file(&file("a.txt", Some("txt"))));
    assert!(!Config::is_accepted_file(&file("a", None)));
    assert!(!Config::is_accepted_file(&dir("music.mp3")));
}

#[test]
fn hidden_directories_are_rejected() {
    assert!(Config::is_accepted_dir(&dir("music")));
    assert!(!Config::is_accepted_dir(&dir(".git")));
    assert!(!Config::is_accepted_dir(&file("music", None)));
    assert!(Config::is_accepted_dir(&dir("")));
}

#[test]
fn search_keeps_matching_media_files_only() {
    let entries = vec![
        file("song.mp3", Some("mp3")),
        file("tune.mp3", Some("mp3")),
        file("song.txt", Some("txt")),
        dir("song.mp3.d"),
        file("second_song.flac", Some("flac")),
    ];
    let hits = search_directory(&entries, "song");
    assert_eq!(hits, vec![0, 4]);
    let anchored = search_directory(&entries, "^song");
    assert_eq!(anchored, vec![0]);
}

#[test]
fn search_with_invalid_pattern_finds_nothing() {
    let entries = vec![file("song.mp3", Some("mp3"))];
    let hits = search_directory(&entries, "(unclosed");
    assert!(hits.is_empty());
}

#[test]
fn search_with_dot_star_pattern_keeps_all_media_files() {
    let entries = vec![file("a.mp3", Some("mp3")), file("b.txt", Some("txt"))];
    let hits = search_directory(&entries, ".*");
    assert_eq!(hits, vec![0]);
}

#[test]
fn list_navigation_wraps_both_ways() {
    assert_eq!(next_index(3, None), 0);
    assert_eq!(next_index(3, Some(0)), 1);
    assert_eq!(next_index(3, Some(2)), 0);
    assert_eq!(prev_index(3, None), 2);
    assert_eq!(prev_index(3, Some(2)), 1);
    assert_eq!(prev_index(3, Some(0)), 2);
    assert_eq!(next_index(1, Some(0)), 0);
    assert_eq!(prev_index(1, Some(0)), 0);
}

#[test]
fn cursor_centers_on_active_line() {
    let l = Lyrics::from_string(String::from("[00:00.000]a[00:10.000]b[00:20.000]c"));
    assert_eq!(l.list.len(), 3);
    let w = lyric_window(&l, 12_000, 3).unwrap();
    assert_eq!((w.start, w.end), (0, 2));
    assert_eq!(w.selected, 1);
    assert_eq!(l.list[w.start + w.selected].content, "b");
}

#[test]
fn cursor_before_first_line_highlights_it() {
    let l = Lyrics::from_string(String::from("[00:10.000]b[00:20.000]c"));
    let w = lyric_window(&l, 0, 4).unwrap();
    assert_eq!(w.start, 0);
    assert_eq!(w.selected, 0);
}

#[test]
fn cursor_past_last_line_highlights_it() {
    let l = Lyrics::from_string(String::from("[00:00.000]a[00:10.000]b[00:20.000]c"));
    let w = lyric_window(&l, 60_000, 3).unwrap();
    assert_eq!(w.end, 2);
    assert_eq!(l.list[w.start + w.selected].content, "c");
}

#[test]
fn cursor_yields_nothing_without_lines_or_room() {
    let empty = Lyrics::empty();
    assert!(lyric_window(&empty, 0, 3).is_none());
    let l = Lyrics::from_string(String::from("[00:00.000]a"));
    assert!(lyric_window(&l, 0, 0).is_none());
}

#[test]
fn tag_rows_follow_frame_order_and_presence() {
    let media = Media::new_local_file(
        String::from("/music/a.mp3"),
        String::from("a.mp3"),
        1000,
        Lyrics::empty(),
        Some(TagData {
            title: Some(String::from("Song")),
            artist: None,
            album: Some(String::from("Album")),
            album_artist: None,
            composer: None,
            disc: None,
            genre: None,
            year: Some(String::from("1999")),
            comment: String::from("note"),
        }),
    );
    let rows = media.get_id3_tag();
    let expected = vec![
        ("TIT2", "标题", "Song"),
        ("TALB", "专辑", "Album"),
        ("TYER", "年份", "1999"),
        ("COMM", "注释", "note"),
    ];
    assert_eq!(rows.len(), expected.len());
    for (row, want) in rows.iter().zip(expected.iter()) {
        assert_eq!(row.0, want.0);
        assert_eq!(row.1, want.1);
        assert_eq!(row.2, want.2);
    }
}

#[test]
fn empty_comment_adds_no_row() {
    let media = Media::new_local_file(
        String::from("/music/a.mp3"),
        String::from("a.mp3"),
        1000,
        Lyrics::empty(),
        Some(TagData {
            title: None,
            artist: None,
            album: None,
            album_artist: None,
            composer: None,
            disc: None,
            genre: None,
            year: None,
            comment: String::new(),
        }),
    );
    assert!(media.get_id3_tag().is_empty());
}

#[test]
fn media_without_tag_has_no_rows() {
    let media = Media::new_local_file(
        String::from("/music/a.mp3"),
        String::from("a.mp3"),
        1000,
        Lyrics::empty(),
        None,
    );
    assert!(media.get_id3_tag().is_empty());
    assert_eq!(media.get_name(), "a.mp3");
    assert_eq!(media.get_path(), "/music/a.mp3");
    assert_eq!(media.get_duration(), 1000);
    assert_eq!(media.get_lyrics().list.len(), 0);
}
