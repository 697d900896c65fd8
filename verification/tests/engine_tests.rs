use rustplayer::engine::{QueueEngine, SinkAction};
use rustplayer::lyrics::Lyrics;
use rustplayer::media::Media;

fn track(name: &str, duration_ms: u64) -> Media {
    Media::new_local_file(
        format!("/music/{}", name),
        String::from(name),
        duration_ms,
        Lyrics::empty(),
        None,
    )
}

#[test]
fn enqueue_on_empty_queue_starts_playback() {
    let mut e = QueueEngine::new();
    let a = e.add_local_file_to_play_list(track("a.mp3", 60_000), 100);
    assert_eq!(a, SinkAction::Load { offset_ms: 0 });
    assert!(e.is_head_playing());
    assert_eq!(e.progress(100), (0, 60_000));
    assert_eq!(e.now_playing_name(), "a.mp3");
}

#[test]
fn enqueue_on_busy_queue_waits() {
    let mut e = QueueEngine::new();
    e.add_local_file_to_play_list(track("a.mp3", 60_000), 0);
    let a = e.add_local_file_to_play_list(track("b.mp3", 30_000), 50);
    assert_eq!(a, SinkAction::Nothing);
    assert_eq!(e.len(), 2);
    assert_eq!(e.next_play_name(), "b.mp3");
    assert!(!e.items()[1].is_playing());
}

#[test]
fn tick_auto_advances_when_sink_runs_dry() {
    let mut e = QueueEngine::new();
    e.add_local_file_to_play_list(track("a.mp3", 60_000), 0);
    e.add_local_file_to_play_list(track("b.mp3", 30_000), 0);
    assert!(e.is_head_playing());
    let a = e.tick(90_000, true);
    assert_eq!(a, SinkAction::Load { offset_ms: 0 });
    assert_eq!(e.len(), 1);
    assert_eq!(e.now_playing_name(), "b.mp3");
    assert!(e.is_head_playing());
    assert_eq!(e.progress(90_000).0, 0);
}

#[test]
fn tick_leaves_a_loaded_sink_alone() {
    let mut e = QueueEngine::new();
    e.add_local_file_to_play_list(track("a.mp3", 60_000), 0);
    e.add_local_file_to_play_list(track("b.mp3", 30_000), 0);
    let a = e.tick(5000, false);
    assert_eq!(a, SinkAction::Nothing);
    assert_eq!(e.len(), 2);
    assert_eq!(e.now_playing_name(), "a.mp3");
}

#[test]
fn tick_does_not_advance_a_paused_head() {
    let mut e = QueueEngine::new();
    e.add_local_file_to_play_list(track("a.mp3", 60_000), 0);
    e.add_local_file_to_play_list(track("b.mp3", 30_000), 0);
    e.on_pause(1000);
    let a = e.tick(2000, true);
    assert_eq!(a, SinkAction::Nothing);
    assert_eq!(e.len(), 2);
}

#[test]
fn play_now_discards_head_and_starts_selected() {
    let mut e = QueueEngine::new();
    e.add_local_file_to_play_list(track("a.mp3", 10_000), 0);
    e.add_local_file_to_play_list(track("b.mp3", 20_000), 0);
    e.add_local_file_to_play_list(track("c.mp3", 30_000), 0);
    let a = e.on_play_now_play_list(500, 2);
    assert_eq!(a, SinkAction::Load { offset_ms: 0 });
    assert_eq!(e.len(), 2);
    assert_eq!(e.now_playing_name(), "c.mp3");
    assert_eq!(e.next_play_name(), "b.mp3");
    assert!(e.is_head_playing());
    assert_eq!(e.progress(500), (0, 30_000));
}

#[test]
fn play_now_on_head_or_out_of_range_is_a_noop() {
    let mut e = QueueEngine::new();
    e.add_local_file_to_play_list(track("a.mp3", 10_000), 0);
    e.add_local_file_to_play_list(track("b.mp3", 20_000), 0);
    assert_eq!(e.on_play_now_play_list(0, 0), SinkAction::Nothing);
    assert_eq!(e.on_play_now_play_list(0, 5), SinkAction::Nothing);
    assert_eq!(e.len(), 2);
}

#[test]
fn post_top_moves_item_behind_head() {
    let mut e = QueueEngine::new();
    e.add_local_file_to_play_list(track("a.mp3", 10_000), 0);
    e.add_local_file_to_play_list(track("b.mp3", 20_000), 0);
    e.add_local_file_to_play_list(track("c.mp3", 30_000), 0);
    e.on_post_top_play_list(2);
    assert_eq!(e.now_playing_name(), "a.mp3");
    assert_eq!(e.next_play_name(), "c.mp3");
    assert_eq!(e.len(), 3);
}

#[test]
fn forward_then_resume_reloads_at_new_offset() {
    let mut e = QueueEngine::new();
    e.add_local_file_to_play_list(track("a.mp3", 60_000), 0);
    // Five seconds in, seek forward one step: position becomes 6 s.
    let a1 = e.on_forward(5000);
    assert_eq!(a1, SinkAction::Clear);
    assert!(!e.is_head_playing());
    assert_eq!(e.progress(5000).0, 6000);
    // The sink was cleared, so resume must reload at the new offset.
    let a2 = e.on_play(5000, true);
    assert_eq!(a2, SinkAction::Load { offset_ms: 6000 });
    e.confirm_loaded(5000, true);
    assert!(e.is_head_playing());
    assert_eq!(e.progress(5000).0, 6000);
    assert_eq!(e.progress(7500).0, 8500);
}

#[test]
fn forward_caps_at_track_duration() {
    let mut e = QueueEngine::new();
    e.add_local_file_to_play_list(track("a.mp3", 4500), 0);
    let a = e.on_forward(4000);
    assert_eq!(a, SinkAction::Clear);
    assert_eq!(e.progress(4000).0, 4500);
}

#[test]
fn reverse_floors_at_zero() {
    let mut e = QueueEngine::new();
    e.add_local_file_to_play_list(track("a.mp3", 60_000), 0);
    let a = e.on_reverse(300);
    assert_eq!(a, SinkAction::Clear);
    assert_eq!(e.progress(300).0, 0);
}

#[test]
fn failed_reload_leaves_timeline_paused() {
    let mut e = QueueEngine::new();
    e.add_local_file_to_play_list(track("a.mp3", 60_000), 0);
    e.on_forward(2000);
    let a = e.on_play(2000, true);
    assert_eq!(a, SinkAction::Load { offset_ms: 3000 });
    e.confirm_loaded(2000, false);
    assert!(!e.is_head_playing());
    assert_eq!(e.progress(9999).0, 3000);
}

#[test]
fn resume_with_loaded_sink_just_resumes() {
    let mut e = QueueEngine::new();
    e.add_local_file_to_play_list(track("a.mp3", 60_000), 0);
    e.on_pause(2500);
    let a = e.on_play(4000, false);
    assert_eq!(a, SinkAction::Resume);
    assert!(e.is_head_playing());
    assert_eq!(e.progress(4000).0, 2500);
}

#[test]
fn toggle_dispatches_on_head_state() {
    let mut e = QueueEngine::new();
    e.add_local_file_to_play_list(track("a.mp3", 60_000), 0);
    let a = e.on_change_pause_play(1000, false);
    assert_eq!(a, SinkAction::Pause);
    assert!(!e.is_head_playing());
    let b = e.on_change_pause_play(1500, false);
    assert_eq!(b, SinkAction::Resume);
    assert!(e.is_head_playing());
}

#[test]
fn remove_head_skips_to_next() {
    let mut e = QueueEngine::new();
    e.add_local_file_to_play_list(track("a.mp3", 10_000), 0);
    e.add_local_file_to_play_list(track("b.mp3", 20_000), 0);
    let a = e.on_remove_from_play_list(700, 0);
    assert_eq!(a, SinkAction::Load { offset_ms: 0 });
    assert_eq!(e.len(), 1);
    assert_eq!(e.now_playing_name(), "b.mp3");
    assert!(e.is_head_playing());
}

#[test]
fn remove_last_track_clears_sink() {
    let mut e = QueueEngine::new();
    e.add_local_file_to_play_list(track("a.mp3", 10_000), 0);
    let a = e.on_remove_from_play_list(700, 0);
    assert_eq!(a, SinkAction::Clear);
    assert_eq!(e.len(), 0);
    assert_eq!(e.now_playing_name(), "");
    assert_eq!(e.progress(9000), (0, 0));
}

#[test]
fn remove_non_head_splices_quietly() {
    let mut e = QueueEngine::new();
    e.add_local_file_to_play_list(track("a.mp3", 10_000), 0);
    e.add_local_file_to_play_list(track("b.mp3", 20_000), 0);
    e.add_local_file_to_play_list(track("c.mp3", 30_000), 0);
    let a = e.on_remove_from_play_list(700, 1);
    assert_eq!(a, SinkAction::Nothing);
    assert_eq!(e.len(), 2);
    assert_eq!(e.next_play_name(), "c.mp3");
}

#[test]
fn volume_steps_and_clamps() {
    let mut e = QueueEngine::new();
    assert_eq!(e.volume(), 100);
    e.on_volume_incr();
    assert_eq!(e.volume(), 100);
    for _ in 0..15 {
        e.on_volume_decr();
    }
    assert_eq!(e.volume(), 0);
    e.on_volume_incr();
    assert_eq!(e.volume(), 10);
}
