use rustplayer::timeline::Timeline;

#[test]
fn fresh_timeline_is_paused_at_zero() {
    let t = Timeline::new();
    assert!(!t.is_playing());
    assert_eq!(t.elapsed(0), 0);
    assert_eq!(t.elapsed(5000), 0);
}

#[test]
fn start_runs_from_zero() {
    let mut t = Timeline::new();
    t.start(1000);
    assert!(t.is_playing());
    assert_eq!(t.elapsed(1000), 0);
    assert_eq!(t.elapsed(4500), 3500);
}

#[test]
fn start_at_runs_from_offset() {
    let mut t = Timeline::new();
    t.start_at(1000, 30_000);
    assert!(t.is_playing());
    assert_eq!(t.elapsed(1000), 30_000);
    assert_eq!(t.elapsed(2500), 31_500);
}

#[test]
fn pause_freezes_elapsed() {
    let mut t = Timeline::new();
    t.start(0);
    t.pause(4000);
    assert!(!t.is_playing());
    assert_eq!(t.elapsed(4000), 4000);
    assert_eq!(t.elapsed(90_000), 4000);
}

#[test]
fn pause_resume_roundtrip_keeps_elapsed() {
    let mut t = Timeline::new();
    t.start(0);
    let before = t.elapsed(7000);
    t.pause(7000);
    t.resume(7000);
    assert_eq!(t.elapsed(7000), before);
    assert!(t.is_playing());
}

#[test]
fn double_pause_and_double_resume_are_noops() {
    let mut t = Timeline::new();
    t.start(0);
    t.pause(3000);
    let frozen = t;
    t.pause(8000);
    assert_eq!(t, frozen);
    t.resume(9000);
    let running = t;
    t.resume(12_000);
    assert_eq!(t, running);
}

#[test]
fn elapsed_monotone_across_pause_resume_cycles() {
    let mut t = Timeline::new();
    t.start(0);
    let mut last = 0;
    let schedule = [
        (1000u64, true),
        (2000, false),
        (2000, true),
        (2500, false),
        (9000, true),
    ];
    for &(now, pause) in schedule.iter() {
        if pause {
            t.pause(now);
        } else {
            t.resume(now);
        }
        let e = t.elapsed(now);
        assert!(e >= last);
        last = e;
    }
}

#[test]
fn advance_by_caps_at_duration() {
    let mut t = Timeline::new();
    t.start(0);
    t.advance_by(5000, 1000, 5500);
    assert!(!t.is_playing());
    assert_eq!(t.elapsed(5000), 5500);
    t.advance_by(5000, 1000, 5500);
    assert_eq!(t.elapsed(5000), 5500);
}

#[test]
fn advance_by_steps_below_cap() {
    let mut t = Timeline::new();
    t.start(0);
    t.advance_by(2000, 1000, 600_000);
    assert_eq!(t.elapsed(2000), 3000);
}

#[test]
fn retreat_by_floors_at_zero() {
    let mut t = Timeline::new();
    t.start(0);
    t.retreat_by(500, 1000);
    assert!(!t.is_playing());
    assert_eq!(t.elapsed(500), 0);
    assert_eq!(t.elapsed(10_000), 0);
}

#[test]
fn retreat_by_steps_back() {
    let mut t = Timeline::new();
    t.start_at(0, 10_000);
    t.retreat_by(0, 1000);
    assert_eq!(t.elapsed(0), 9000);
}
