use synthy::keys::{build_keymap, KeyType, LAYOUT};
use synthy::render::{build_frame, partition_held, split_viewport};
use synthy::timeline::{ClockReference, NoteEvent, NoteTile, ScoreTimeline, TimelineError, ZERO_NOTE_DURATION};

fn tile(key: usize, start: u64, duration: u64, lead: u64) -> NoteTile {
    NoteTile::new(NoteEvent { key, start, duration }, lead).unwrap()
}

#[test]
fn visibility_window_boundaries() {
    let lead = 1_500_000;
    let t = tile(40, 2_000_000, 1_000_000, lead);
    assert!(!t.in_scope(499_999));
    assert!(t.in_scope(500_000));
    assert!(t.in_scope(2_000_000));
    assert!(t.in_scope(3_000_000));
    assert!(!t.in_scope(3_000_001));
    assert!(!t.in_scope(0));
}

#[test]
fn visibility_window_with_lead_longer_than_start() {
    let t = tile(0, 2_000_000, 1_000_000, 5_000_000);
    assert!(t.in_scope(0));
    assert!(t.in_scope(3_000_000));
    assert!(!t.in_scope(3_000_001));
}

#[test]
fn position_strictly_falls_across_window() {
    let t = tile(10, 2_000_000, 1_000_000, 1_000_000);
    let mut elapsed = 1_000_000;
    let mut last = t.vertical_position(elapsed, 600);
    // 600 px, in units of one lead-time-th of a pixel.
    assert_eq!(last, 600 * 1_000_000);
    while elapsed < 3_000_000 {
        elapsed += 10_000;
        assert!(t.in_scope(elapsed));
        let p = t.vertical_position(elapsed, 600);
        assert!(p < last);
        last = p;
    }
    assert_eq!(last, -600 * 1_000_000);
}

#[test]
fn position_falls_at_every_microsecond() {
    let t = tile(10, 2_000_000, 1_000_000, 1_000_000);
    let a = t.vertical_position(1_000_001, 600);
    let b = t.vertical_position(1_000_002, 600);
    assert!(b < a);
    assert_eq!(a - b, 600);
}

#[test]
fn position_exact_values() {
    let t = tile(10, 2_000_000, 1_000_000, 2_000_000);
    assert_eq!(t.vertical_position(1_000_000, 600), 300 * 2_000_000);
    assert_eq!(t.vertical_position(2_000_000, 600), 0);
    assert_eq!(t.vertical_position(2_500_000, 600), -150 * 2_000_000);
    assert_eq!(t.vertical_position(2_000_001, 600), -600);
    assert_eq!(t.vertical_position(1_999_999, 600), 600);
}

#[test]
fn height_is_linear_in_duration() {
    let short = tile(3, 0, 1_000_000, 2_000_000);
    let long = tile(3, 0, 2_000_000, 2_000_000);
    assert_eq!(short.vertical_height(600), 300 * 2_000_000);
    assert_eq!(long.vertical_height(600), 600 * 2_000_000);
    assert_eq!(short.vertical_height(0), 0);
}

#[test]
fn slightly_longer_note_is_taller() {
    let a = tile(3, 0, 20_000, 1_000_000);
    let b = tile(3, 0, 20_001, 1_000_000);
    assert!(a.vertical_height(600) < b.vertical_height(600));
    assert_eq!(b.vertical_height(600) - a.vertical_height(600), 600);
}

#[test]
fn shortest_tile_has_positive_height() {
    let t = tile(3, 0, 0, 3_000_000);
    let h = t.vertical_height(100);
    assert!(h > 0);
    assert_eq!(h, (ZERO_NOTE_DURATION as u128) * 100);
    // At 150 px a zero-length note's tile is exactly one pixel tall.
    assert_eq!(t.vertical_height(150), 3_000_000);
    let brief = tile(3, 0, 1, 3_000_000);
    assert_eq!(brief.vertical_height(1), 1);
}

#[test]
fn short_note_keeps_its_own_window() {
    let t = tile(12, 2_000_000, 1, 1_000_000);
    assert_eq!(t.duration(), 1);
    assert!(t.in_scope(2_000_000));
    assert!(t.in_scope(2_000_001));
    assert!(!t.in_scope(2_000_002));
    let u = tile(12, 2_000_000, 19_999, 1_000_000);
    assert_eq!(u.duration(), 19_999);
    assert!(u.in_scope(2_019_999));
    assert!(!u.in_scope(2_020_000));
    assert!(u.vertical_height(600) < tile(12, 0, 20_000, 1_000_000).vertical_height(600));
}

#[test]
fn zero_duration_note_stays_visible() {
    let t = tile(5, 1_000_000, 0, 500_000);
    assert_eq!(t.duration(), ZERO_NOTE_DURATION);
    assert!(t.in_scope(1_000_000));
    assert!(t.vertical_height(1000) > 0);
    let samples = (0..200u64).map(|k| k * 10_000).filter(|e| t.in_scope(*e)).count();
    assert!(samples > 0);
}

#[test]
fn tile_construction_errors() {
    let e = NoteEvent { key: 3, start: 0, duration: 10 };
    assert_eq!(NoteTile::new(e, 0).err(), Some(TimelineError::ZeroLeadTime));
    let bad = NoteEvent { key: 88, start: 0, duration: 10 };
    assert_eq!(NoteTile::new(bad, 1000).err(), Some(TimelineError::KeyOutOfRange { key: 88 }));
}

#[test]
fn timeline_keeps_event_order() {
    let events = vec![
        NoteEvent { key: 7, start: 3_000_000, duration: 500_000 },
        NoteEvent { key: 2, start: 1_000_000, duration: 0 },
    ];
    let timeline = ScoreTimeline::new(&events, 1_000_000).unwrap();
    assert_eq!(timeline.len(), 2);
    assert_eq!(timeline.lead_time(), 1_000_000);
    assert_eq!(timeline.tile(0).key(), 7);
    assert_eq!(timeline.tile(0).start(), 3_000_000);
    assert_eq!(timeline.tile(1).key(), 2);
    assert_eq!(timeline.tile(1).duration(), ZERO_NOTE_DURATION);
    assert_eq!(timeline.tile(1).lead_time(), 1_000_000);
}

#[test]
fn timeline_errors() {
    let events = vec![
        NoteEvent { key: 7, start: 0, duration: 1 },
        NoteEvent { key: 90, start: 0, duration: 1 },
        NoteEvent { key: 95, start: 0, duration: 1 },
    ];
    assert_eq!(ScoreTimeline::new(&events, 1000).err(), Some(TimelineError::KeyOutOfRange { key: 90 }));
    assert_eq!(ScoreTimeline::new(&events, 0).err(), Some(TimelineError::ZeroLeadTime));
    assert_eq!(ScoreTimeline::new(&Vec::new(), 1000).unwrap().len(), 0);
}

#[test]
fn clock_reference_elapsed() {
    let clock = ClockReference::new(5_000);
    assert_eq!(clock.elapsed(5_000), 0);
    assert_eq!(clock.elapsed(7_500), 2_500);
    assert_eq!(clock.elapsed(1_000), 0);
}

#[test]
fn viewport_split() {
    assert_eq!(split_viewport(1000), (850, 150));
    assert_eq!(split_viewport(0), (0, 0));
    assert_eq!(split_viewport(99), (85, 14));
}

#[test]
fn held_keys_partitioned_by_class() {
    let keymap = build_keymap(LAYOUT.as_bytes(), 20, 12).unwrap();
    let mut held = [false; 88];
    held[0] = true;
    held[1] = true;
    held[4] = true;
    held[87] = true;
    let (white, black) = partition_held(&held, &keymap);
    assert_eq!(white, vec![0, 87]);
    assert_eq!(black, vec![1, 4]);
    let (white, black) = partition_held(&[false; 88], &keymap);
    assert!(white.is_empty() && black.is_empty());
}

#[test]
fn frame_keeps_only_tiles_in_scope() {
    let keymap = build_keymap(LAYOUT.as_bytes(), 20, 12).unwrap();
    let events = vec![
        NoteEvent { key: 2, start: 2_000_000, duration: 1_000_000 },
        NoteEvent { key: 1, start: 9_000_000, duration: 1_000_000 },
        NoteEvent { key: 1, start: 1_500_000, duration: 1_000_000 },
    ];
    let timeline = ScoreTimeline::new(&events, 1_000_000).unwrap();
    let mut held = [false; 88];
    held[1] = true;
    held[2] = true;
    let frame = build_frame(&timeline, &keymap, &held, 1_500_000, 1000);
    assert_eq!(frame.playfield_height, 850);
    assert_eq!(frame.keyboard_height, 150);
    assert_eq!(frame.tiles.len(), 2);
    let first = frame.tiles[0];
    assert_eq!(first.key, 2);
    assert_eq!(first.key_type, KeyType::WHITE);
    assert_eq!(first.offset_x, 20);
    assert_eq!(first.units_per_pixel, 1_000_000);
    assert_eq!(first.height, 850 * 1_000_000);
    // Lower edge 425 px above the keyboard: top = 850 - 425 - 850 px.
    assert_eq!(first.top, -425 * 1_000_000);
    let second = frame.tiles[1];
    assert_eq!(second.key, 1);
    assert_eq!(second.key_type, KeyType::BLACK);
    assert_eq!(second.offset_x, 14);
    assert_eq!(second.top, 0);
    assert_eq!(frame.white_keys, vec![2]);
    assert_eq!(frame.black_keys, vec![1]);
}
