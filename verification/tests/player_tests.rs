use mod_player::change_note;
use mod_player::next_sample;
use mod_player::play_line;
use mod_player::play_note;
use mod_player::update_effects;
use mod_player::Effect;
use mod_player::FormatDescription;
use mod_player::Note;
use mod_player::Pattern;
use mod_player::PlayerState;
use mod_player::Sample;
use mod_player::Song;

fn empty_note() -> Note {
    Note { sample_number: 0, period: 0, effect: Effect::NoEffect }
}

fn empty_line() -> Vec<Note> {
    vec![empty_note(), empty_note(), empty_note(), empty_note()]
}

/// A 64-line pattern whose line 0 is the given 4 notes; all other lines
/// are silent.
fn pattern_with_line0(line0: Vec<Note>) -> Pattern {
    let mut lines = vec![line0];
    for _ in 1..64 {
        lines.push(empty_line());
    }
    Pattern { lines }
}

fn test_sample(volume: u8, repeat_offset: u32, repeat_size: u32, waveform: Vec<i8>) -> Sample {
    Sample {
        name: String::from("synthetic"),
        size: waveform.len() as u32,
        volume,
        fine_tune: 0,
        repeat_offset,
        repeat_size,
        waveform,
    }
}

fn test_song(samples: Vec<Sample>, patterns: Vec<Pattern>, num_used_patterns: u32) -> Song {
    let mut pattern_table = vec![0u8; 128];
    for i in 0..patterns.len() {
        pattern_table[i] = i as u8;
    }
    Song {
        name: String::from("test song"),
        format: FormatDescription { num_channels: 4, num_samples: samples.len() as u32, has_tag: false },
        samples,
        patterns,
        pattern_table,
        num_used_patterns,
        end_position: 0,
    }
}

fn note(sample_number: u8, period: u32, effect: Effect) -> Note {
    Note { sample_number, period, effect }
}

#[test]
fn change_note_moves_and_clamps() {
    assert_eq!(change_note(400, 100), 500);
    assert_eq!(change_note(850, 100), 856);
    assert_eq!(change_note(120, -100), 113);
    assert_eq!(change_note(400, 0), 400);
}

#[test]
fn player_state_new_defaults() {
    let s = PlayerState::new(4, 48000);
    assert_eq!(s.channels.len(), 4);
    assert_eq!(s.song_speed, 6);
    assert_eq!(s.samples_per_vblank, 960);
    assert_eq!(s.current_line, 0);
    assert_eq!(s.song_pattern_position, 0);
    assert!(!s.song_has_ended);
    assert!(!s.has_looped);
    assert_eq!(s.next_pattern_pos, -1);
    assert_eq!(s.next_position, -1);
    assert_eq!(s.channels[0].sample_num, 0);
}

#[test]
fn round_trip_determinism() {
    let song = test_song(
        vec![test_sample(64, 0, 2, vec![100, 100, -100, -100])],
        vec![pattern_with_line0(vec![
            note(1, 400, Effect::NoEffect),
            empty_note(),
            empty_note(),
            empty_note(),
        ])],
        1,
    );
    let mut s1 = PlayerState::new(4, 50);
    let mut s2 = PlayerState::new(4, 50);
    let mut frames1 = Vec::new();
    let mut frames2 = Vec::new();
    let mut heard_something = false;
    for _ in 0..600 {
        frames1.push(next_sample(&song, &mut s1));
    }
    for _ in 0..600 {
        let f = next_sample(&song, &mut s2);
        if f.0 != 0 || f.1 != 0 {
            heard_something = true;
        }
        frames2.push(f);
    }
    assert_eq!(frames1, frames2);
    assert!(heard_something);
}

#[test]
fn loop_window_wrap() {
    // A 4-byte waveform with repeat window [1, 3): once the cursor passes
    // the sample's end, it must land at repeat_offset + overshoot and the
    // effective length must become repeat_offset + repeat_size.
    let song = test_song(
        vec![test_sample(64, 1, 2, vec![10, 20, 30, 40])],
        vec![pattern_with_line0(empty_line())],
        1,
    );
    let mut state = PlayerState::new(4, 48000);
    state.channels[0].sample_num = 1;
    state.channels[0].size = 4;
    state.channels[0].period = 400;
    state.channels[0].volume = 64;
    state.channels[0].sample_pos = 255590; // just below 4.0 in 16.16
    let (left, right) = next_sample(&song, &mut state);
    // Channel 0 reads index 3 before advancing: 40 * 64.
    assert_eq!(left, 2560);
    assert_eq!(right, 0);
    let advance = (3579545u64 * 65536) / (48000u64 * 400);
    let overshoot = 255590 + advance - 4 * 65536;
    assert_eq!(state.channels[0].sample_pos, 1 * 65536 + overshoot);
    assert_eq!(state.channels[0].size, 3);
}

#[test]
fn vibrato_cycle_is_symmetric_about_anchor() {
    let song = test_song(
        vec![test_sample(64, 0, 0, vec![0, 0, 0, 0])],
        vec![pattern_with_line0(empty_line())],
        1,
    );
    let mut state = PlayerState::new(4, 48000);
    state.channels[0].sample_num = 1;
    state.channels[0].base_period = 400;
    state.channels[0].vibrato_depth = 10;
    state.channels[0].vibrato_speed = 1;
    state.channels[0].vibrato_pos = 0;
    let mut sum: i64 = 0;
    let mut saw_above = false;
    let mut saw_below = false;
    for _ in 0..64 {
        update_effects(&song, &mut state);
        let p = state.channels[0].period as i64;
        sum += p - 400;
        if p > 400 {
            saw_above = true;
        }
        if p < 400 {
            saw_below = true;
        }
    }
    assert_eq!(sum, 0);
    assert!(saw_above && saw_below);
    // Phase 16 is the crest of the waveform: 255 * 10 / 32 = 79.
    let mut crest = PlayerState::new(4, 48000);
    crest.channels[0].sample_num = 1;
    crest.channels[0].base_period = 400;
    crest.channels[0].vibrato_depth = 10;
    crest.channels[0].vibrato_speed = 1;
    crest.channels[0].vibrato_pos = 16;
    update_effects(&song, &mut crest);
    assert_eq!(crest.channels[0].period, 479);
}

#[test]
fn pattern_break_plays_line_of_next_slot() {
    let p0 = pattern_with_line0(vec![
        note(0, 0, Effect::PatternBreak { next_pattern_pos: 5 }),
        empty_note(),
        empty_note(),
        empty_note(),
    ]);
    let p1 = pattern_with_line0(empty_line());
    let song = test_song(vec![], vec![p0, p1], 2);
    let mut state = PlayerState::new(4, 48000);
    play_line(&song, &mut state);
    assert_eq!(state.next_pattern_pos, 5);
    assert_eq!(state.song_pattern_position, 0);
    play_line(&song, &mut state);
    // The break moved the transport to line 5 of order slot 1, and that
    // line has now been played.
    assert_eq!(state.song_pattern_position, 1);
    assert_eq!(state.current_line, 6);
    assert_eq!(state.next_pattern_pos, -1);
}

#[test]
fn end_of_song_after_last_used_pattern() {
    let song = test_song(vec![], vec![pattern_with_line0(empty_line())], 2);
    let mut state = PlayerState::new(4, 48000);
    state.current_line = 63;
    play_line(&song, &mut state);
    assert!(!state.song_has_ended);
    assert_eq!(state.song_pattern_position, 1);
    assert_eq!(state.current_line, 0);
    state.current_line = 63;
    play_line(&song, &mut state);
    assert!(state.song_has_ended);
    assert_eq!(state.song_pattern_position, 2);
}

#[test]
fn position_jump_backwards_sets_loop_flag() {
    let p0 = pattern_with_line0(vec![
        note(0, 0, Effect::PositionJump { next_pattern: 0 }),
        empty_note(),
        empty_note(),
        empty_note(),
    ]);
    let song = test_song(vec![], vec![p0], 1);
    let mut state = PlayerState::new(4, 48000);
    play_line(&song, &mut state);
    assert!(state.has_looped);
    assert_eq!(state.next_position, 0);
    play_line(&song, &mut state);
    // The jump went back to slot 0 and its line 0 played again, arming
    // the same jump anew.
    assert_eq!(state.song_pattern_position, 0);
    assert_eq!(state.current_line, 1);
    assert_eq!(state.next_position, 0);
}

#[test]
fn set_speed_effect_changes_song_speed() {
    let p0 = pattern_with_line0(vec![
        note(0, 0, Effect::SetSpeed { speed: 3 }),
        empty_note(),
        empty_note(),
        empty_note(),
    ]);
    let song = test_song(vec![], vec![p0], 1);
    let mut state = PlayerState::new(4, 48000);
    play_line(&song, &mut state);
    assert_eq!(state.song_speed, 3);
}

#[test]
fn set_volume_is_clamped_at_next_tick() {
    let song = test_song(
        vec![test_sample(60, 0, 0, vec![0, 0])],
        vec![pattern_with_line0(empty_line())],
        1,
    );
    let mut state = PlayerState::new(4, 48000);
    let n = note(1, 400, Effect::SetVolume { volume: 200 });
    play_note(&n, &mut state, 0, &song);
    assert_eq!(state.channels[0].volume, 200);
    update_effects(&song, &mut state);
    assert_eq!(state.channels[0].volume, 64);
}

#[test]
fn volume_slide_applies_per_tick() {
    let song = test_song(
        vec![test_sample(60, 0, 0, vec![0, 0])],
        vec![pattern_with_line0(empty_line())],
        1,
    );
    let mut state = PlayerState::new(4, 48000);
    let n = note(1, 400, Effect::VolumeSlide { volume_change: -4 });
    play_note(&n, &mut state, 0, &song);
    assert_eq!(state.channels[0].volume, 60);
    update_effects(&song, &mut state);
    assert_eq!(state.channels[0].volume, 56);
    update_effects(&song, &mut state);
    assert_eq!(state.channels[0].volume, 52);
}

#[test]
fn tone_portamento_glides_to_target() {
    let song = test_song(
        vec![test_sample(64, 0, 0, vec![0, 0])],
        vec![pattern_with_line0(empty_line())],
        1,
    );
    let mut state = PlayerState::new(4, 48000);
    play_note(&note(1, 500, Effect::NoEffect), &mut state, 0, &song);
    assert_eq!(state.channels[0].period, 500);
    play_note(&note(0, 400, Effect::TonePortamento { speed: 30 }), &mut state, 0, &song);
    assert_eq!(state.channels[0].period, 500);
    assert_eq!(state.channels[0].period_target, 400);
    let expected = [470u32, 440, 410, 400, 400];
    for e in expected {
        update_effects(&song, &mut state);
        assert_eq!(state.channels[0].period, e);
    }
    assert_eq!(state.channels[0].period_target, 0);
    assert_eq!(state.channels[0].note_change, 0);
}

#[test]
fn slide_down_clamps_at_hardware_range() {
    let song = test_song(
        vec![test_sample(64, 0, 0, vec![0, 0])],
        vec![pattern_with_line0(empty_line())],
        1,
    );
    let mut state = PlayerState::new(4, 48000);
    play_note(&note(1, 850, Effect::SlideDown { speed: 10 }), &mut state, 0, &song);
    update_effects(&song, &mut state);
    assert_eq!(state.channels[0].period, 856);
    update_effects(&song, &mut state);
    assert_eq!(state.channels[0].period, 856);
}

#[test]
fn arpeggio_cycles_anchor_and_offsets() {
    let song = test_song(
        vec![test_sample(64, 0, 0, vec![0, 0])],
        vec![pattern_with_line0(empty_line())],
        1,
    );
    let mut state = PlayerState::new(4, 48000);
    play_note(
        &note(1, 428, Effect::Arpeggio { chord_offset_1: 1, chord_offset_2: 2 }),
        &mut state,
        0,
        &song,
    );
    // Anchor 428 sits at table index 35; the cycle emits the anchor, the
    // entry at index + offset - 1, then the next.
    let expected = [428u32, 428, 453, 428, 428, 453];
    for e in expected {
        update_effects(&song, &mut state);
        assert_eq!(state.channels[0].period, e);
    }
}

#[test]
fn channels_one_and_two_feed_the_right_bus() {
    let song = test_song(
        vec![test_sample(64, 0, 0, vec![50, 50])],
        vec![pattern_with_line0(empty_line())],
        1,
    );
    let mut state = PlayerState::new(4, 48000);
    state.channels[1].sample_num = 1;
    state.channels[1].size = 4;
    state.channels[1].period = 400;
    state.channels[1].volume = 64;
    let (left, right) = next_sample(&song, &mut state);
    assert_eq!(left, 0);
    assert_eq!(right, 50 * 64);
}

#[test]
fn get_song_line_returns_current_line() {
    let p0 = pattern_with_line0(vec![
        empty_note(),
        empty_note(),
        note(0, 777, Effect::NoEffect),
        empty_note(),
    ]);
    let song = test_song(vec![], vec![p0], 1);
    let state = PlayerState::new(4, 48000);
    let line = state.get_song_line(&song);
    assert_eq!(line.len(), 4);
    assert_eq!(line[2].period, 777);
}

#[test]
fn silence_once_no_channel_is_active() {
    let song = test_song(vec![], vec![pattern_with_line0(empty_line())], 1);
    let mut state = PlayerState::new(4, 48000);
    for _ in 0..100 {
        let (left, right) = next_sample(&song, &mut state);
        assert_eq!((left, right), (0, 0));
    }
}
