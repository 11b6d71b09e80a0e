use mod_player::get_format;
use mod_player::identify_num_samples;
use mod_player::load;
use mod_player::Effect;
use mod_player::FormatError;
use mod_player::Note;
use mod_player::Sample;

/// A buffer of `len` zero bytes.
fn zeros(len: usize) -> Vec<u8> {
    let mut v = Vec::new();
    v.resize(len, 0u8);
    v
}

/// A buffer long enough to carry a tag, with the given 4 tag bytes at
/// offset 1080.
fn with_tag(tag: &[u8; 4]) -> Vec<u8> {
    let mut v = zeros(1084);
    v[1080] = tag[0];
    v[1081] = tag[1];
    v[1082] = tag[2];
    v[1083] = tag[3];
    v
}

/// The 4 raw bytes of one note cell.
fn note_bytes(sample: u8, period: u16, effect: u8, arg: u8) -> [u8; 4] {
    [
        (sample & 0xf0) | ((period >> 8) as u8 & 0x0f),
        (period & 0xff) as u8,
        ((sample & 0x0f) << 4) | (effect & 0x0f),
        arg,
    ]
}

/// A legacy (15-sample, untagged) file: 15 sample headers with the given
/// word sizes, one pattern-order entry used, `pattern_bytes` of pattern
/// payload, then the waveform bytes.
fn legacy_file(sample_words: &[u16], pattern_bytes: usize, wave: &[u8]) -> Vec<u8> {
    let mut v = zeros(20);
    for k in 0..15 {
        let mut header = zeros(30);
        if k < sample_words.len() {
            header[22] = (sample_words[k] >> 8) as u8;
            header[23] = (sample_words[k] & 0xff) as u8;
            header[25] = 64;
        }
        v.extend_from_slice(&header);
    }
    v.push(1); // num_used_patterns
    v.push(0); // end_position
    v.extend_from_slice(&zeros(128));
    v.extend_from_slice(&zeros(pattern_bytes));
    v.extend_from_slice(wave);
    v
}

#[test]
fn format_tag_mk() {
    let f = get_format(&with_tag(b"M.K."));
    assert_eq!(f.num_channels, 4);
    assert_eq!(f.num_samples, 31);
    assert!(f.has_tag);
}

#[test]
fn format_tag_flt4() {
    let f = get_format(&with_tag(b"FLT4"));
    assert_eq!((f.num_channels, f.num_samples, f.has_tag), (4, 31, true));
}

#[test]
fn format_tag_mkbang() {
    let f = get_format(&with_tag(b"M!K!"));
    assert_eq!((f.num_channels, f.num_samples, f.has_tag), (4, 31, true));
}

#[test]
fn format_tag_4chn() {
    let f = get_format(&with_tag(b"4CHN"));
    assert_eq!((f.num_channels, f.num_samples, f.has_tag), (4, 31, true));
}

#[test]
fn format_unrecognized_tag_is_legacy() {
    let f = get_format(&with_tag(b"XXXX"));
    assert_eq!((f.num_channels, f.num_samples, f.has_tag), (4, 15, false));
    let g = get_format(&zeros(1084));
    assert_eq!((g.num_channels, g.num_samples, g.has_tag), (4, 15, false));
}

#[test]
fn format_short_buffer_is_legacy() {
    let f = get_format(&zeros(600));
    assert_eq!((f.num_channels, f.num_samples, f.has_tag), (4, 15, false));
}

#[test]
fn identify_num_samples_mk_only() {
    assert_eq!(identify_num_samples(&with_tag(b"M.K.")), 31);
    assert_eq!(identify_num_samples(&with_tag(b"FLT4")), 15);
    assert_eq!(identify_num_samples(&zeros(100)), 15);
}

#[test]
fn sample_header_fields() {
    let mut b = [0u8; 30];
    b[0] = b'd';
    b[1] = b'r';
    b[2] = b'u';
    b[3] = b'm';
    b[22] = 0x01; // size words, big-endian: 0x0102 = 258 words
    b[23] = 0x02;
    b[24] = 7; // fine tune
    b[25] = 48; // volume
    b[26] = 0x00; // repeat offset words: 3
    b[27] = 0x03;
    b[28] = 0x00; // repeat size words: 2
    b[29] = 0x02;
    let s = Sample::new(&b[..]);
    assert!(s.name.starts_with("drum"));
    assert_eq!(s.size, 516); // word count times two
    assert_eq!(s.fine_tune, 7);
    assert_eq!(s.volume, 48);
    assert_eq!(s.repeat_offset, 6); // byte units, times-two convention
    assert_eq!(s.repeat_size, 4);
    assert_eq!(s.waveform.len(), 0);
}

#[test]
fn sample_name_decodes_invalid_bytes_lossily() {
    let mut b = [0u8; 30];
    b[0] = 0xFF; // not valid UTF-8: must be substituted, not fatal
    b[1] = b'o';
    b[2] = b'k';
    let s = Sample::new(&b[..]);
    let first = s.name.chars().next();
    assert_eq!(first, Some('\u{FFFD}'));
    assert_eq!(&s.name[3..5], "ok");
}

#[test]
fn note_cell_decode() {
    let b = note_bytes(0x11, 428, 0, 0); // sample 17, period 428
    let n = Note::new(&b[..]);
    assert_eq!(n.sample_number, 17);
    assert_eq!(n.period, 428);
    assert_eq!(n.effect, Effect::NoEffect);
}

#[test]
fn effect_selector_zero() {
    assert_eq!(Effect::new(0, 0), Effect::NoEffect);
    assert_eq!(
        Effect::new(0, 0x35),
        Effect::Arpeggio { chord_offset_1: 3, chord_offset_2: 5 }
    );
}

#[test]
fn effect_slides_and_portamento() {
    assert_eq!(Effect::new(1, 0x12), Effect::SlideUp { speed: 0x12 });
    assert_eq!(Effect::new(2, 0x0f), Effect::SlideDown { speed: 0x0f });
    assert_eq!(Effect::new(3, 5), Effect::TonePortamento { speed: 5 });
}

#[test]
fn effect_vibrato_nibbles() {
    assert_eq!(
        Effect::new(4, 0x24),
        Effect::Vibrato { speed: 2, amplitude: 4 }
    );
}

#[test]
fn effect_volume_slide_direction() {
    // High nibble nonzero: increase by its magnitude.
    assert_eq!(Effect::new(10, 0x30), Effect::VolumeSlide { volume_change: 3 });
    // High nibble zero: decrease by the low nibble's magnitude.
    assert_eq!(Effect::new(10, 0x04), Effect::VolumeSlide { volume_change: -4 });
}

#[test]
fn effect_transport_and_volume() {
    assert_eq!(Effect::new(11, 7), Effect::PositionJump { next_pattern: 7 });
    assert_eq!(Effect::new(12, 40), Effect::SetVolume { volume: 40 });
    assert_eq!(Effect::new(15, 3), Effect::SetSpeed { speed: 3 });
}

#[test]
fn effect_pattern_break_argument() {
    assert_eq!(
        Effect::new(13, 0x05),
        Effect::PatternBreak { next_pattern_pos: 5 }
    );
    // The decoder multiplies the whole high-nibble value by ten.
    assert_eq!(
        Effect::new(13, 0x12),
        Effect::PatternBreak { next_pattern_pos: 162 }
    );
}

#[test]
fn effect_unrecognized_selectors_degrade() {
    assert_eq!(Effect::new(14, 3), Effect::NoEffect); // extended effects
    assert_eq!(Effect::new(5, 1), Effect::NoEffect);
    assert_eq!(Effect::new(6, 0x21), Effect::NoEffect);
    assert_eq!(Effect::new(7, 9), Effect::NoEffect);
}

#[test]
fn pattern_new_is_an_empty_grid() {
    let p = mod_player::Pattern::new();
    assert_eq!(p.lines.len(), 64);
    for line in &p.lines {
        assert_eq!(line.len(), 0);
    }
}

#[test]
fn load_minimal_legacy_song() {
    let bytes = legacy_file(&[], 1024, &[]);
    let song = load(&bytes).unwrap();
    assert_eq!(song.format.num_samples, 15);
    assert!(!song.format.has_tag);
    assert_eq!(song.samples.len(), 15);
    assert_eq!(song.patterns.len(), 1);
    assert_eq!(song.pattern_table.len(), 128);
    assert_eq!(song.num_used_patterns, 1);
    assert_eq!(song.patterns[0].lines.len(), 64);
    assert_eq!(song.patterns[0].lines[0].len(), 4);
    assert_eq!(song.patterns[0].lines[0][0].period, 0);
}

#[test]
fn load_infers_pattern_count() {
    let two = load(&legacy_file(&[], 2048, &[])).unwrap();
    assert_eq!(two.patterns.len(), 2);
    let five = load(&legacy_file(&[], 5 * 1024, &[])).unwrap();
    assert_eq!(five.patterns.len(), 5);
}

#[test]
fn load_rejects_uneven_pattern_payload() {
    let r = load(&legacy_file(&[], 1024 + 512, &[]));
    assert_eq!(r.err(), Some(FormatError::PatternSizeMismatch));
}

#[test]
fn load_rejects_short_header() {
    let r = load(&zeros(100));
    assert_eq!(r.err(), Some(FormatError::Truncated));
}

#[test]
fn load_rejects_missing_waveform_bytes() {
    // One sample declares 1200 waveform bytes but only 1024 bytes follow
    // the header: the declared waveforms alone overrun the buffer.
    let r = load(&legacy_file(&[600], 1024, &[]));
    assert_eq!(r.err(), Some(FormatError::Truncated));
    // A small shortfall instead eats into the pattern accounting: the
    // bytes left for patterns are no longer a whole number of patterns.
    let r2 = load(&legacy_file(&[2], 1024, &[]));
    assert_eq!(r2.err(), Some(FormatError::PatternSizeMismatch));
}

#[test]
fn load_reads_waveforms_from_the_tail() {
    let bytes = legacy_file(&[2], 1024, &[1, 2, 0xFF, 0x80]);
    let song = load(&bytes).unwrap();
    assert_eq!(song.samples[0].size, 4);
    assert_eq!(song.samples[0].waveform, [1i8, 2, -1, -128]);
    assert_eq!(song.samples[1].size, 0);
    assert_eq!(song.samples[1].waveform.len(), 0);
}

#[test]
fn load_decodes_notes_in_patterns() {
    let mut bytes = legacy_file(&[], 1024, &[]);
    // Line 0, channel 2 of the single pattern starts at header end (600)
    // plus 2 note cells.
    let off = 600 + 8;
    let cell = note_bytes(1, 428, 12, 33);
    bytes[off] = cell[0];
    bytes[off + 1] = cell[1];
    bytes[off + 2] = cell[2];
    bytes[off + 3] = cell[3];
    let song = load(&bytes).unwrap();
    let n = &song.patterns[0].lines[0][2];
    assert_eq!(n.sample_number, 1);
    assert_eq!(n.period, 428);
    assert_eq!(n.effect, Effect::SetVolume { volume: 33 });
}
