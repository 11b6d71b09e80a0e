//! The decoded data model: samples, effects, notes, patterns, the format
//! description and the immutable [`Song`] aggregate, together with the
//! well-formedness predicates that the decoder establishes and the playback
//! engine relies on.

use vstd::prelude::*;

verus! {

/// Lines per pattern.
pub const LINES_PER_PATTERN: usize = 64;

/// Slots in the pattern-order table.
pub const PATTERN_TABLE_LEN: usize = 128;

/// Largest sample byte length a header can encode: a 16-bit big-endian
/// word count times two.
pub const MAX_SAMPLE_BYTES: u32 = 131070;

/// One instrument: header metadata plus the signed 8-bit waveform.
pub struct Sample {
    /// Display name, decoded permissively from the 22-byte name field.
    pub name: String,
    /// Waveform length in signed 8-bit units.
    pub size: u32,
    /// Default channel volume, 0–64 in well-behaved files.
    pub volume: u8,
    /// Signed pitch bias, decoded but not applied to pitch.
    pub fine_tune: u8,
    /// Start of the loop window within the waveform, in bytes.
    pub repeat_offset: u32,
    /// Length of the loop window, in bytes; 0 means no loop.
    pub repeat_size: u32,
    /// The amplitude values; length equals `size` once the song is loaded.
    pub waveform: Vec<i8>,
}

impl Sample {
    /// Field bounds that every decoded sample meets: the waveform is
    /// exactly `size` bytes, and all header lengths fit the 16-bit word
    /// encoding.
    pub open spec fn wf(&self) -> bool {
        &&& self.waveform@.len() == self.size
        &&& self.size <= MAX_SAMPLE_BYTES
        &&& self.repeat_offset <= MAX_SAMPLE_BYTES
        &&& self.repeat_size <= MAX_SAMPLE_BYTES
    }
}

/// The closed set of per-note effects.  Exactly one variant is active per
/// note; unrecognized selectors decode to `NoEffect`.
#[derive(Clone, Copy, Debug, PartialEq, Eq, Structural)]
pub enum Effect {
    /// No effect this note.
    NoEffect,
    /// Cycle the period among the note and two chord offsets, one step per
    /// tick.
    Arpeggio { chord_offset_1: u8, chord_offset_2: u8 },
    /// Decrease the period (raise the pitch) by `speed` every tick.
    SlideUp { speed: u8 },
    /// Increase the period (lower the pitch) by `speed` every tick.
    SlideDown { speed: u8 },
    /// Glide from the current period toward the note's period by `speed`
    /// per tick.
    TonePortamento { speed: u8 },
    /// Oscillate the period about its anchor with the given phase speed
    /// and amplitude.
    Vibrato { speed: u8, amplitude: u8 },
    /// Add `volume_change` to the channel volume every tick.
    VolumeSlide { volume_change: i8 },
    /// Jump to the given pattern-order slot after this line.
    PositionJump { next_pattern: u8 },
    /// Set the channel volume outright.
    SetVolume { volume: u8 },
    /// Continue on the given line of the next pattern-order slot after
    /// this line.
    PatternBreak { next_pattern_pos: u8 },
    /// Set the song speed in ticks per line.
    SetSpeed { speed: u8 },
    /// Select a vibrato waveform: decoded by the format, never applied by
    /// the engine (a known gap of the format's players).
    SetVibratoWave { wave: u8 },
}

/// One channel's cell on one line: which sample to trigger (0 keeps the
/// previous), which period to take (0 keeps the previous), and an effect.
#[derive(Clone, Copy, Debug, PartialEq, Eq, Structural)]
pub struct Note {
    /// 1-based index into the song's sample table; 0 triggers nothing.
    pub sample_number: u8,
    /// Hardware timer period; inversely proportional to pitch; 12 bits.
    pub period: u32,
    /// The effect carried by this note.
    pub effect: Effect,
}

/// A fixed grid of 64 lines, each holding one note per channel.
pub struct Pattern {
    /// Outer vector: the 64 lines; inner vector: one note per channel.
    pub lines: Vec<Vec<Note>>,
}

impl Pattern {
    /// A pattern is exactly 64 lines of `num_channels` notes each.
    pub open spec fn wf(&self, num_channels: int) -> bool {
        &&& self.lines@.len() == LINES_PER_PATTERN
        &&& forall|l: int|
            0 <= l < self.lines@.len() ==> (#[trigger] self.lines@[l])@.len()
                == num_channels
    }
}

/// What the format sniffer decides from the 4-byte tag region.
#[derive(Clone, Copy, Debug, PartialEq, Eq, Structural)]
pub struct FormatDescription {
    /// Output channels per line; 4 in every known variant.
    pub num_channels: u32,
    /// Sample slots in the header; 31 when tagged, 15 for the legacy
    /// format.
    pub num_samples: u32,
    /// Whether a recognized 4-byte tag was present.
    pub has_tag: bool,
}

/// Why a byte buffer was rejected as a song.
#[derive(Clone, Copy, Debug, PartialEq, Eq, Structural)]
pub enum FormatError {
    /// The buffer ends before the header region it must contain.
    Truncated,
    /// The bytes left for patterns are not a whole number of patterns.
    PatternSizeMismatch,
}

/// The decoded, immutable song aggregate.
pub struct Song {
    /// Display name from the 20-byte header field.
    pub name: String,
    /// What the sniffer decided about the file layout.
    pub format: FormatDescription,
    /// The ordered sample table.
    pub samples: Vec<Sample>,
    /// The ordered pattern table.
    pub patterns: Vec<Pattern>,
    /// The play-order table: 128 slots, each indexing into `patterns`.
    pub pattern_table: Vec<u8>,
    /// How many leading slots of `pattern_table` belong to the song.
    pub num_used_patterns: u32,
    /// Advisory restart slot on implicit loop.
    pub end_position: u32,
}

impl Song {
    /// Structure that the decoder establishes: between 1 and 4 channels, a
    /// full 128-slot order table, well-formed samples, and patterns that
    /// are full 64-line grids of `num_channels` notes.
    pub open spec fn wf(&self) -> bool {
        &&& 1 <= self.format.num_channels <= 4
        &&& self.pattern_table@.len() == PATTERN_TABLE_LEN
        &&& forall|i: int|
            0 <= i < self.samples@.len() ==> (#[trigger] self.samples@[i]).wf()
        &&& forall|i: int|
            0 <= i < self.patterns@.len() ==> (#[trigger] self.patterns@[i]).wf(
                self.format.num_channels as int,
            )
    }

    /// The notes of line `line` of the pattern in play-order slot `pos`.
    pub open spec fn line_notes(&self, pos: int, line: int) -> Seq<Note> {
        self.patterns@[self.pattern_table@[pos] as int].lines@[line]@
    }

    /// Whether play-order slot `pos`, line `line` can be read at all: the
    /// slot is within the order table, it indexes an existing pattern, and
    /// the line number is within the 64-line grid.
    pub open spec fn line_readable(&self, pos: int, line: int) -> bool {
        &&& 0 <= pos < self.pattern_table@.len()
        &&& self.pattern_table@[pos] < self.patterns@.len()
        &&& 0 <= line < LINES_PER_PATTERN
    }
}

} // verus!
