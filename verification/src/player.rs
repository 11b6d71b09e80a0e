//! The playback state machine and mixer: per-channel runtime state, the
//! global transport, and the per-frame entry point [`next_sample`] that
//! advances musical time in hardware-derived tick units and produces one
//! stereo frame of summed integer amplitudes.
//!
//! Every mutation is specified against a ghost model ([`PlayerModel`]):
//! each public engine function promises that the state after the call is
//! exactly a spec-level function of the state before it, so playback is a
//! pure function of the song, the construction parameters and the frame
//! count.

use crate::song::Effect;
use crate::song::Note;
use crate::song::Song;
use crate::song::LINES_PER_PATTERN;
use crate::tables::find_period_index;
use crate::tables::period_at;
use crate::tables::period_index;
use crate::tables::period_table;
use crate::tables::vibrato_magnitude_at;
use crate::tables::vibrato_offset;
use crate::tables::PERIOD_TABLE_LEN;
use vstd::prelude::*;

verus! {

/// Amiga hardware clock ticks per second.
pub const AMIGA_CLOCK_HZ: u64 = 3579545;

/// Fixed-point scale of the fractional waveform cursor: 16 fraction bits.
pub const FP_SCALE: u64 = 65536;

/// Ticks (vblank-equivalents) per second.
pub const VBLANK_HZ: u32 = 50;

/// Largest effective playable length a channel can hold: a full sample
/// plus a full repeat window.
pub const MAX_CHANNEL_BYTES: u32 = 262140;

/// Upper bound on the fixed-point waveform cursor.
pub const MAX_CURSOR: u64 = 262140 * 65536;

/// One output channel's runtime state.
#[derive(Clone, Copy, Debug)]
pub struct ChannelInfo {
    /// 1-based index of the sounding sample; 0 means silent.
    pub sample_num: u8,
    /// Fractional waveform cursor, in 1/65536 byte units.
    pub sample_pos: u64,
    /// Current effective period; may diverge from the note's declared
    /// period under slide, vibrato or portamento.
    pub period: u32,
    /// Current effective playable length; becomes
    /// `repeat_offset + repeat_size` after the first loop wrap.
    pub size: u32,
    /// Channel volume, clamped into 0–64 at every tick.
    pub volume: u8,
    /// Per-tick volume delta from a volume-slide effect.
    pub volume_change: i8,
    /// Per-tick period delta from a slide or portamento effect.
    pub note_change: i32,
    /// Portamento destination period; 0 means none.
    pub period_target: u32,
    /// Anchor period for vibrato and arpeggio.
    pub base_period: u32,
    /// Vibrato phase position, kept below one 64-step cycle.
    pub vibrato_pos: u32,
    /// Vibrato phase advance per tick.
    pub vibrato_speed: u8,
    /// Vibrato amplitude; 0 means vibrato inactive.
    pub vibrato_depth: u8,
    /// Which step of the 3-step arpeggio cycle fires next.
    pub arpeggio_counter: u8,
    /// First chord offset of an active arpeggio.
    pub arpeggio_offset_1: u8,
    /// Second chord offset of an active arpeggio.
    pub arpeggio_offset_2: u8,
}

/// The ghost mirror of [`ChannelInfo`], over unbounded integers.
#[verifier::ext_equal]
pub ghost struct ChannelModel {
    pub sample_num: int,
    pub sample_pos: int,
    pub period: int,
    pub size: int,
    pub volume: int,
    pub volume_change: int,
    pub note_change: int,
    pub period_target: int,
    pub base_period: int,
    pub vibrato_pos: int,
    pub vibrato_speed: int,
    pub vibrato_depth: int,
    pub arpeggio_counter: int,
    pub arpeggio_offset_1: int,
    pub arpeggio_offset_2: int,
}

impl View for ChannelInfo {
    type V = ChannelModel;

    open spec fn view(&self) -> ChannelModel {
        ChannelModel {
            sample_num: self.sample_num as int,
            sample_pos: self.sample_pos as int,
            period: self.period as int,
            size: self.size as int,
            volume: self.volume as int,
            volume_change: self.volume_change as int,
            note_change: self.note_change as int,
            period_target: self.period_target as int,
            base_period: self.base_period as int,
            vibrato_pos: self.vibrato_pos as int,
            vibrato_speed: self.vibrato_speed as int,
            vibrato_depth: self.vibrato_depth as int,
            arpeggio_counter: self.arpeggio_counter as int,
            arpeggio_offset_1: self.arpeggio_offset_1 as int,
            arpeggio_offset_2: self.arpeggio_offset_2 as int,
        }
    }
}

/// The invariant each channel keeps between engine calls, relative to the
/// song's sample count.
pub open spec fn channel_inv(ch: ChannelModel, num_samples: int) -> bool {
    &&& 0 <= ch.sample_num <= num_samples
    &&& ch.sample_num == 0 ==> ch.size == 0
    &&& 0 <= ch.size <= MAX_CHANNEL_BYTES
    &&& 0 <= ch.sample_pos <= MAX_CURSOR
    &&& 0 <= ch.vibrato_pos < 64
    &&& 0 <= ch.arpeggio_counter < 3
    &&& -255 <= ch.note_change <= 255
}

impl ChannelInfo {
    /// A silent channel: every field zero.
    pub fn new() -> (c: ChannelInfo)
        ensures
            c@ == spec_new_channel(),
    {
        ChannelInfo {
            sample_num: 0,
            sample_pos: 0,
            period: 0,
            size: 0,
            volume: 0,
            volume_change: 0,
            note_change: 0,
            period_target: 0,
            base_period: 0,
            vibrato_pos: 0,
            vibrato_speed: 0,
            vibrato_depth: 0,
            arpeggio_counter: 0,
            arpeggio_offset_1: 0,
            arpeggio_offset_2: 0,
        }
    }
}

/// The model of a freshly constructed channel.
pub open spec fn spec_new_channel() -> ChannelModel {
    ChannelModel {
        sample_num: 0,
        sample_pos: 0,
        period: 0,
        size: 0,
        volume: 0,
        volume_change: 0,
        note_change: 0,
        period_target: 0,
        base_period: 0,
        vibrato_pos: 0,
        vibrato_speed: 0,
        vibrato_depth: 0,
        arpeggio_counter: 0,
        arpeggio_offset_1: 0,
        arpeggio_offset_2: 0,
    }
}

/// One playback session's mutable state: the channel array plus the
/// global transport position and cadence counters.
pub struct PlayerState {
    /// One runtime state per output channel.
    pub channels: Vec<ChannelInfo>,
    /// Current index into the song's pattern-order table.
    pub song_pattern_position: u32,
    /// Current line within the pattern, 0–63.
    pub current_line: u32,
    /// Set once the transport walks past the last used pattern.
    pub song_has_ended: bool,
    /// Set once a position jump targets an earlier-or-equal slot.
    pub has_looped: bool,
    /// Ticks per line; mutable through the set-speed effect.
    pub song_speed: u32,
    /// Ticks since the last line was played.
    pub current_vblank: u32,
    /// Output frames per tick, derived from the sample rate.
    pub samples_per_vblank: u32,
    /// The output sample rate this session was built for.
    pub device_sample_rate: u32,
    /// Output frames since the last tick.
    pub current_vblank_sample: u32,
    /// Pending pattern-break target line; -1 when inactive.
    pub next_pattern_pos: i32,
    /// Pending position-jump target slot; -1 when inactive.
    pub next_position: i32,
}

/// The ghost mirror of [`PlayerState`].
#[verifier::ext_equal]
pub ghost struct PlayerModel {
    pub channels: Seq<ChannelModel>,
    pub song_pattern_position: int,
    pub current_line: int,
    pub song_has_ended: bool,
    pub has_looped: bool,
    pub song_speed: int,
    pub current_vblank: int,
    pub samples_per_vblank: int,
    pub device_sample_rate: int,
    pub current_vblank_sample: int,
    pub next_pattern_pos: int,
    pub next_position: int,
}

impl View for PlayerState {
    type V = PlayerModel;

    open spec fn view(&self) -> PlayerModel {
        PlayerModel {
            channels: self.channels@.map_values(|c: ChannelInfo| c@),
            song_pattern_position: self.song_pattern_position as int,
            current_line: self.current_line as int,
            song_has_ended: self.song_has_ended,
            has_looped: self.has_looped,
            song_speed: self.song_speed as int,
            current_vblank: self.current_vblank as int,
            samples_per_vblank: self.samples_per_vblank as int,
            device_sample_rate: self.device_sample_rate as int,
            current_vblank_sample: self.current_vblank_sample as int,
            next_pattern_pos: self.next_pattern_pos as int,
            next_position: self.next_position as int,
        }
    }
}

/// The invariant a playback model keeps between engine calls on `song`.
pub open spec fn player_inv(m: PlayerModel, song: Song) -> bool {
    &&& m.device_sample_rate >= 1
    &&& m.channels.len() == song.format.num_channels
    &&& m.channels.len() <= 4
    &&& 0 <= m.current_line < LINES_PER_PATTERN
    &&& 0 <= m.song_pattern_position <= u32::MAX
    &&& 0 <= m.song_speed <= 255
    &&& 0 <= m.current_vblank <= 256
    &&& 0 <= m.current_vblank_sample <= m.samples_per_vblank + 1
    &&& -1 <= m.next_pattern_pos <= 255
    &&& -1 <= m.next_position <= 255
    &&& forall|i: int|
        0 <= i < m.channels.len() ==> channel_inv(
            #[trigger] m.channels[i],
            song.samples@.len() as int,
        )
}

impl PlayerState {
    /// The invariant this state keeps between engine calls on `song`.
    pub open spec fn inv(&self, song: Song) -> bool {
        player_inv(self@, song)
    }

    /// A fresh session: silent channels, transport at slot 0 line 0, the
    /// default speed of 6 ticks per line, and the frame-per-tick ratio
    /// derived from the output sample rate.
    pub fn new(num_channels: u32, device_sample_rate: u32) -> (s: PlayerState)
        requires
            device_sample_rate >= 1,
            num_channels <= 4,
        ensures
            s@ == spec_new_player(num_channels as int, device_sample_rate as int),
    {
        let mut channels: Vec<ChannelInfo> = Vec::new();
        for i in 0..num_channels as usize
            invariant
                channels@.len() == i,
                forall|j: int| 0 <= j < i ==> (#[trigger] channels@[j])@ == spec_new_channel(),
        {
            channels.push(ChannelInfo::new());
        }
        let s = PlayerState {
            channels,
            song_pattern_position: 0,
            current_line: 0,
            current_vblank: 0,
            current_vblank_sample: 0,
            song_speed: 6,
            samples_per_vblank: device_sample_rate / VBLANK_HZ,
            device_sample_rate,
            next_pattern_pos: -1,
            next_position: -1,
            song_has_ended: false,
            has_looped: false,
        };
        proof {
            assert(s@.channels =~= spec_new_player(
                num_channels as int,
                device_sample_rate as int,
            ).channels);
            assert(s@ =~= spec_new_player(num_channels as int, device_sample_rate as int));
        }
        s
    }

    /// The notes of the line the transport currently points at.
    pub fn get_song_line<'a>(&self, song: &'a Song) -> (line: &'a Vec<Note>)
        requires
            song.wf(),
            song.line_readable(self.song_pattern_position as int, self.current_line as int),
        ensures
            line@ == song.line_notes(self.song_pattern_position as int, self.current_line as int),
    {
        let pattern_idx = song.pattern_table[self.song_pattern_position as usize];
        let pattern = &song.patterns[pattern_idx as usize];
        let line = &pattern.lines[self.current_line as usize];
        line
    }
}

/// The model of a freshly constructed session.
pub open spec fn spec_new_player(num_channels: int, device_sample_rate: int) -> PlayerModel {
    PlayerModel {
        channels: Seq::new(num_channels as nat, |i: int| spec_new_channel()),
        song_pattern_position: 0,
        current_line: 0,
        song_has_ended: false,
        has_looped: false,
        song_speed: 6,
        current_vblank: 0,
        samples_per_vblank: device_sample_rate / (VBLANK_HZ as int),
        device_sample_rate,
        current_vblank_sample: 0,
        next_pattern_pos: -1,
        next_position: -1,
    }
}

/// A period moved by `change` and clamped into the hardware-valid range
/// [113, 856].
pub open spec fn spec_change_note(current: int, change: int) -> int {
    let r = current + change;
    if r > 856 {
        856
    } else if r < 113 {
        113
    } else {
        r
    }
}

/// Move a period by a signed delta, clamped into [113, 856]: every period
/// mutation goes through this clamp, so a period of 0 never reaches the
/// mixer's division once a slide or vibrato has touched the channel.
pub fn change_note(current_period: u32, change: i32) -> (r: u32)
    ensures
        r == spec_change_note(current_period as int, change as int),
{
    let mut result: i64 = current_period as i64 + change as i64;
    if result > 856 {
        result = 856;
    }
    if result < 113 {
        result = 113;
    }
    result as u32
}

/// How note `note` transforms one channel when its line is played: bind
/// the sample if one is named (taking the sample's default volume and
/// length, cursor reset), clear the per-tick effect state, take the note's
/// period if one is given (cursor reset), then apply the effect's own
/// field writes.  A tone portamento keeps the previous period and records
/// the note's period as the target instead.
pub open spec fn spec_trigger_channel(song: Song, ch: ChannelModel, note: Note) -> ChannelModel {
    let ch1 = if 1 <= note.sample_number && note.sample_number <= song.samples@.len() {
        ChannelModel {
            volume: song.samples@[note.sample_number - 1].volume as int,
            size: song.samples@[note.sample_number - 1].size as int,
            sample_num: note.sample_number as int,
            sample_pos: 0,
            ..ch
        }
    } else {
        ch
    };
    let ch2 = ChannelModel {
        volume_change: 0,
        note_change: 0,
        vibrato_pos: 0,
        vibrato_speed: 0,
        vibrato_depth: 0,
        arpeggio_offset_1: 0,
        arpeggio_offset_2: 0,
        ..ch1
    };
    let ch3 = if note.period != 0 {
        ChannelModel { period: note.period as int, sample_pos: 0, ..ch2 }
    } else {
        ch2
    };
    match note.effect {
        Effect::Arpeggio { chord_offset_1, chord_offset_2 } => ChannelModel {
            base_period: ch3.period,
            arpeggio_offset_1: chord_offset_1 as int,
            arpeggio_offset_2: chord_offset_2 as int,
            arpeggio_counter: 0,
            ..ch3
        },
        Effect::SlideUp { speed } => ChannelModel { note_change: -(speed as int), ..ch3 },
        Effect::SlideDown { speed } => ChannelModel { note_change: speed as int, ..ch3 },
        Effect::TonePortamento { speed } => ChannelModel {
            period_target: note.period as int,
            period: ch.period,
            note_change: speed as int,
            ..ch3
        },
        Effect::Vibrato { speed, amplitude } => ChannelModel {
            base_period: ch3.period,
            vibrato_speed: speed as int,
            vibrato_depth: amplitude as int,
            ..ch3
        },
        Effect::VolumeSlide { volume_change } => ChannelModel {
            volume_change: volume_change as int,
            ..ch3
        },
        Effect::SetVolume { volume } => ChannelModel { volume: volume as int, ..ch3 },
        _ => ch3,
    }
}

/// The song speed after a note: only the set-speed effect changes it.
pub open spec fn spec_note_song_speed(cur: int, note: Note) -> int {
    match note.effect {
        Effect::SetSpeed { speed } => speed as int,
        _ => cur,
    }
}

/// The pending pattern-break target after a note.
pub open spec fn spec_note_next_pattern_pos(cur: int, note: Note) -> int {
    match note.effect {
        Effect::PatternBreak { next_pattern_pos } => next_pattern_pos as int,
        _ => cur,
    }
}

/// The pending position-jump target after a note.
pub open spec fn spec_note_next_position(cur: int, note: Note) -> int {
    match note.effect {
        Effect::PositionJump { next_pattern } => next_pattern as int,
        _ => cur,
    }
}

/// Whether the session counts as looped after a note: a position jump
/// whose target is at or before the current slot marks a loop.
pub open spec fn spec_note_has_looped(cur: bool, pattern_pos: int, note: Note) -> bool {
    cur || match note.effect {
        Effect::PositionJump { next_pattern } => next_pattern as int <= pattern_pos,
        _ => false,
    }
}

/// The whole-state effect of playing one note on channel `ch_idx`.
pub open spec fn spec_play_note(song: Song, m: PlayerModel, ch_idx: int, note: Note) -> PlayerModel {
    PlayerModel {
        channels: m.channels.update(ch_idx, spec_trigger_channel(song, m.channels[ch_idx], note)),
        song_speed: spec_note_song_speed(m.song_speed, note),
        next_pattern_pos: spec_note_next_pattern_pos(m.next_pattern_pos, note),
        next_position: spec_note_next_position(m.next_position, note),
        has_looped: spec_note_has_looped(m.has_looped, m.song_pattern_position, note),
        ..m
    }
}

/// Trigger one note on one channel: bind sample and period as the note
/// directs, then apply its effect to the channel and the transport.  A
/// note naming a sample beyond the song's table triggers nothing.
pub fn play_note(note: &Note, player_state: &mut PlayerState, channel_num: usize, song: &Song)
    requires
        old(player_state).inv(*song),
        song.wf(),
        channel_num < old(player_state).channels@.len(),
    ensures
        final(player_state)@ == spec_play_note(*song, old(player_state)@, channel_num as int, *note),
        final(player_state).inv(*song),
{
    let old_period = player_state.channels[channel_num].period;
    let mut ch = player_state.channels[channel_num];

    if note.sample_number > 0 && (note.sample_number as usize) <= song.samples.len() {
        ch.volume = song.samples[(note.sample_number - 1) as usize].volume;
        ch.size = song.samples[(note.sample_number - 1) as usize].size;
        ch.sample_num = note.sample_number;
        ch.sample_pos = 0;
    }

    ch.volume_change = 0;
    ch.note_change = 0;
    ch.vibrato_pos = 0;
    ch.vibrato_speed = 0;
    ch.vibrato_depth = 0;
    ch.arpeggio_offset_1 = 0;
    ch.arpeggio_offset_2 = 0;

    if note.period != 0 {
        ch.period = note.period;
        ch.sample_pos = 0;
    }

    match note.effect {
        Effect::SetSpeed { speed } => {
            player_state.song_speed = speed as u32;
        },
        Effect::Arpeggio { chord_offset_1, chord_offset_2 } => {
            ch.base_period = ch.period;
            ch.arpeggio_offset_1 = chord_offset_1;
            ch.arpeggio_offset_2 = chord_offset_2;
            ch.arpeggio_counter = 0;
        },
        Effect::SlideUp { speed } => {
            ch.note_change = -(speed as i32);
        },
        Effect::SlideDown { speed } => {
            ch.note_change = speed as i32;
        },
        Effect::TonePortamento { speed } => {
            ch.period_target = note.period;
            ch.period = old_period;
            ch.note_change = speed as i32;
        },
        Effect::Vibrato { speed, amplitude } => {
            ch.base_period = ch.period;
            ch.vibrato_speed = speed;
            ch.vibrato_depth = amplitude;
        },
        Effect::VolumeSlide { volume_change } => {
            ch.volume_change = volume_change;
        },
        Effect::SetVolume { volume } => {
            ch.volume = volume;
        },
        Effect::PatternBreak { next_pattern_pos } => {
            player_state.next_pattern_pos = next_pattern_pos as i32;
        },
        Effect::PositionJump { next_pattern } => {
            if next_pattern as u32 <= player_state.song_pattern_position {
                player_state.has_looped = true;
            }
            player_state.next_position = next_pattern as i32;
        },
        _ => {},
    }

    player_state.channels[channel_num] = ch;

    proof {
        let m0 = old(player_state)@;
        let mf = spec_play_note(*song, m0, channel_num as int, *note);
        assert(ch@ =~= spec_trigger_channel(*song, m0.channels[channel_num as int], *note));
        assert(player_state@.channels =~= mf.channels);
        assert(player_state@ =~= mf);
    }
}

/// How one tick transforms one channel with an active sample: apply the
/// volume delta and clamp into [0, 64]; then, exclusively in this order,
/// step an active arpeggio (anchor, first offset, second offset, one step
/// per tick, looked up in the note-period table), or recompute the period
/// from the vibrato waveform and advance the vibrato phase, or move the
/// period by the pending slide/portamento step, clamping at the
/// portamento target when it is crossed.  An arpeggio whose anchor period
/// is not an exact table entry, or whose offset leaves the table, leaves
/// the period unchanged.
pub open spec fn spec_tick_channel(ch: ChannelModel) -> ChannelModel {
    if ch.sample_num == 0 {
        ch
    } else {
        let v = ch.volume + ch.volume_change;
        let ch1 = ChannelModel {
            volume: if v < 0 {
                0
            } else if v > 64 {
                64
            } else {
                v
            },
            ..ch
        };
        if ch1.arpeggio_offset_1 != 0 || ch1.arpeggio_offset_2 != 0 {
            let idx = period_index(ch1.base_period);
            let p = if ch1.arpeggio_counter == 0 {
                ch1.base_period
            } else {
                let off = if ch1.arpeggio_counter == 1 {
                    ch1.arpeggio_offset_1
                } else {
                    ch1.arpeggio_offset_2
                };
                if idx >= 0 && 1 <= idx + off && idx + off <= PERIOD_TABLE_LEN {
                    period_table(idx + off - 1)
                } else {
                    ch1.period
                }
            };
            ChannelModel { period: p, arpeggio_counter: (ch1.arpeggio_counter + 1) % 3, ..ch1 }
        } else if ch1.vibrato_depth > 0 {
            ChannelModel {
                period: spec_change_note(
                    ch1.base_period,
                    vibrato_offset(ch1.vibrato_pos, ch1.vibrato_depth),
                ),
                vibrato_pos: (ch1.vibrato_pos + ch1.vibrato_speed) % 64,
                ..ch1
            }
        } else if ch1.note_change != 0 {
            if ch1.period_target != 0 {
                if ch1.period_target > ch1.period {
                    let p = spec_change_note(ch1.period, ch1.note_change);
                    if p >= ch1.period_target {
                        ChannelModel {
                            period: ch1.period_target,
                            period_target: 0,
                            note_change: 0,
                            ..ch1
                        }
                    } else {
                        ChannelModel { period: p, ..ch1 }
                    }
                } else {
                    let p = spec_change_note(ch1.period, -ch1.note_change);
                    if p <= ch1.period_target {
                        ChannelModel {
                            period: ch1.period_target,
                            period_target: 0,
                            note_change: 0,
                            ..ch1
                        }
                    } else {
                        ChannelModel { period: p, ..ch1 }
                    }
                }
            } else {
                ChannelModel { period: spec_change_note(ch1.period, ch1.note_change), ..ch1 }
            }
        } else {
            ch1
        }
    }
}

/// Apply one tick's effect step to a single channel.
fn tick_channel(ch: ChannelInfo) -> (r: ChannelInfo)
    requires
        -255 <= ch.note_change <= 255,
        ch.vibrato_pos < 64,
    ensures
        r@ == spec_tick_channel(ch@),
{
    let mut ch = ch;
    if ch.sample_num == 0 {
        return ch;
    }
    let v: i32 = ch.volume as i32 + ch.volume_change as i32;
    ch.volume = if v < 0 {
        0
    } else if v > 64 {
        64
    } else {
        v as u8
    };

    if ch.arpeggio_offset_1 != 0 || ch.arpeggio_offset_2 != 0 {
        if ch.arpeggio_counter == 0 {
            ch.period = ch.base_period;
        } else {
            let off: u8 = if ch.arpeggio_counter == 1 {
                ch.arpeggio_offset_1
            } else {
                ch.arpeggio_offset_2
            };
            match find_period_index(ch.base_period) {
                Some(idx) => {
                    let j = idx + off as usize;
                    if 1 <= j && j <= PERIOD_TABLE_LEN {
                        ch.period = period_at(j - 1);
                    }
                },
                None => {},
            }
        }
        ch.arpeggio_counter = ((ch.arpeggio_counter as u32 + 1) % 3) as u8;
    } else if ch.vibrato_depth > 0 {
        let phase = ch.vibrato_pos % 64;
        let mag: u32 = if phase < 32 {
            vibrato_magnitude_at(phase as usize)
        } else {
            vibrato_magnitude_at((phase - 32) as usize)
        };
        let scaled: u32 = mag * (ch.vibrato_depth as u32) / 32;
        let off: i32 = if phase < 32 {
            scaled as i32
        } else {
            -(scaled as i32)
        };
        ch.period = change_note(ch.base_period, off);
        ch.vibrato_pos = (ch.vibrato_pos + ch.vibrato_speed as u32) % 64;
    } else if ch.note_change != 0 {
        if ch.period_target != 0 {
            if ch.period_target > ch.period {
                ch.period = change_note(ch.period, ch.note_change);
                if ch.period >= ch.period_target {
                    ch.period = ch.period_target;
                    ch.period_target = 0;
                    ch.note_change = 0;
                }
            } else {
                ch.period = change_note(ch.period, -ch.note_change);
                if ch.period <= ch.period_target {
                    ch.period = ch.period_target;
                    ch.period_target = 0;
                    ch.note_change = 0;
                }
            }
        } else {
            ch.period = change_note(ch.period, ch.note_change);
        }
    }
    ch
}

/// One tick over the whole state: every channel with an active sample
/// takes its effect step; the transport is untouched.
pub open spec fn spec_update_effects(m: PlayerModel) -> PlayerModel {
    PlayerModel { channels: m.channels.map_values(|ch: ChannelModel| spec_tick_channel(ch)), ..m }
}

/// Run one tick of effect processing over every channel.
pub fn update_effects(song: &Song, player_state: &mut PlayerState)
    requires
        old(player_state).inv(*song),
        song.wf(),
    ensures
        final(player_state)@ == spec_update_effects(old(player_state)@),
        final(player_state).inv(*song),
{
    let ghost m0 = old(player_state)@;
    let n = player_state.channels.len();
    for i in 0..n
        invariant
            n == player_state.channels@.len(),
            n == m0.channels.len(),
            player_inv(m0, *song),
            player_state@.song_pattern_position == m0.song_pattern_position,
            player_state@.current_line == m0.current_line,
            player_state@.song_has_ended == m0.song_has_ended,
            player_state@.has_looped == m0.has_looped,
            player_state@.song_speed == m0.song_speed,
            player_state@.current_vblank == m0.current_vblank,
            player_state@.samples_per_vblank == m0.samples_per_vblank,
            player_state@.device_sample_rate == m0.device_sample_rate,
            player_state@.current_vblank_sample == m0.current_vblank_sample,
            player_state@.next_pattern_pos == m0.next_pattern_pos,
            player_state@.next_position == m0.next_position,
            forall|j: int|
                0 <= j < i ==> player_state@.channels[j] == spec_tick_channel(
                    #[trigger] m0.channels[j],
                ),
            forall|j: int| i <= j < n ==> player_state@.channels[j] == #[trigger] m0.channels[j],
            forall|j: int|
                0 <= j < n ==> channel_inv(
                    #[trigger] player_state@.channels[j],
                    song.samples@.len() as int,
                ),
    {
        let ch = player_state.channels[i];
        proof {
            assert(ch@ == m0.channels[i as int]);
            assert(channel_inv(ch@, song.samples@.len() as int));
        }
        let ch2 = tick_channel(ch);
        let ghost mprev = player_state@;
        player_state.channels[i] = ch2;
        proof {
            lemma_tick_channel_inv(ch@, song.samples@.len() as int);
            assert(player_state@.channels =~= mprev.channels.update(i as int, ch2@));
        }
    }
    proof {
        assert(player_state@.channels =~= spec_update_effects(m0).channels);
        assert(player_state@ =~= spec_update_effects(m0));
    }
}

/// The tick step keeps the channel invariant.
proof fn lemma_tick_channel_inv(ch: ChannelModel, num_samples: int)
    requires
        channel_inv(ch, num_samples),
    ensures
        channel_inv(spec_tick_channel(ch), num_samples),
{
}

/// A pattern-order position advanced by one slot, stopping at the
/// register's limit.
pub open spec fn sat_inc(pos: int) -> int {
    if pos < u32::MAX {
        pos + 1
    } else {
        pos
    }
}

/// Apply a pending pattern-break or position-jump recorded by the
/// previous line's effects, before any note of the new line is read.  A
/// pattern break moves to the next order slot at its target line; a
/// position jump moves to its target slot at line 0; a break wins when
/// both are pending.
pub open spec fn spec_apply_pending(m: PlayerModel) -> PlayerModel {
    if m.next_pattern_pos != -1 {
        PlayerModel {
            song_pattern_position: sat_inc(m.song_pattern_position),
            current_line: m.next_pattern_pos,
            next_pattern_pos: -1,
            ..m
        }
    } else if m.next_position != -1 {
        PlayerModel {
            song_pattern_position: m.next_position,
            current_line: 0,
            next_position: -1,
            ..m
        }
    } else {
        m
    }
}

/// Play the first `k` notes of a line, channel by channel in order.
pub open spec fn spec_line_fold(song: Song, m: PlayerModel, notes: Seq<Note>, k: nat) -> PlayerModel
    decreases k,
{
    if k == 0 {
        m
    } else {
        spec_play_note(
            song,
            spec_line_fold(song, m, notes, (k - 1) as nat),
            k as int - 1,
            notes[k as int - 1],
        )
    }
}

/// Advance the line counter after a line's notes have fired; on falling
/// off line 63, move to the next order slot at line 0, and record the end
/// of the song when the new slot has passed the used pattern count.
pub open spec fn spec_advance_line(song: Song, m: PlayerModel) -> PlayerModel {
    let l2 = m.current_line + 1;
    if l2 >= LINES_PER_PATTERN {
        let p2 = sat_inc(m.song_pattern_position);
        PlayerModel {
            current_line: 0,
            song_pattern_position: p2,
            song_has_ended: m.song_has_ended || p2 >= song.num_used_patterns,
            ..m
        }
    } else {
        PlayerModel { current_line: l2, ..m }
    }
}

/// One whole line step: apply pending transport targets, fire every note
/// of the line the transport now points at (nothing fires when the slot
/// or line cannot be read), then advance the line counter.
pub open spec fn spec_play_line(song: Song, m: PlayerModel) -> PlayerModel {
    let m0 = spec_apply_pending(m);
    let m1 = if song.line_readable(m0.song_pattern_position, m0.current_line) {
        spec_line_fold(
            song,
            m0,
            song.line_notes(m0.song_pattern_position, m0.current_line),
            song.line_notes(m0.song_pattern_position, m0.current_line).len(),
        )
    } else {
        m0
    };
    spec_advance_line(song, m1)
}

/// Playing notes touches only the channels, the speed, the pending
/// transport targets and the loop flag: the positions, cadence counters
/// and end flag ride through a line fold unchanged.
pub proof fn lemma_fold_transport(song: Song, m: PlayerModel, notes: Seq<Note>, k: nat)
    requires
        k <= m.channels.len(),
    ensures
        spec_line_fold(song, m, notes, k).song_pattern_position == m.song_pattern_position,
        spec_line_fold(song, m, notes, k).current_line == m.current_line,
        spec_line_fold(song, m, notes, k).song_has_ended == m.song_has_ended,
        spec_line_fold(song, m, notes, k).current_vblank == m.current_vblank,
        spec_line_fold(song, m, notes, k).samples_per_vblank == m.samples_per_vblank,
        spec_line_fold(song, m, notes, k).device_sample_rate == m.device_sample_rate,
        spec_line_fold(song, m, notes, k).current_vblank_sample == m.current_vblank_sample,
        spec_line_fold(song, m, notes, k).channels.len() == m.channels.len(),
    decreases k,
{
    if k > 0 {
        lemma_fold_transport(song, m, notes, (k - 1) as nat);
    }
}

/// Play the line the transport points at: apply a pending break or jump
/// first, trigger one note per channel, then step the line counter,
/// rolling into the next order slot — and flagging the song's end — when
/// line 63 was just played.
pub fn play_line(song: &Song, player_state: &mut PlayerState)
    requires
        old(player_state).inv(*song),
        song.wf(),
    ensures
        final(player_state)@ == spec_play_line(*song, old(player_state)@),
        final(player_state).inv(*song),
        final(player_state)@.current_vblank == old(player_state)@.current_vblank,
        final(player_state)@.current_vblank_sample == old(player_state)@.current_vblank_sample,
        final(player_state)@.samples_per_vblank == old(player_state)@.samples_per_vblank,
        final(player_state)@.device_sample_rate == old(player_state)@.device_sample_rate,
{
    let ghost m_init = old(player_state)@;
    if player_state.next_pattern_pos != -1 {
        if player_state.song_pattern_position < u32::MAX {
            player_state.song_pattern_position = player_state.song_pattern_position + 1;
        }
        player_state.current_line = player_state.next_pattern_pos as u32;
        player_state.next_pattern_pos = -1;
    } else if player_state.next_position != -1 {
        player_state.song_pattern_position = player_state.next_position as u32;
        player_state.current_line = 0;
        player_state.next_position = -1;
    }
    proof {
        assert(player_state@ =~= spec_apply_pending(m_init));
    }
    let ghost m0 = player_state@;

    let readable = player_state.song_pattern_position < crate::song::PATTERN_TABLE_LEN as u32
        && (song.pattern_table[player_state.song_pattern_position as usize] as usize)
        < song.patterns.len() && player_state.current_line < LINES_PER_PATTERN as u32;
    proof {
        assert(readable == song.line_readable(m0.song_pattern_position, m0.current_line));
    }
    if readable {
        let line = player_state.get_song_line(song);
        let ghost notes = song.line_notes(m0.song_pattern_position, m0.current_line);
        let n = line.len();
        proof {
            assert(song.patterns@[song.pattern_table@[m0.song_pattern_position] as int].wf(
                song.format.num_channels as int,
            ));
            assert(n == song.format.num_channels);
        }
        for c in 0..n
            invariant
                song.wf(),
                line@ == notes,
                n == notes.len(),
                n == player_state.channels@.len(),
                player_state@ == spec_line_fold(*song, m0, notes, c as nat),
                player_state.inv(*song),
        {
            play_note(&line[c], player_state, c, song);
        }
        proof {
            assert(player_state@ == spec_line_fold(*song, m0, notes, notes.len()));
        }
    }
    let ghost m1 = player_state@;
    proof {
        if song.line_readable(m0.song_pattern_position, m0.current_line) {
            lemma_fold_transport(
                *song,
                m0,
                song.line_notes(m0.song_pattern_position, m0.current_line),
                song.line_notes(m0.song_pattern_position, m0.current_line).len(),
            );
        }
        assert(m1.current_line == m0.current_line);
        assert(m1.current_line <= 255);
    }
    player_state.current_line = player_state.current_line + 1;
    if player_state.current_line >= LINES_PER_PATTERN as u32 {
        if player_state.song_pattern_position < u32::MAX {
            player_state.song_pattern_position = player_state.song_pattern_position + 1;
        }
        if player_state.song_pattern_position >= song.num_used_patterns {
            player_state.song_has_ended = true;
        }
        player_state.current_line = 0;
    }
    proof {
        assert(player_state@ =~= spec_advance_line(*song, m1));
        assert(player_state@ =~= spec_play_line(*song, m_init));
    }
}

/// How far the fixed-point cursor advances per output frame: hardware
/// clock ticks per output sample divided by the period, so a lower period
/// advances faster and sounds higher.
pub open spec fn spec_channel_advance(rate: int, period: int) -> int {
    (AMIGA_CLOCK_HZ * FP_SCALE) as int / (rate * period)
}

/// How one output frame transforms one channel and what amplitude it
/// contributes: a channel with an effective length above 2 and a nonzero
/// period reads the amplitude under the cursor (0 beyond the waveform),
/// scales it by its volume, and advances the cursor; a cursor passing the
/// sample's length wraps into the repeat window — parking at its start
/// when the window is empty — and the channel's effective length becomes
/// `repeat_offset + repeat_size` from then on.  Other channels are silent
/// and unchanged.
pub open spec fn spec_mix_channel(song: Song, ch: ChannelModel, rate: int) -> (ChannelModel, int) {
    if ch.size > 2 && ch.period != 0 {
        let s = song.samples@[ch.sample_num - 1];
        let idx = ch.sample_pos / (FP_SCALE as int);
        let amp: int = if idx < s.waveform@.len() {
            s.waveform@[idx] as int
        } else {
            0
        };
        let amplitude = amp * ch.volume;
        let pos1 = ch.sample_pos + spec_channel_advance(rate, ch.period);
        let limit = s.size * (FP_SCALE as int);
        if pos1 >= limit {
            let over = pos1 - limit;
            let pos2 = if s.repeat_size > 0 {
                s.repeat_offset * (FP_SCALE as int) + over % (s.repeat_size * (FP_SCALE as int))
            } else {
                s.repeat_offset * (FP_SCALE as int)
            };
            (
                ChannelModel {
                    sample_pos: pos2,
                    size: s.repeat_size + s.repeat_offset,
                    ..ch
                },
                amplitude,
            )
        } else {
            (ChannelModel { sample_pos: pos1, ..ch }, amplitude)
        }
    } else {
        (ch, 0)
    }
}

/// Whether channel `i` feeds the left stereo bus: channels 0 and 3 left,
/// 1 and 2 right, in the classic 4-channel panning law.
pub open spec fn channel_is_left(i: int) -> bool {
    i % 4 == 0 || i == 3
}

/// Mix the first `k` channels: each takes its frame step, and its
/// amplitude lands on its stereo side.
pub open spec fn spec_mix_fold(song: Song, chans: Seq<ChannelModel>, rate: int, k: nat) -> (
    Seq<ChannelModel>,
    int,
    int,
)
    decreases k,
{
    if k == 0 {
        (chans, 0, 0)
    } else {
        let prev = spec_mix_fold(song, chans, rate, (k - 1) as nat);
        let step = spec_mix_channel(song, chans[k as int - 1], rate);
        let cs = prev.0.update(k as int - 1, step.0);
        if channel_is_left(k as int - 1) {
            (cs, prev.1 + step.1, prev.2)
        } else {
            (cs, prev.1, prev.2 + step.1)
        }
    }
}

/// Take one frame step on one channel and return its amplitude
/// contribution, in signed units of 1/(128*64) full scale.
fn mix_channel(song: &Song, ch: ChannelInfo, rate: u32) -> (r: (ChannelInfo, i32))
    requires
        song.wf(),
        rate >= 1,
        channel_inv(ch@, song.samples@.len() as int),
    ensures
        r.0@ == spec_mix_channel(*song, ch@, rate as int).0,
        r.1 == spec_mix_channel(*song, ch@, rate as int).1,
        channel_inv(r.0@, song.samples@.len() as int),
        -32640 <= r.1 <= 32640,
{
    if ch.size > 2 && ch.period != 0 {
        let s = &song.samples[(ch.sample_num - 1) as usize];
        proof {
            assert(song.samples@[ch.sample_num - 1].wf());
        }
        let idx = (ch.sample_pos / FP_SCALE) as usize;
        let amp: i32 = if idx < s.waveform.len() {
            s.waveform[idx] as i32
        } else {
            0
        };
        proof {
            assert(-32640 <= (amp as int) * (ch.volume as int) <= 32640) by (nonlinear_arith)
                requires
                    -128 <= amp as int <= 127,
                    0 <= ch.volume as int <= 255,
            ;
        }
        let amplitude: i32 = amp * (ch.volume as i32);
        proof {
            let r64 = rate as int;
            let p64 = ch.period as int;
            assert(1 <= r64 * p64 <= 0xffff_ffff * 0xffff_ffff) by (nonlinear_arith)
                requires
                    1 <= r64 <= 0xffff_ffff,
                    1 <= p64 <= 0xffff_ffff,
            ;
        }
        let adv: u64 = (AMIGA_CLOCK_HZ * FP_SCALE) / ((rate as u64) * (ch.period as u64));
        proof {
            assert(adv <= AMIGA_CLOCK_HZ * FP_SCALE);
        }
        let mut ch2 = ch;
        let pos1: u64 = ch.sample_pos + adv;
        let limit: u64 = (s.size as u64) * FP_SCALE;
        if pos1 >= limit {
            let over: u64 = pos1 - limit;
            if s.repeat_size > 0 {
                let window: u64 = (s.repeat_size as u64) * FP_SCALE;
                ch2.sample_pos = (s.repeat_offset as u64) * FP_SCALE + over % window;
            } else {
                ch2.sample_pos = (s.repeat_offset as u64) * FP_SCALE;
            }
            ch2.size = s.repeat_size + s.repeat_offset;
        } else {
            ch2.sample_pos = pos1;
        }
        (ch2, amplitude)
    } else {
        (ch, 0)
    }
}

/// The cadence half of one frame: when enough frames have elapsed for a
/// tick, reset the frame counter, run the tick's effects, play a line if
/// enough ticks have elapsed for one, and count the tick; then count the
/// frame.
pub open spec fn spec_frame_state(song: Song, m: PlayerModel) -> PlayerModel {
    let mv = if m.current_vblank_sample >= m.samples_per_vblank {
        let m1 = spec_update_effects(PlayerModel { current_vblank_sample: 0, ..m });
        let m2 = if m1.current_vblank >= m1.song_speed {
            spec_play_line(song, PlayerModel { current_vblank: 0, ..m1 })
        } else {
            m1
        };
        PlayerModel { current_vblank: m2.current_vblank + 1, ..m2 }
    } else {
        m
    };
    PlayerModel { current_vblank_sample: mv.current_vblank_sample + 1, ..mv }
}

/// One whole frame: the cadence step followed by the mix over every
/// channel.  Returns the new state and the left and right amplitude sums.
pub open spec fn spec_next_sample(song: Song, m: PlayerModel) -> (PlayerModel, int, int) {
    let mc = spec_frame_state(song, m);
    let f = spec_mix_fold(song, mc.channels, mc.device_sample_rate, mc.channels.len());
    (PlayerModel { channels: f.0, ..mc }, f.1, f.2)
}

/// Produce one stereo output frame and advance all playback state by one
/// frame of musical time.  The returned pair is the signed sum of the
/// active channels' amplitudes per stereo side, in units of 1/(128*64)
/// full scale; the state moves to exactly `spec_next_sample` of its old
/// value, so the emitted stream is a pure function of the song and the
/// starting state.
pub fn next_sample(song: &Song, player_state: &mut PlayerState) -> (out: (i32, i32))
    requires
        old(player_state).inv(*song),
        song.wf(),
    ensures
        final(player_state)@ == spec_next_sample(*song, old(player_state)@).0,
        out.0 == spec_next_sample(*song, old(player_state)@).1,
        out.1 == spec_next_sample(*song, old(player_state)@).2,
        final(player_state).inv(*song),
{
    let ghost m_init = old(player_state)@;

    if player_state.current_vblank_sample >= player_state.samples_per_vblank {
        player_state.current_vblank_sample = 0;
        update_effects(song, player_state);
        if player_state.current_vblank >= player_state.song_speed {
            player_state.current_vblank = 0;
            play_line(song, player_state);
        }
        player_state.current_vblank = player_state.current_vblank + 1;
    }
    player_state.current_vblank_sample = player_state.current_vblank_sample + 1;
    proof {
        assert(player_state@ =~= spec_frame_state(*song, m_init));
    }

    let ghost mc = player_state@;
    let mut left: i32 = 0;
    let mut right: i32 = 0;
    let rate = player_state.device_sample_rate;
    let n = player_state.channels.len();
    for i in 0..n
        invariant
            song.wf(),
            n == player_state.channels@.len(),
            n == mc.channels.len(),
            n <= 4,
            rate == mc.device_sample_rate,
            rate >= 1,
            player_inv(mc, *song),
            player_state@.song_pattern_position == mc.song_pattern_position,
            player_state@.current_line == mc.current_line,
            player_state@.song_has_ended == mc.song_has_ended,
            player_state@.has_looped == mc.has_looped,
            player_state@.song_speed == mc.song_speed,
            player_state@.current_vblank == mc.current_vblank,
            player_state@.samples_per_vblank == mc.samples_per_vblank,
            player_state@.device_sample_rate == mc.device_sample_rate,
            player_state@.current_vblank_sample == mc.current_vblank_sample,
            player_state@.next_pattern_pos == mc.next_pattern_pos,
            player_state@.next_position == mc.next_position,
            player_state@.channels == spec_mix_fold(*song, mc.channels, rate as int, i as nat).0,
            left == spec_mix_fold(*song, mc.channels, rate as int, i as nat).1,
            right == spec_mix_fold(*song, mc.channels, rate as int, i as nat).2,
            -32640 * i <= left <= 32640 * i,
            -32640 * i <= right <= 32640 * i,
            forall|j: int|
                i <= j < n ==> player_state@.channels[j] == #[trigger] mc.channels[j],
            forall|j: int|
                0 <= j < n ==> channel_inv(
                    #[trigger] player_state@.channels[j],
                    song.samples@.len() as int,
                ),
    {
        let ch = player_state.channels[i];
        proof {
            assert(ch@ == mc.channels[i as int]);
            assert(channel_inv(ch@, song.samples@.len() as int));
        }
        let (ch2, amplitude) = mix_channel(song, ch, rate);
        let ghost mprev = player_state@;
        player_state.channels[i] = ch2;
        proof {
            assert(player_state@.channels =~= mprev.channels.update(i as int, ch2@));
        }
        if i % 4 == 0 || i == 3 {
            left = left + amplitude;
        } else {
            right = right + amplitude;
        }
    }
    proof {
        assert(player_state@ =~= spec_next_sample(*song, m_init).0);
    }
    (left, right)
}

/// Vibrato symmetry at the engine: with the anchor period far enough from
/// the clamp bounds, a vibrato tick emits exactly the anchor plus the
/// waveform offset at the current phase — and by
/// [`crate::tables::lemma_vibrato_cycle_balanced`] those offsets sum to
/// zero over one full 64-step cycle, so the emitted period sequence is
/// symmetric about the anchor.
pub proof fn lemma_vibrato_tick_emits_offset(ch: ChannelModel)
    requires
        ch.sample_num > 0,
        ch.arpeggio_offset_1 == 0,
        ch.arpeggio_offset_2 == 0,
        ch.vibrato_depth > 0,
        ch.vibrato_depth <= 15,
        232 <= ch.base_period <= 736,
    ensures
        spec_tick_channel(ch).period == ch.base_period + vibrato_offset(
            ch.vibrato_pos,
            ch.vibrato_depth,
        ),
{
    let i = ch.vibrato_pos % 64;
    let d = ch.vibrato_depth;
    let mg = if i < 32 {
        crate::tables::vibrato_magnitude(i)
    } else {
        crate::tables::vibrato_magnitude(i - 32)
    };
    assert(0 <= mg <= 255);
    assert(0 <= mg * d <= 3825) by (nonlinear_arith)
        requires
            0 <= mg <= 255,
            0 < d <= 15,
    ;
    assert(0 <= mg * d / 32 <= 119);
    assert(-119 <= vibrato_offset(ch.vibrato_pos, ch.vibrato_depth) <= 119);
}

/// A freshly constructed session may drive playback of any well-formed
/// song with the matching channel count: it satisfies the engine
/// invariant that every engine entry point requires and preserves.
pub proof fn lemma_new_player_satisfies_inv(m: PlayerModel, song: Song, num_channels: int, rate: int)
    requires
        m == spec_new_player(num_channels, rate),
        rate >= 1,
        0 <= num_channels <= 4,
        song.format.num_channels == num_channels,
    ensures
        player_inv(m, song),
{
    assert forall|i: int| 0 <= i < m.channels.len() implies channel_inv(
        #[trigger] m.channels[i],
        song.samples@.len() as int,
    ) by {
        assert(m.channels[i] == spec_new_channel());
    }
}

/// A line fold never clears the loop flag: a position jump can only raise
/// it.
proof fn lemma_fold_looped_monotone(song: Song, m: PlayerModel, notes: Seq<Note>, k: nat)
    requires
        m.has_looped,
    ensures
        spec_line_fold(song, m, notes, k).has_looped,
    decreases k,
{
    if k > 0 {
        lemma_fold_looped_monotone(song, m, notes, (k - 1) as nat);
    }
}

/// The two terminal flags are stable observations: once a frame step has
/// raised `song_has_ended` or `has_looped`, every later frame leaves it
/// raised.  A consumer may therefore poll either flag to decide when to
/// stop pulling frames; the engine itself keeps producing frames either
/// way.
pub proof fn lemma_terminal_flags_monotone(song: Song, m: PlayerModel)
    requires
        player_inv(m, song),
        song.wf(),
    ensures
        m.song_has_ended ==> spec_next_sample(song, m).0.song_has_ended,
        m.has_looped ==> spec_next_sample(song, m).0.has_looped,
{
    let m1 = spec_update_effects(PlayerModel { current_vblank_sample: 0, ..m });
    let mp = PlayerModel { current_vblank: 0, ..m1 };
    let mp0 = spec_apply_pending(mp);
    if song.line_readable(mp0.song_pattern_position, mp0.current_line) {
        let notes = song.line_notes(mp0.song_pattern_position, mp0.current_line);
        lemma_fold_transport(song, mp0, notes, notes.len());
        if m.has_looped {
            lemma_fold_looped_monotone(song, mp0, notes, notes.len());
        }
    }
}

/// The channel after `n` consecutive effect ticks.
pub open spec fn spec_tick_iter(ch: ChannelModel, n: nat) -> ChannelModel
    decreases n,
{
    if n == 0 {
        ch
    } else {
        spec_tick_channel(spec_tick_iter(ch, (n - 1) as nat))
    }
}

/// Whether a channel is in a pure vibrato state that stays far enough
/// from the period clamp for the waveform to come through unclipped, with
/// the phase advancing one step per tick.
pub open spec fn vibrato_steady(ch: ChannelModel) -> bool {
    &&& ch.sample_num > 0
    &&& ch.arpeggio_offset_1 == 0
    &&& ch.arpeggio_offset_2 == 0
    &&& 0 < ch.vibrato_depth <= 15
    &&& ch.vibrato_speed == 1
    &&& 0 <= ch.vibrato_pos
    &&& 232 <= ch.base_period <= 736
}

/// Sum of the emitted periods' offsets from the anchor over the first `n`
/// ticks.
pub open spec fn spec_emitted_offset_sum(ch: ChannelModel, n: nat) -> int
    decreases n,
{
    if n == 0 {
        0
    } else {
        spec_emitted_offset_sum(ch, (n - 1) as nat) + (spec_tick_iter(ch, n).period
            - ch.base_period)
    }
}

/// One tick on a steady vibrato channel keeps it steady, advances the
/// phase by one step, and emits the anchor plus the waveform offset of
/// the phase it read.
#[verifier::rlimit(60)]
proof fn lemma_vibrato_tick_step(ch: ChannelModel)
    requires
        vibrato_steady(ch),
    ensures
        vibrato_steady(spec_tick_channel(ch)),
        spec_tick_channel(ch).vibrato_pos == (ch.vibrato_pos + 1) % 64,
        spec_tick_channel(ch).base_period == ch.base_period,
        spec_tick_channel(ch).vibrato_depth == ch.vibrato_depth,
        spec_tick_channel(ch).period == ch.base_period + vibrato_offset(
            ch.vibrato_pos,
            ch.vibrato_depth,
        ),
{
    lemma_vibrato_tick_emits_offset(ch);
}

/// Ticking a steady vibrato channel `n` times advances the phase `n`
/// steps, and the `n`-th tick emits the anchor plus the waveform offset
/// of the phase it read.
proof fn lemma_vibrato_iter_state(ch: ChannelModel, n: nat)
    requires
        vibrato_steady(ch),
    ensures
        vibrato_steady(spec_tick_iter(ch, n)),
        spec_tick_iter(ch, n).vibrato_pos == if n == 0 {
            ch.vibrato_pos as int
        } else {
            (ch.vibrato_pos + n) % 64
        },
        spec_tick_iter(ch, n).base_period == ch.base_period,
        spec_tick_iter(ch, n).vibrato_depth == ch.vibrato_depth,
        n >= 1 ==> spec_tick_iter(ch, n).period == ch.base_period + vibrato_offset(
            ch.vibrato_pos + n - 1,
            ch.vibrato_depth,
        ),
    decreases n,
{
    if n > 0 {
        lemma_vibrato_iter_state(ch, (n - 1) as nat);
        let prev = spec_tick_iter(ch, (n - 1) as nat);
        lemma_vibrato_tick_step(prev);
        if n == 1 {
            assert(prev == ch);
        } else {
            vstd::arithmetic::div_mod::lemma_mod_twice(ch.vibrato_pos + n - 1, 64);
            vstd::arithmetic::div_mod::lemma_add_mod_noop(ch.vibrato_pos + n - 1, 1, 64);
            assert(prev.vibrato_pos % 64 == (ch.vibrato_pos + n - 1) % 64);
            assert((prev.vibrato_pos + 1) % 64 == (ch.vibrato_pos + n) % 64);
        }
        assert(vibrato_offset(prev.vibrato_pos, ch.vibrato_depth) == vibrato_offset(
            ch.vibrato_pos + n - 1,
            ch.vibrato_depth,
        ));
    }
}

proof fn lemma_emitted_sum_is_offset_sum(ch: ChannelModel, n: nat)
    requires
        vibrato_steady(ch),
        ch.vibrato_pos == 0,
    ensures
        spec_emitted_offset_sum(ch, n) == crate::tables::vibrato_offset_sum(
            n,
            ch.vibrato_depth,
        ),
    decreases n,
{
    if n > 0 {
        lemma_emitted_sum_is_offset_sum(ch, (n - 1) as nat);
        lemma_vibrato_iter_state(ch, n);
    }
}

/// Vibrato symmetry, end to end: starting a 64-step vibrato cycle at
/// phase 0 with the anchor far enough from the period clamp, the periods
/// the engine emits over the full cycle are symmetric about the anchor —
/// their offsets from it sum to exactly zero.
pub proof fn lemma_vibrato_cycle_symmetric(ch: ChannelModel)
    requires
        vibrato_steady(ch),
        ch.vibrato_pos == 0,
    ensures
        spec_emitted_offset_sum(ch, crate::tables::VIBRATO_CYCLE as nat) == 0,
{
    lemma_emitted_sum_is_offset_sum(ch, crate::tables::VIBRATO_CYCLE as nat);
    crate::tables::lemma_vibrato_cycle_balanced(ch.vibrato_depth);
}

/// The playback state after `n` frames from state `m`.
pub open spec fn spec_run(song: Song, m: PlayerModel, n: nat) -> PlayerModel
    decreases n,
{
    if n == 0 {
        m
    } else {
        spec_next_sample(song, spec_run(song, m, (n - 1) as nat)).0
    }
}

/// The sequence of `n` stereo frames emitted from state `m`.
pub open spec fn spec_frames(song: Song, m: PlayerModel, n: nat) -> Seq<(int, int)>
    decreases n,
{
    if n == 0 {
        Seq::empty()
    } else {
        spec_frames(song, m, (n - 1) as nat).push(
            (
                spec_next_sample(song, spec_run(song, m, (n - 1) as nat)).1,
                spec_next_sample(song, spec_run(song, m, (n - 1) as nat)).2,
            ),
        )
    }
}

/// Round-trip determinism: the engine has no hidden nondeterminism — no
/// clock, randomness or allocation enters a frame step, so any two
/// sessions freshly constructed with the same channel count and sample
/// rate emit the identical sequence of frames for the same song, however
/// many frames are pulled.  Each engine call's contract pins its result
/// as a pure function of the prior state, so the whole stream is the one
/// given by `spec_frames`.
pub proof fn lemma_round_trip_determinism(
    song: Song,
    num_channels: int,
    rate: int,
    n: nat,
    m1: PlayerModel,
    m2: PlayerModel,
)
    requires
        m1 == spec_new_player(num_channels, rate),
        m2 == spec_new_player(num_channels, rate),
    ensures
        spec_frames(song, m1, n) == spec_frames(song, m2, n),
{
}

/// Loop-window wrap: when a playing channel's cursor passes the sample's
/// length and the sample has a nonempty repeat window that the overshoot
/// does not itself exceed, the next cursor value is exactly
/// `repeat_offset + (advanced cursor - size)` in fixed-point units, and
/// the channel's effective playable length becomes
/// `repeat_offset + repeat_size` from that point on.
pub proof fn lemma_loop_window_wrap(song: Song, ch: ChannelModel, rate: int)
    requires
        song.wf(),
        1 <= ch.sample_num <= song.samples@.len(),
        ch.size > 2,
        ch.period != 0,
        ch.sample_pos + spec_channel_advance(rate, ch.period) >= song.samples@[ch.sample_num
            - 1].size * (FP_SCALE as int),
        song.samples@[ch.sample_num - 1].repeat_size > 0,
        ch.sample_pos + spec_channel_advance(rate, ch.period) - song.samples@[ch.sample_num
            - 1].size * (FP_SCALE as int) < song.samples@[ch.sample_num - 1].repeat_size * (
        FP_SCALE as int),
    ensures
        spec_mix_channel(song, ch, rate).0.sample_pos == song.samples@[ch.sample_num
            - 1].repeat_offset * (FP_SCALE as int) + (ch.sample_pos + spec_channel_advance(
            rate,
            ch.period,
        ) - song.samples@[ch.sample_num - 1].size * (FP_SCALE as int)),
        spec_mix_channel(song, ch, rate).0.size == song.samples@[ch.sample_num - 1].repeat_offset
            + song.samples@[ch.sample_num - 1].repeat_size,
{
    let s = song.samples@[ch.sample_num - 1];
    let over = ch.sample_pos + spec_channel_advance(rate, ch.period) - s.size * (FP_SCALE as int);
    vstd::arithmetic::div_mod::lemma_small_mod(
        over as nat,
        (s.repeat_size * (FP_SCALE as int)) as nat,
    );
}

/// A line fold records the last pattern break of the line: if channel `c`
/// carries `PatternBreak { p }` and no later channel carries a pattern
/// break, the folded state's pending break target is `p`.
pub proof fn lemma_fold_records_pattern_break(
    song: Song,
    m: PlayerModel,
    notes: Seq<Note>,
    c: int,
    p: u8,
    k: nat,
)
    requires
        0 <= c < k <= notes.len(),
        notes[c].effect == (Effect::PatternBreak { next_pattern_pos: p }),
        forall|j: int|
            c < j < k ==> !((#[trigger] notes[j].effect) matches Effect::PatternBreak { .. }),
    ensures
        spec_line_fold(song, m, notes, k).next_pattern_pos == p as int,
    decreases k,
{
    if k - 1 > c {
        lemma_fold_records_pattern_break(song, m, notes, c, p, (k - 1) as nat);
    }
}

/// Pattern-break semantics: a note carrying `PatternBreak { p }` on the
/// line being played — with no pending transport target, no later break
/// on the same line, and the line counter not at the pattern's edge —
/// makes the *next* line played line `p` of the *next* pattern-order
/// slot: the following line step starts by moving there.
pub proof fn lemma_pattern_break_semantics(song: Song, m: PlayerModel, c: int, p: u8)
    requires
        player_inv(m, song),
        song.wf(),
        m.next_pattern_pos == -1,
        m.next_position == -1,
        m.current_line < LINES_PER_PATTERN - 1,
        song.line_readable(m.song_pattern_position, m.current_line),
        0 <= c < song.line_notes(m.song_pattern_position, m.current_line).len(),
        song.line_notes(m.song_pattern_position, m.current_line)[c].effect == (
        Effect::PatternBreak { next_pattern_pos: p }),
        forall|j: int|
            c < j < song.line_notes(m.song_pattern_position, m.current_line).len() ==> !((
            #[trigger] song.line_notes(m.song_pattern_position, m.current_line)[j].effect) matches
                Effect::PatternBreak { .. }),
    ensures
        spec_play_line(song, m).next_pattern_pos == p as int,
        spec_apply_pending(spec_play_line(song, m)).song_pattern_position
            == spec_play_line(song, m).song_pattern_position + 1,
        spec_apply_pending(spec_play_line(song, m)).song_pattern_position == m.song_pattern_position
            + 1,
        spec_apply_pending(spec_play_line(song, m)).current_line == p as int,
{
    let notes = song.line_notes(m.song_pattern_position, m.current_line);
    assert(spec_apply_pending(m) == m);
    lemma_fold_records_pattern_break(song, m, notes, c, p, notes.len());
    lemma_fold_transport(song, m, notes, notes.len());
}

/// End-of-song detection: completing line 63 with no pending transport
/// target, where the next pattern-order slot is at or past the used
/// pattern count, raises the end flag in that same line step — before any
/// further note triggers.
pub proof fn lemma_end_of_song(song: Song, m: PlayerModel)
    requires
        player_inv(m, song),
        song.wf(),
        m.next_pattern_pos == -1,
        m.next_position == -1,
        m.current_line == LINES_PER_PATTERN - 1,
        sat_inc(m.song_pattern_position) >= song.num_used_patterns,
    ensures
        spec_play_line(song, m).song_has_ended,
        spec_play_line(song, m).current_line == 0,
        spec_play_line(song, m).song_pattern_position == sat_inc(m.song_pattern_position),
{
    assert(spec_apply_pending(m) == m);
    if song.line_readable(m.song_pattern_position, m.current_line) {
        let notes = song.line_notes(m.song_pattern_position, m.current_line);
        lemma_fold_transport(song, m, notes, notes.len());
    }
}

} // verus!
