//! A verified playback engine for 4-channel Amiga tracker ("MOD") music
//! files.
//!
//! The crate decodes a raw byte buffer into a [`song::Song`] — samples,
//! patterns, notes and a pattern-play-order table — and then renders that
//! song one stereo frame at a time through a stateful, sample-rate-driven
//! synthesizer that emulates the original hardware's tick cadence.
//!
//! Audio amplitudes are kept in exact integer arithmetic: a frame is a pair
//! of signed sums in units of 1/(128*64) of full scale, and the fractional
//! waveform cursor is a 16-bit fixed-point value.  A caller that feeds a
//! sound device divides by `128.0 * 64.0` to obtain the usual [-1, 1] range.

pub mod decode;
pub mod player;
pub mod song;
pub mod tables;

pub use decode::get_format;
pub use decode::identify_num_samples;
pub use decode::load;
pub use player::change_note;
pub use player::next_sample;
pub use player::play_line;
pub use player::play_note;
pub use player::update_effects;
pub use player::ChannelInfo;
pub use player::PlayerState;
pub use song::Effect;
pub use song::FormatDescription;
pub use song::FormatError;
pub use song::Note;
pub use song::Pattern;
pub use song::Sample;
pub use song::Song;
