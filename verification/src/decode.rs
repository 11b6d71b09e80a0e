//! The binary decoder: format sniffing, header and note parsing, and the
//! one-shot [`load`] entry point that turns a raw byte buffer into a
//! [`Song`] or rejects it as structurally inconsistent.

use crate::song::Effect;
use crate::song::FormatDescription;
use crate::song::FormatError;
use crate::song::Note;
use crate::song::Pattern;
use crate::song::Sample;
use crate::song::Song;
use crate::song::LINES_PER_PATTERN;
use crate::song::MAX_SAMPLE_BYTES;
use vstd::prelude::*;
use vstd::slice::slice_to_vec;

verus! {

/// Fixed byte offset of the 4-byte format tag.
pub const TAG_OFFSET: usize = 1080;

/// What a recognized tag region spells, as the decoder's permissive text
/// decoding would render it.  The four accepted tags are `"M.K."`,
/// `"FLT4"`, `"M!K!"` and `"4CHN"`.
pub open spec fn tag_bytes_recognized(t0: u8, t1: u8, t2: u8, t3: u8) -> bool {
    ||| (t0 == 77 && t1 == 46 && t2 == 75 && t3 == 46)  // "M.K."
    ||| (t0 == 70 && t1 == 76 && t2 == 84 && t3 == 52)  // "FLT4"
    ||| (t0 == 77 && t1 == 33 && t2 == 75 && t3 == 33)  // "M!K!"
    ||| (t0 == 52 && t1 == 67 && t2 == 72 && t3 == 78)  // "4CHN"
}

/// Whether the buffer carries a recognized 4-byte tag at the fixed offset.
/// A buffer too short to hold the tag region is never tagged.
pub open spec fn spec_is_tagged(bytes: Seq<u8>) -> bool {
    &&& bytes.len() >= TAG_OFFSET + 4
    &&& tag_bytes_recognized(
        bytes[TAG_OFFSET as int],
        bytes[TAG_OFFSET + 1],
        bytes[TAG_OFFSET + 2],
        bytes[TAG_OFFSET + 3],
    )
}

/// The format the sniffer assigns to the buffer: tagged files carry 31
/// sample slots, untagged (legacy) files 15; both have 4 channels.
pub open spec fn spec_format(bytes: Seq<u8>) -> FormatDescription {
    FormatDescription {
        num_channels: 4,
        num_samples: if spec_is_tagged(bytes) { 31 } else { 15 },
        has_tag: spec_is_tagged(bytes),
    }
}

/// Classify the buffer from the 4-byte tag region.  A recognized tag means
/// the tagged 31-sample layout; anything else — other bytes, or a buffer
/// too short to reach the tag — means the legacy 15-sample layout.  An
/// unrecognized tag is a valid classification, not a failure.
pub fn get_format(file_data: &Vec<u8>) -> (r: FormatDescription)
    ensures
        r == spec_format(file_data@),
{
    if file_data.len() >= TAG_OFFSET + 4 {
        let t0 = file_data[TAG_OFFSET];
        let t1 = file_data[TAG_OFFSET + 1];
        let t2 = file_data[TAG_OFFSET + 2];
        let t3 = file_data[TAG_OFFSET + 3];
        let tagged = (t0 == 77 && t1 == 46 && t2 == 75 && t3 == 46) || (t0 == 70 && t1 == 76 && t2
            == 84 && t3 == 52) || (t0 == 77 && t1 == 33 && t2 == 75 && t3 == 33) || (t0 == 52 && t1
            == 67 && t2 == 72 && t3 == 78);
        if tagged {
            FormatDescription { num_channels: 4, num_samples: 31, has_tag: true }
        } else {
            FormatDescription { num_channels: 4, num_samples: 15, has_tag: false }
        }
    } else {
        FormatDescription { num_channels: 4, num_samples: 15, has_tag: false }
    }
}

/// Whether the tag region spells exactly `"M.K."`.
pub open spec fn spec_is_mk_tagged(bytes: Seq<u8>) -> bool {
    &&& bytes.len() >= TAG_OFFSET + 4
    &&& bytes[TAG_OFFSET as int] == 77
    &&& bytes[TAG_OFFSET + 1] == 46
    &&& bytes[TAG_OFFSET + 2] == 75
    &&& bytes[TAG_OFFSET + 3] == 46
}

/// Sample-slot count by tag alone: 31 for an exact `"M.K."` tag, else 15.
pub fn identify_num_samples(file_data: &Vec<u8>) -> (n: u32)
    ensures
        n == if spec_is_mk_tagged(file_data@) { 31int } else { 15int },
{
    if file_data.len() >= TAG_OFFSET + 4 {
        if file_data[TAG_OFFSET] == 77 && file_data[TAG_OFFSET + 1] == 46 && file_data[TAG_OFFSET
            + 2] == 75 && file_data[TAG_OFFSET + 3] == 46 {
            31
        } else {
            15
        }
    } else {
        15
    }
}

/// The display text that permissive decoding assigns to a byte sequence:
/// invalid encoding is substituted, never fatal.  Named, not spelled out:
/// the decoding is a pure function of the bytes.
pub uninterp spec fn lossy_of(bytes: Seq<u8>) -> Seq<char>;

/// Relies on `String::from_utf8_lossy`: the lossily decoded text of the
/// bytes, a pure function of the bytes alone.
#[verifier::external_body]
fn lossy_string(bytes: &[u8]) -> (r: String)
    ensures
        r@ == lossy_of(bytes@),
{
    String::from_utf8_lossy(bytes).into_owned()
}

/// A big-endian 16-bit word from two bytes.
pub open spec fn be_word(hi: u8, lo: u8) -> int {
    (hi as int) * 256 + (lo as int)
}

/// The 30-byte sample header layout: 22 name bytes, a big-endian word
/// count doubled into a byte length, fine-tune, volume, and the two
/// big-endian loop-window words, both doubled into byte units.
pub open spec fn spec_sample_header(b: Seq<u8>, s: Sample) -> bool {
    &&& s.name@ == lossy_of(b.subrange(0, 22))
    &&& s.size == 2 * be_word(b[22], b[23])
    &&& s.fine_tune == b[24]
    &&& s.volume == b[25]
    &&& s.repeat_offset == 2 * be_word(b[26], b[27])
    &&& s.repeat_size == 2 * be_word(b[28], b[29])
}

impl Sample {
    /// Decode one 30-byte sample header.  The waveform is left empty; it
    /// is filled from the back of the file once the pattern count is
    /// known.
    pub fn new(sample_info: &[u8]) -> (s: Sample)
        requires
            sample_info@.len() >= 30,
        ensures
            spec_sample_header(sample_info@.subrange(0, 30), s),
            s.waveform@ == Seq::<i8>::empty(),
            s.size <= MAX_SAMPLE_BYTES,
            s.repeat_offset <= MAX_SAMPLE_BYTES,
            s.repeat_size <= MAX_SAMPLE_BYTES,
    {
        let name = lossy_string(&sample_info[0..22]);
        let size: u32 = ((sample_info[22] as u32) * 256 + (sample_info[23] as u32)) * 2;
        let fine_tune = sample_info[24];
        let volume = sample_info[25];
        let repeat_offset: u32 = ((sample_info[26] as u32) * 256 + (sample_info[27] as u32)) * 2;
        let repeat_size: u32 = ((sample_info[28] as u32) * 256 + (sample_info[29] as u32)) * 2;
        proof {
            assert(sample_info@.subrange(0, 30).subrange(0, 22) =~= sample_info@.subrange(0, 22));
        }
        Sample {
            name,
            size,
            volume,
            fine_tune,
            repeat_offset,
            repeat_size,
            waveform: Vec::new(),
        }
    }
}

/// What a 4-bit selector and an 8-bit argument decode to.  Selector 0 with
/// a zero argument is no effect; selector 0 with a nonzero argument is an
/// arpeggio over the argument's two nibbles.  Selectors 1–4, 10–13 and 15
/// map to their variants with the documented bit splits.  Every other
/// selector — the extended-effect selector 14 included — decodes to no
/// effect, by design non-fatal.
pub open spec fn spec_effect(n: u8, a: u8) -> Effect {
    let hi = a as int / 16;
    let lo = a as int % 16;
    if n == 0 {
        if a == 0 {
            Effect::NoEffect
        } else {
            Effect::Arpeggio { chord_offset_1: hi as u8, chord_offset_2: lo as u8 }
        }
    } else if n == 1 {
        Effect::SlideUp { speed: a }
    } else if n == 2 {
        Effect::SlideDown { speed: a }
    } else if n == 3 {
        Effect::TonePortamento { speed: a }
    } else if n == 4 {
        Effect::Vibrato { speed: hi as u8, amplitude: lo as u8 }
    } else if n == 10 {
        Effect::VolumeSlide {
            volume_change: if hi != 0 {
                hi as i8
            } else {
                (-lo) as i8
            },
        }
    } else if n == 11 {
        Effect::PositionJump { next_pattern: a }
    } else if n == 12 {
        Effect::SetVolume { volume: a }
    } else if n == 13 {
        Effect::PatternBreak { next_pattern_pos: ((hi * 160 + lo) % 256) as u8 }
    } else if n == 15 {
        Effect::SetSpeed { speed: a }
    } else {
        Effect::NoEffect
    }
}

impl Effect {
    /// Decode a selector and argument pair.  Total: unrecognized
    /// selectors degrade to no effect rather than failing.
    pub fn new(effect_number: u8, effect_argument: i8) -> (e: Effect)
        ensures
            e == spec_effect(effect_number, effect_argument as u8),
    {
        let a: u8 = #[verifier::truncate] (effect_argument as u8);
        let hi: u8 = a / 16;
        let lo: u8 = a % 16;
        match effect_number {
            0 => {
                if a == 0 {
                    Effect::NoEffect
                } else {
                    Effect::Arpeggio { chord_offset_1: hi, chord_offset_2: lo }
                }
            },
            1 => Effect::SlideUp { speed: a },
            2 => Effect::SlideDown { speed: a },
            3 => Effect::TonePortamento { speed: a },
            4 => Effect::Vibrato { speed: hi, amplitude: lo },
            10 => Effect::VolumeSlide {
                volume_change: if hi != 0 {
                    hi as i8
                } else {
                    -(lo as i8)
                },
            },
            11 => Effect::PositionJump { next_pattern: a },
            12 => Effect::SetVolume { volume: a },
            13 => {
                let v: u32 = (hi as u32) * 160 + (lo as u32);
                Effect::PatternBreak { next_pattern_pos: (v % 256) as u8 }
            },
            15 => Effect::SetSpeed { speed: a },
            _ => Effect::NoEffect,
        }
    }
}

/// The 4-byte note cell layout: byte 0's high nibble holds the sample
/// number's high bits, its low nibble and byte 1 the 12-bit period; byte
/// 2's high nibble the sample number's low bits, its low nibble the effect
/// selector; byte 3 the effect argument.
pub open spec fn spec_note(b: Seq<u8>) -> Note {
    Note {
        sample_number: (b[2] as int / 16 + (b[0] as int / 16) * 16) as u8,
        period: ((b[0] as int % 16) * 256 + b[1] as int) as u32,
        effect: spec_effect((b[2] as int % 16) as u8, b[3]),
    }
}

impl Note {
    /// Decode one 4-byte note cell.
    pub fn new(note_data: &[u8]) -> (n: Note)
        requires
            note_data@.len() >= 4,
        ensures
            n == spec_note(note_data@.subrange(0, 4)),
            n.period < 4096,
    {
        proof {
            let b = note_data@.subrange(0, 4);
            assert(b[0] == note_data@[0]);
            assert(b[1] == note_data@[1]);
            assert(b[2] == note_data@[2]);
            assert(b[3] == note_data@[3]);
        }
        let sample_number: u8 = note_data[2] / 16 + (note_data[0] / 16) * 16;
        let period: u32 = ((note_data[0] % 16) as u32) * 256 + (note_data[1] as u32);
        let effect_argument: i8 = #[verifier::truncate] (note_data[3] as i8);
        let effect_number: u8 = note_data[2] % 16;
        let effect = Effect::new(effect_number, effect_argument);
        proof {
            let b3: u8 = note_data@[3];
            assert(effect_argument as u8 == b3) by (bit_vector)
                requires
                    effect_argument == b3 as i8,
            ;
        }
        Note { sample_number, period, effect }
    }
}

impl Pattern {
    /// An empty 64-line grid, each line with no notes yet.
    pub fn new() -> (p: Pattern)
        ensures
            p.lines@.len() == LINES_PER_PATTERN,
            forall|l: int| 0 <= l < LINES_PER_PATTERN ==> (#[trigger] p.lines@[l])@.len() == 0,
    {
        let mut lines: Vec<Vec<Note>> = Vec::new();
        for _line in 0..LINES_PER_PATTERN
            invariant
                lines@.len() == _line,
                forall|l: int| 0 <= l < _line ==> (#[trigger] lines@[l])@.len() == 0,
        {
            lines.push(Vec::new());
        }
        Pattern { lines }
    }
}

/// Sample-slot count of the buffer's format, as an int.
pub open spec fn spec_num_samples(bytes: Seq<u8>) -> int {
    if spec_is_tagged(bytes) {
        31
    } else {
        15
    }
}

/// Byte length of everything before the pattern payload: 20 name bytes,
/// the 30-byte sample headers, the 2 song-header bytes, the 128-slot
/// order table, and the 4 tag bytes when a tag is present.
pub open spec fn spec_header_len(bytes: Seq<u8>) -> int {
    20 + 30 * spec_num_samples(bytes) + 2 + 128 + if spec_is_tagged(bytes) {
        4int
    } else {
        0int
    }
}

/// The byte length sample `k`'s header declares for its waveform.
pub open spec fn spec_sample_size(bytes: Seq<u8>, k: int) -> int {
    2 * be_word(bytes[20 + 30 * k + 22], bytes[20 + 30 * k + 23])
}

/// Total waveform bytes declared by the first `k` sample headers.
pub open spec fn spec_sum_sample_sizes(bytes: Seq<u8>, k: nat) -> int
    decreases k,
{
    if k == 0 {
        0
    } else {
        spec_sum_sample_sizes(bytes, (k - 1) as nat) + spec_sample_size(bytes, k as int - 1)
    }
}

proof fn lemma_sum_sizes_monotone(bytes: Seq<u8>, a: nat, b: nat)
    requires
        a <= b,
    ensures
        spec_sum_sample_sizes(bytes, a) <= spec_sum_sample_sizes(bytes, b),
    decreases b,
{
    if a < b {
        lemma_sum_sizes_monotone(bytes, a, (b - 1) as nat);
        assert(spec_sample_size(bytes, b as int - 1) >= 0);
    }
}

/// Bytes left for the pattern payload once the header and the declared
/// waveform bytes are accounted for.  Negative when the waveforms alone
/// would overrun the buffer.
pub open spec fn spec_pattern_bytes(bytes: Seq<u8>) -> int {
    bytes.len() - spec_header_len(bytes) - spec_sum_sample_sizes(
        bytes,
        spec_num_samples(bytes) as nat,
    )
}

/// Bytes of one pattern: 64 lines of 4 channels of 4 bytes.
pub const SINGLE_PATTERN_BYTES: usize = 1024;

/// Whether the buffer decodes to a song: it holds the whole header, the
/// declared waveforms fit, and the bytes left for patterns are an exact
/// multiple of the pattern size.
pub open spec fn spec_load_ok(bytes: Seq<u8>) -> bool {
    &&& bytes.len() >= spec_header_len(bytes)
    &&& spec_pattern_bytes(bytes) >= 0
    &&& spec_pattern_bytes(bytes) % (SINGLE_PATTERN_BYTES as int) == 0
}

/// The inferred pattern count: the pattern payload divided evenly.
pub open spec fn spec_num_patterns(bytes: Seq<u8>) -> int {
    spec_pattern_bytes(bytes) / (SINGLE_PATTERN_BYTES as int)
}

/// Which error a rejected buffer gets: truncation when the header or the
/// declared waveforms overrun the buffer, otherwise the pattern-payload
/// mismatch.
pub open spec fn spec_load_err(bytes: Seq<u8>) -> FormatError {
    if bytes.len() < spec_header_len(bytes) || spec_pattern_bytes(bytes) < 0 {
        FormatError::Truncated
    } else {
        FormatError::PatternSizeMismatch
    }
}

/// First byte of the pattern payload.
pub open spec fn spec_patterns_start(bytes: Seq<u8>) -> int {
    spec_header_len(bytes)
}

/// First byte of sample `k`'s waveform: after the patterns and the
/// waveforms of the samples before it.
pub open spec fn spec_waveform_start(bytes: Seq<u8>, k: int) -> int {
    spec_header_len(bytes) + spec_pattern_bytes(bytes) + spec_sum_sample_sizes(bytes, k as nat)
}

/// The note decoded from the 4 bytes at `off`.
pub open spec fn spec_note_at(bytes: Seq<u8>, off: int) -> Note {
    spec_note(bytes.subrange(off, off + 4))
}

/// Everything [`load`] promises of a successfully decoded song: every
/// field of the aggregate equals what the byte layout dictates.
pub open spec fn spec_song_of(bytes: Seq<u8>, song: Song) -> bool {
    let ns = spec_num_samples(bytes);
    let ord_start = 20 + 30 * ns + 2;
    let ps = spec_patterns_start(bytes);
    &&& song.name@ == lossy_of(bytes.subrange(0, 20))
    &&& song.format == spec_format(bytes)
    &&& song.samples@.len() == ns
    &&& forall|k: int|
        0 <= k < ns ==> spec_sample_header(
            bytes.subrange(20 + 30 * k, 20 + 30 * k + 30),
            #[trigger] song.samples@[k],
        )
    &&& forall|k: int|
        0 <= k < ns ==> (#[trigger] song.samples@[k]).waveform@ == bytes.subrange(
            spec_waveform_start(bytes, k),
            spec_waveform_start(bytes, k) + spec_sample_size(bytes, k),
        ).map_values(|b: u8| b as i8)
    &&& song.num_used_patterns == bytes[20 + 30 * ns]
    &&& song.end_position == bytes[20 + 30 * ns + 1]
    &&& song.pattern_table@ == bytes.subrange(ord_start, ord_start + 128)
    &&& song.patterns@.len() == spec_num_patterns(bytes)
    &&& forall|p: int, l: int, c: int|
        0 <= p < spec_num_patterns(bytes) && 0 <= l < LINES_PER_PATTERN && 0 <= c < 4
            ==> (#[trigger] song.patterns@[p].lines@[l]@[c]) == spec_note_at(
            bytes,
            ps + p * (SINGLE_PATTERN_BYTES as int) + l * 16 + c * 4,
        )
}

/// Decode a whole byte buffer into a song.
///
/// Succeeds exactly when the buffer holds its full header and the bytes
/// between header and declared waveforms form a whole number of patterns;
/// the pattern count is inferred as that quotient, never read.  A rejected
/// buffer reports truncation, or the pattern-payload mismatch; no partial
/// song is ever returned.
pub fn load(file_data: &Vec<u8>) -> (r: Result<Song, FormatError>)
    ensures
        r is Ok <==> spec_load_ok(file_data@),
        r matches Ok(song) ==> spec_song_of(file_data@, song) && song.wf(),
        r matches Err(e) ==> e == spec_load_err(file_data@),
{
    let ghost bytes = file_data@;
    let format = get_format(file_data);
    let num_samples: usize = format.num_samples as usize;
    let header_len: usize = 20 + 30 * num_samples + 2 + 128 + if format.has_tag {
        4
    } else {
        0
    };
    assert(header_len == spec_header_len(bytes));
    proof {
        assert(file_data.len() == file_data@.len());
        assert(file_data@.len() <= usize::MAX);
    }
    if file_data.len() < header_len {
        assert(!spec_load_ok(bytes));
        return Err(FormatError::Truncated);
    }
    let song_name = lossy_string(&file_data[0..20]);

    // Sample headers, waveforms still empty.
    let mut samples: Vec<Sample> = Vec::new();
    let mut offset: usize = 20;
    for sample_num in 0..num_samples
        invariant
            bytes == file_data@,
            offset == 20 + 30 * sample_num,
            file_data@.len() >= header_len,
            header_len == spec_header_len(bytes),
            num_samples == spec_num_samples(bytes),
            samples@.len() == sample_num,
            forall|k: int|
                0 <= k < sample_num ==> spec_sample_header(
                    bytes.subrange(20 + 30 * k, 20 + 30 * k + 30),
                    #[trigger] samples@[k],
                ),
            forall|k: int|
                0 <= k < sample_num ==> (#[trigger] samples@[k]).waveform@ == Seq::<i8>::empty(),
            forall|k: int|
                0 <= k < sample_num ==> (#[trigger] samples@[k]).size <= MAX_SAMPLE_BYTES
                    && samples@[k].repeat_offset <= MAX_SAMPLE_BYTES && samples@[k].repeat_size
                    <= MAX_SAMPLE_BYTES,
    {
        let s = Sample::new(&file_data[offset..offset + 30]);
        proof {
            assert(bytes.subrange(offset as int, offset + 30).subrange(0, 30) =~= bytes.subrange(
                20 + 30 * sample_num,
                20 + 30 * sample_num + 30,
            ));
        }
        samples.push(s);
        offset += 30;
    }

    let num_used_patterns: u8 = file_data[offset];
    let end_position: u8 = file_data[offset + 1];
    offset += 2;
    let pattern_table: Vec<u8> = slice_to_vec(&file_data[offset..offset + 128]);
    offset += 128;
    if format.has_tag {
        offset += 4;
    }
    assert(offset == header_len);

    // Total waveform bytes the headers declare.
    let mut total_sample_size: usize = 0;
    for k in 0..num_samples
        invariant
            bytes == file_data@,
            file_data@.len() >= header_len,
            header_len == spec_header_len(bytes),
            num_samples == spec_num_samples(bytes),
            samples@.len() == num_samples,
            forall|j: int|
                0 <= j < num_samples ==> spec_sample_header(
                    bytes.subrange(20 + 30 * j, 20 + 30 * j + 30),
                    #[trigger] samples@[j],
                ),
            forall|j: int|
                0 <= j < num_samples ==> (#[trigger] samples@[j]).size <= MAX_SAMPLE_BYTES,
            total_sample_size == spec_sum_sample_sizes(bytes, k as nat),
            total_sample_size <= k * (MAX_SAMPLE_BYTES as int),
    {
        proof {
            assert(spec_sample_header(
                bytes.subrange(20 + 30 * (k as int), 20 + 30 * (k as int) + 30),
                samples@[k as int],
            ));
            assert(bytes.subrange(20 + 30 * (k as int), 20 + 30 * (k as int) + 30)[22] == bytes[20
                + 30 * (k as int) + 22]);
            assert(bytes.subrange(20 + 30 * (k as int), 20 + 30 * (k as int) + 30)[23] == bytes[20
                + 30 * (k as int) + 23]);
        }
        total_sample_size += samples[k].size as usize;
    }

    // The patterns take exactly the space no other region accounts for.
    let rest: usize = file_data.len() - offset;
    if rest < total_sample_size {
        assert(spec_pattern_bytes(bytes) < 0);
        return Err(FormatError::Truncated);
    }
    let total_pattern_size: usize = rest - total_sample_size;
    assert(total_pattern_size == spec_pattern_bytes(bytes));
    if total_pattern_size % SINGLE_PATTERN_BYTES != 0 {
        return Err(FormatError::PatternSizeMismatch);
    }
    let num_patterns: usize = total_pattern_size / SINGLE_PATTERN_BYTES;
    assert(spec_load_ok(bytes));

    // The pattern payload: 64 lines of 4 notes of 4 bytes each.
    let ghost ps = spec_patterns_start(bytes);
    let mut patterns: Vec<Pattern> = Vec::new();
    for p in 0..num_patterns
        invariant
            bytes == file_data@,
            file_data@.len() <= usize::MAX,
            spec_load_ok(bytes),
            num_patterns == spec_num_patterns(bytes),
            ps == spec_patterns_start(bytes),
            ps + num_patterns * (SINGLE_PATTERN_BYTES as int) <= bytes.len(),
            offset == ps + p * (SINGLE_PATTERN_BYTES as int),
            patterns@.len() == p,
            forall|q: int|
                0 <= q < p ==> (#[trigger] patterns@[q]).wf(4),
            forall|q: int, l: int, c: int|
                0 <= q < p && 0 <= l < LINES_PER_PATTERN && 0 <= c < 4
                    ==> (#[trigger] patterns@[q].lines@[l]@[c]) == spec_note_at(
                    bytes,
                    ps + q * (SINGLE_PATTERN_BYTES as int) + l * 16 + c * 4,
                ),
    {
        let mut lines: Vec<Vec<Note>> = Vec::new();
        let ghost pat_start = offset as int;
        for line in 0..LINES_PER_PATTERN
            invariant
                bytes == file_data@,
                file_data@.len() <= usize::MAX,
                pat_start + (SINGLE_PATTERN_BYTES as int) <= bytes.len(),
                offset == pat_start + line * 16,
                lines@.len() == line,
                forall|l: int| 0 <= l < line ==> (#[trigger] lines@[l])@.len() == 4,
                forall|l: int, c: int|
                    0 <= l < line && 0 <= c < 4 ==> (#[trigger] lines@[l]@[c]) == spec_note_at(
                        bytes,
                        pat_start + l * 16 + c * 4,
                    ),
        {
            let mut ln: Vec<Note> = Vec::new();
            for c in 0..4usize
                invariant
                    bytes == file_data@,
                    file_data@.len() <= usize::MAX,
                    pat_start + (SINGLE_PATTERN_BYTES as int) <= bytes.len(),
                    line < LINES_PER_PATTERN,
                    offset == pat_start + line * 16 + c * 4,
                    ln@.len() == c,
                    forall|d: int|
                        0 <= d < c ==> (#[trigger] ln@[d]) == spec_note_at(
                            bytes,
                            pat_start + line * 16 + d * 4,
                        ),
            {
                proof {
                    assert(offset as int + 4 <= pat_start + (SINGLE_PATTERN_BYTES as int));
                    assert(offset + 4 <= file_data@.len());
                }
                let note = Note::new(&file_data[offset..offset + 4]);
                proof {
                    assert(bytes.subrange(offset as int, offset + 4).subrange(0, 4) =~= bytes
                        .subrange(offset as int, offset + 4));
                }
                ln.push(note);
                offset += 4;
            }
            lines.push(ln);
        }
        patterns.push(Pattern { lines });
    }
    assert(offset == ps + num_patterns * (SINGLE_PATTERN_BYTES as int));

    // The waveforms: `size` signed bytes per sample, in table order.
    for k in 0..num_samples
        invariant
            bytes == file_data@,
            file_data@.len() <= usize::MAX,
            file_data@.len() >= header_len,
            header_len == spec_header_len(bytes),
            spec_load_ok(bytes),
            num_samples == spec_num_samples(bytes),
            samples@.len() == num_samples,
            offset == spec_waveform_start(bytes, k as int),
            spec_waveform_start(bytes, num_samples as int) == bytes.len(),
            forall|j: int|
                0 <= j < num_samples ==> spec_sample_header(
                    bytes.subrange(20 + 30 * j, 20 + 30 * j + 30),
                    #[trigger] samples@[j],
                ),
            forall|j: int|
                0 <= j < num_samples ==> (#[trigger] samples@[j]).size <= MAX_SAMPLE_BYTES
                    && samples@[j].repeat_offset <= MAX_SAMPLE_BYTES && samples@[j].repeat_size
                    <= MAX_SAMPLE_BYTES,
            forall|j: int|
                0 <= j < k ==> (#[trigger] samples@[j]).waveform@ == bytes.subrange(
                    spec_waveform_start(bytes, j),
                    spec_waveform_start(bytes, j) + spec_sample_size(bytes, j),
                ).map_values(|b: u8| b as i8),
            forall|j: int|
                k <= j < num_samples ==> (#[trigger] samples@[j]).waveform@ == Seq::<i8>::empty(),
    {
        let length: usize = samples[k].size as usize;
        proof {
            assert(spec_sample_header(
                bytes.subrange(20 + 30 * (k as int), 20 + 30 * (k as int) + 30),
                samples@[k as int],
            ));
            assert(bytes.subrange(20 + 30 * (k as int), 20 + 30 * (k as int) + 30)[22] == bytes[20
                + 30 * (k as int) + 22]);
            assert(bytes.subrange(20 + 30 * (k as int), 20 + 30 * (k as int) + 30)[23] == bytes[20
                + 30 * (k as int) + 23]);
            assert(length == spec_sample_size(bytes, k as int));
            lemma_sum_sizes_monotone(bytes, (k + 1) as nat, num_samples as nat);
            assert(spec_sum_sample_sizes(bytes, (k + 1) as nat) == spec_sum_sample_sizes(
                bytes,
                k as nat,
            ) + spec_sample_size(bytes, k as int));
            assert(offset as int + length <= bytes.len());
        }
        let mut wf_data: Vec<i8> = Vec::new();
        let ghost wstart = offset as int;
        for idx in 0..length
            invariant
                bytes == file_data@,
                file_data@.len() <= usize::MAX,
                wstart + length <= bytes.len(),
                offset == wstart + idx,
                wf_data@.len() == idx,
                forall|d: int|
                    0 <= d < idx ==> (#[trigger] wf_data@[d]) == bytes[wstart + d] as i8,
        {
            wf_data.push(#[verifier::truncate] (file_data[offset] as i8));
            offset += 1;
        }
        proof {
            assert(wf_data@ =~= bytes.subrange(wstart, wstart + length).map_values(
                |b: u8| b as i8,
            ));
        }
        let sample_ref = &mut samples[k];
        sample_ref.waveform = wf_data;
    }

    let song = Song {
        name: song_name,
        format,
        samples,
        patterns,
        pattern_table,
        num_used_patterns: num_used_patterns as u32,
        end_position: end_position as u32,
    };
    proof {
        assert(song.name@ == lossy_of(bytes.subrange(0, 20)));
        let ghost ns = spec_num_samples(bytes);
        assert forall|i: int| 0 <= i < song.samples@.len() implies (
        #[trigger] song.samples@[i]).wf() by {
            lemma_sum_sizes_monotone(bytes, 0, i as nat);
            lemma_sum_sizes_monotone(bytes, (i + 1) as nat, ns as nat);
            assert(spec_sum_sample_sizes(bytes, (i + 1) as nat) == spec_sum_sample_sizes(
                bytes,
                i as nat,
            ) + spec_sample_size(bytes, i));
            assert(0 <= spec_waveform_start(bytes, i));
            assert(spec_waveform_start(bytes, i) + spec_sample_size(bytes, i) <= bytes.len());
            assert(song.samples@[i].waveform@.len() == spec_sample_size(bytes, i));
        }
        assert(song.wf());
    }
    Ok(song)
}

} // verus!
