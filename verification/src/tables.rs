//! The two process-wide lookup tables of the playback engine: the
//! note-period table used by arpeggio stepping, and the triangulated-sine
//! vibrato waveform, stored as 32 magnitudes whose second half-cycle is
//! read negated.

use vstd::prelude::*;

verus! {

/// Number of entries in the note-period table.
pub const PERIOD_TABLE_LEN: usize = 60;

/// Number of steps in one full vibrato phase cycle.
pub const VIBRATO_CYCLE: usize = 64;

/// The hardware note-period table, ascending: five octaves of twelve
/// semitones.  Lower period means higher pitch.
pub open spec fn period_table(i: int) -> int {
    if i == 0 { 57 } else if i == 1 { 60 } else if i == 2 { 64 }
    else if i == 3 { 67 } else if i == 4 { 71 } else if i == 5 { 76 }
    else if i == 6 { 80 } else if i == 7 { 85 } else if i == 8 { 90 }
    else if i == 9 { 95 } else if i == 10 { 101 } else if i == 11 { 107 }
    else if i == 12 { 113 } else if i == 13 { 120 } else if i == 14 { 127 }
    else if i == 15 { 135 } else if i == 16 { 143 } else if i == 17 { 151 }
    else if i == 18 { 160 } else if i == 19 { 170 } else if i == 20 { 180 }
    else if i == 21 { 190 } else if i == 22 { 202 } else if i == 23 { 214 }
    else if i == 24 { 226 } else if i == 25 { 240 } else if i == 26 { 254 }
    else if i == 27 { 269 } else if i == 28 { 285 } else if i == 29 { 302 }
    else if i == 30 { 320 } else if i == 31 { 339 } else if i == 32 { 360 }
    else if i == 33 { 381 } else if i == 34 { 404 } else if i == 35 { 428 }
    else if i == 36 { 453 } else if i == 37 { 480 } else if i == 38 { 508 }
    else if i == 39 { 538 } else if i == 40 { 570 } else if i == 41 { 604 }
    else if i == 42 { 640 } else if i == 43 { 678 } else if i == 44 { 720 }
    else if i == 45 { 762 } else if i == 46 { 808 } else if i == 47 { 856 }
    else if i == 48 { 907 } else if i == 49 { 961 } else if i == 50 { 1017 }
    else if i == 51 { 1077 } else if i == 52 { 1141 } else if i == 53 { 1209 }
    else if i == 54 { 1281 } else if i == 55 { 1357 } else if i == 56 { 1440 }
    else if i == 57 { 1525 } else if i == 58 { 1616 } else if i == 59 { 1712 }
    else { 0 }
}

/// Executable read of the note-period table.
pub fn period_at(i: usize) -> (p: u32)
    requires
        i < PERIOD_TABLE_LEN,
    ensures
        p == period_table(i as int),
{
    if i == 0 { 57 } else if i == 1 { 60 } else if i == 2 { 64 }
    else if i == 3 { 67 } else if i == 4 { 71 } else if i == 5 { 76 }
    else if i == 6 { 80 } else if i == 7 { 85 } else if i == 8 { 90 }
    else if i == 9 { 95 } else if i == 10 { 101 } else if i == 11 { 107 }
    else if i == 12 { 113 } else if i == 13 { 120 } else if i == 14 { 127 }
    else if i == 15 { 135 } else if i == 16 { 143 } else if i == 17 { 151 }
    else if i == 18 { 160 } else if i == 19 { 170 } else if i == 20 { 180 }
    else if i == 21 { 190 } else if i == 22 { 202 } else if i == 23 { 214 }
    else if i == 24 { 226 } else if i == 25 { 240 } else if i == 26 { 254 }
    else if i == 27 { 269 } else if i == 28 { 285 } else if i == 29 { 302 }
    else if i == 30 { 320 } else if i == 31 { 339 } else if i == 32 { 360 }
    else if i == 33 { 381 } else if i == 34 { 404 } else if i == 35 { 428 }
    else if i == 36 { 453 } else if i == 37 { 480 } else if i == 38 { 508 }
    else if i == 39 { 538 } else if i == 40 { 570 } else if i == 41 { 604 }
    else if i == 42 { 640 } else if i == 43 { 678 } else if i == 44 { 720 }
    else if i == 45 { 762 } else if i == 46 { 808 } else if i == 47 { 856 }
    else if i == 48 { 907 } else if i == 49 { 961 } else if i == 50 { 1017 }
    else if i == 51 { 1077 } else if i == 52 { 1141 } else if i == 53 { 1209 }
    else if i == 54 { 1281 } else if i == 55 { 1357 } else if i == 56 { 1440 }
    else if i == 57 { 1525 } else if i == 58 { 1616 } else { 1712 }
}

/// Smallest period-table index holding `p` from `i` upward, or -1 if none.
pub open spec fn period_index_from(p: int, i: int) -> int
    decreases PERIOD_TABLE_LEN - i,
{
    if i < 0 || i >= PERIOD_TABLE_LEN {
        -1
    } else if period_table(i) == p {
        i
    } else {
        period_index_from(p, i + 1)
    }
}

/// The index of period `p` in the note-period table, or -1 when `p` is not
/// an exact table entry.
pub open spec fn period_index(p: int) -> int {
    period_index_from(p, 0)
}

/// Executable exact lookup of a period in the note-period table.
pub fn find_period_index(p: u32) -> (r: Option<usize>)
    ensures
        match r {
            Some(i) => i < PERIOD_TABLE_LEN && period_index(p as int) == i,
            None => period_index(p as int) == -1,
        },
{
    let mut i: usize = 0;
    while i < PERIOD_TABLE_LEN
        invariant
            i <= PERIOD_TABLE_LEN,
            period_index(p as int) == period_index_from(p as int, i as int),
        decreases PERIOD_TABLE_LEN - i,
    {
        if period_at(i) == p {
            return Some(i);
        }
        i += 1;
    }
    None
}

/// Magnitude half of the vibrato waveform: a 32-entry triangulated sine.
/// Steps 32..63 of a cycle use the same magnitudes negated.
pub open spec fn vibrato_magnitude(i: int) -> int {
    if i == 0 { 0 } else if i == 1 { 24 } else if i == 2 { 49 }
    else if i == 3 { 74 } else if i == 4 { 97 } else if i == 5 { 120 }
    else if i == 6 { 141 } else if i == 7 { 161 } else if i == 8 { 180 }
    else if i == 9 { 197 } else if i == 10 { 212 } else if i == 11 { 224 }
    else if i == 12 { 235 } else if i == 13 { 244 } else if i == 14 { 250 }
    else if i == 15 { 253 } else if i == 16 { 255 } else if i == 17 { 253 }
    else if i == 18 { 250 } else if i == 19 { 244 } else if i == 20 { 235 }
    else if i == 21 { 224 } else if i == 22 { 212 } else if i == 23 { 197 }
    else if i == 24 { 180 } else if i == 25 { 161 } else if i == 26 { 141 }
    else if i == 27 { 120 } else if i == 28 { 97 } else if i == 29 { 74 }
    else if i == 30 { 49 } else if i == 31 { 24 }
    else { 0 }
}

/// Executable read of the vibrato magnitude table.
pub fn vibrato_magnitude_at(i: usize) -> (m: u32)
    requires
        i < 32,
    ensures
        m == vibrato_magnitude(i as int),
        m <= 255,
{
    if i == 0 { 0 } else if i == 1 { 24 } else if i == 2 { 49 }
    else if i == 3 { 74 } else if i == 4 { 97 } else if i == 5 { 120 }
    else if i == 6 { 141 } else if i == 7 { 161 } else if i == 8 { 180 }
    else if i == 9 { 197 } else if i == 10 { 212 } else if i == 11 { 224 }
    else if i == 12 { 235 } else if i == 13 { 244 } else if i == 14 { 250 }
    else if i == 15 { 253 } else if i == 16 { 255 } else if i == 17 { 253 }
    else if i == 18 { 250 } else if i == 19 { 244 } else if i == 20 { 235 }
    else if i == 21 { 224 } else if i == 22 { 212 } else if i == 23 { 197 }
    else if i == 24 { 180 } else if i == 25 { 161 } else if i == 26 { 141 }
    else if i == 27 { 120 } else if i == 28 { 97 } else if i == 29 { 74 }
    else if i == 30 { 49 } else { 24 }
}

/// The signed vibrato offset at phase step `pos` (taken modulo one cycle)
/// for a given depth: `magnitude * depth / 32`, negated in the second
/// half-cycle.  The division truncates a non-negative magnitude product, so
/// negation happens outside it, exactly as the engine computes it.
pub open spec fn vibrato_offset(pos: int, depth: int) -> int {
    let i = pos % (VIBRATO_CYCLE as int);
    if i < 32 {
        (vibrato_magnitude(i) * depth) / 32
    } else {
        -((vibrato_magnitude(i - 32) * depth) / 32)
    }
}

/// Sum of the first `n` vibrato offsets of a cycle at a given depth.
pub open spec fn vibrato_offset_sum(n: nat, depth: int) -> int
    decreases n,
{
    if n == 0 {
        0
    } else {
        vibrato_offset_sum((n - 1) as nat, depth) + vibrato_offset(n - 1, depth)
    }
}

/// Step `i + 32` of a vibrato cycle is the exact negation of step `i`: the
/// waveform is odd-symmetric at every depth.
pub proof fn lemma_vibrato_half_cycles_oppose(i: int, depth: int)
    requires
        0 <= i < 32,
    ensures
        vibrato_offset(i + 32, depth) == -vibrato_offset(i, depth),
{
    assert((i + 32) % (VIBRATO_CYCLE as int) == i + 32);
    assert(i % (VIBRATO_CYCLE as int) == i);
}

proof fn lemma_vibrato_sum_cancels(k: nat, depth: int)
    requires
        k <= 32,
    ensures
        vibrato_offset_sum(32 + k, depth) == vibrato_offset_sum(32, depth)
            - vibrato_offset_sum(k, depth),
    decreases k,
{
    if k > 0 {
        lemma_vibrato_sum_cancels((k - 1) as nat, depth);
        lemma_vibrato_half_cycles_oppose(k - 1, depth);
    }
}

/// Over one full 64-step vibrato cycle the emitted period offsets from the
/// anchor sum to zero, at every depth: the vibrato is symmetric about the
/// anchor period.
pub proof fn lemma_vibrato_cycle_balanced(depth: int)
    ensures
        vibrato_offset_sum(VIBRATO_CYCLE as nat, depth) == 0,
{
    lemma_vibrato_sum_cancels(32, depth);
}

} // verus!
