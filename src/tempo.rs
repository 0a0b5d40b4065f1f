use vstd::prelude::*;

verus! {

/// Slowest tempo the settings accept, in beats per minute.
pub const MIN_BPM: u64 = 20;

/// Fastest tempo the settings accept, in beats per minute.
pub const MAX_BPM: u64 = 500;

/// Milliseconds in one minute.
pub const MS_PER_MINUTE: u64 = 60000;

/// `n / d` rounded to the nearest integer, halves rounded up
/// (for non-negative `n` this is rounding half away from zero).
pub open spec fn round_div(n: int, d: int) -> int {
    (2 * n + d) / (2 * d)
}

/// Whether `bpm` lies in the accepted tempo range.
pub open spec fn bpm_in_range(bpm: int) -> bool {
    MIN_BPM <= bpm <= MAX_BPM
}

/// Length of one quarter-note beat at `bpm`, in whole milliseconds.
pub open spec fn beat_interval(bpm: int) -> int {
    round_div(MS_PER_MINUTE as int, bpm)
}

/// A beat interval scaled to the note value `note_value` of the time
/// signature: whole and half notes last four and two quarter beats, an
/// eighth to a sixty-fourth note half down to a sixteenth of one (the
/// remainder dropped); any other note value keeps the quarter beat.
pub open spec fn note_scaled(interval: int, note_value: int) -> int {
    if note_value == 64 {
        interval / 16
    } else if note_value == 32 {
        interval / 8
    } else if note_value == 16 {
        interval / 4
    } else if note_value == 8 {
        interval / 2
    } else if note_value == 2 {
        interval * 2
    } else if note_value == 1 {
        interval * 4
    } else {
        interval
    }
}

/// The effective time between pulses: the note-scaled interval, divided by
/// three (rounded) in triplet mode.
pub open spec fn effective_interval(interval: int, note_value: int, triplets: bool) -> int {
    if triplets {
        round_div(note_scaled(interval, note_value), 3)
    } else {
        note_scaled(interval, note_value)
    }
}

/// `round_div` rounds to the nearest integer: `n / d` lies within half a
/// unit of the result, ties going to the larger neighbour.
pub proof fn lemma_round_div_is_nearest(n: int, d: int)
    requires
        d > 0,
    ensures
        d * (2 * round_div(n, d) - 1) <= 2 * n < d * (2 * round_div(n, d) + 1),
{
    let m = 2 * n + d;
    let r = round_div(n, d);
    vstd::arithmetic::div_mod::lemma_fundamental_div_mod(m, 2 * d);
    vstd::arithmetic::div_mod::lemma_mod_bound(m, 2 * d);
    assert(d * (2 * r - 1) <= 2 * n < d * (2 * r + 1)) by (nonlinear_arith)
        requires
            m == 2 * d * r + m % (2 * d),
            0 <= m % (2 * d) < 2 * d,
            m == 2 * n + d,
    ;
}

/// `n / d` rounded half up, computed without overflow.
fn div_round(n: u64, d: u64) -> (r: u64)
    requires
        d > 0,
    ensures
        r == round_div(n as int, d as int),
        r <= n,
{
    let q = n / d;
    let rem = n % d;
    proof {
        lemma_round_div_parts(n as int, d as int, q as int, rem as int);
    }
    if rem >= d - rem {
        q + 1
    } else {
        q
    }
}

proof fn lemma_round_div_parts(n: int, d: int, q: int, rem: int)
    requires
        n >= 0,
        d > 0,
        q == n / d,
        rem == n % d,
    ensures
        rem >= d - rem ==> round_div(n, d) == q + 1,
        rem < d - rem ==> round_div(n, d) == q,
        round_div(n, d) <= n,
{
    vstd::arithmetic::div_mod::lemma_fundamental_div_mod(n, d);
    vstd::arithmetic::div_mod::lemma_mod_bound(n, d);
    let m = 2 * n + d;
    if rem >= d - rem {
        assert(m == (q + 1) * (2 * d) + (2 * rem - d)) by (nonlinear_arith)
            requires
                n == d * q + rem,
                m == 2 * n + d,
        ;
        vstd::arithmetic::div_mod::lemma_fundamental_div_mod_converse(m, 2 * d, q + 1, 2 * rem - d);
        assert(q + 1 <= n) by (nonlinear_arith)
            requires
                n == d * q + rem,
                rem >= d - rem,
                0 <= rem < d,
                q >= 0,
        ;
    } else {
        assert(m == q * (2 * d) + (2 * rem + d)) by (nonlinear_arith)
            requires
                n == d * q + rem,
                m == 2 * n + d,
        ;
        vstd::arithmetic::div_mod::lemma_fundamental_div_mod_converse(m, 2 * d, q, 2 * rem + d);
        assert(q <= n) by (nonlinear_arith)
            requires
                n == d * q + rem,
                0 <= rem,
                d >= 1,
                q >= 0,
        ;
    }
}

/// A tempo in beats per minute together with the quarter-note beat interval
/// derived from it, so that the two are always written as a pair.
#[derive(Clone, Copy, Debug, PartialEq, Eq)]
pub struct Tempo {
    pub bpm: u64,
    pub ms_delay: u64,
}

/// The setting that the tempo `bpm` gives, when it is in the accepted range.
pub open spec fn tempo_of(bpm: int) -> Option<Tempo> {
    if bpm_in_range(bpm) {
        Some(Tempo { bpm: bpm as u64, ms_delay: beat_interval(bpm) as u64 })
    } else {
        None
    }
}

impl Tempo {
    /// The tempo `bpm` with its beat interval, or `None` when `bpm` lies
    /// outside the accepted range.
    pub fn from_bpm(bpm: u64) -> (t: Option<Tempo>)
        ensures
            t == tempo_of(bpm as int),
    {
        if verify_bpm(bpm) {
            Some(Tempo { bpm, ms_delay: ms_from_bpm(bpm) })
        } else {
            None
        }
    }
}

/// How far one press of the tempo keys moves the tempo, in beats per minute.
pub const BPM_STEP: u64 = 10;

impl Tempo {
    /// The tempo one step above (`up`) or below `bpm`, or `None` when that
    /// lies outside the accepted range.
    pub fn step(bpm: u64, up: bool) -> (t: Option<Tempo>)
        ensures
            t == tempo_of(if up {
                bpm + BPM_STEP
            } else {
                bpm - BPM_STEP
            }),
    {
        if up {
            if bpm > MAX_BPM {
                None
            } else {
                Tempo::from_bpm(bpm + BPM_STEP)
            }
        } else {
            if bpm < BPM_STEP {
                None
            } else {
                Tempo::from_bpm(bpm - BPM_STEP)
            }
        }
    }
}

/// Whether `bpm` is a tempo the settings accept.
pub fn verify_bpm(bpm: u64) -> (ok: bool)
    ensures
        ok == bpm_in_range(bpm as int),
{
    MIN_BPM <= bpm && bpm <= MAX_BPM
}

/// The quarter-note beat interval in milliseconds for a tempo of `bpm`:
/// one minute divided by the tempo, rounded to the nearest millisecond.
pub fn ms_from_bpm(bpm: u64) -> (ms: u64)
    requires
        bpm > 0,
    ensures
        ms == beat_interval(bpm as int),
        ms <= MS_PER_MINUTE,
{
    div_round(MS_PER_MINUTE, bpm)
}

/// The effective time between pulses for a quarter-note interval of
/// `interval_ms`, the note value `note_value` of the time signature and the
/// triplet flag.
pub fn scaled_interval_ms(interval_ms: u64, note_value: u64, triplets: bool) -> (ms: u64)
    requires
        interval_ms <= u64::MAX / 4,
    ensures
        ms == effective_interval(interval_ms as int, note_value as int, triplets),
{
    let scaled: u64 = if note_value == 64 {
        interval_ms / 16
    } else if note_value == 32 {
        interval_ms / 8
    } else if note_value == 16 {
        interval_ms / 4
    } else if note_value == 8 {
        interval_ms / 2
    } else if note_value == 2 {
        interval_ms * 2
    } else if note_value == 1 {
        interval_ms * 4
    } else {
        interval_ms
    };
    if triplets {
        div_round(scaled, 3)
    } else {
        scaled
    }
}

/// The effective time between pulses at `bpm` for the note value
/// `note_value` of the time signature and the triplet flag.
pub fn ms_for_note_value(bpm: u64, note_value: u64, triplets: bool) -> (ms: u64)
    requires
        bpm > 0,
    ensures
        ms == effective_interval(beat_interval(bpm as int), note_value as int, triplets),
{
    scaled_interval_ms(ms_from_bpm(bpm), note_value, triplets)
}

} // verus!
