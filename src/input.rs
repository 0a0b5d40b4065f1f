use crate::tempo::{
    beat_interval, bpm_in_range, lemma_round_div_is_nearest, round_div, tempo_of, Tempo,
    MS_PER_MINUTE,
};
use vstd::prelude::*;

verus! {

/// Whether `c` is an ASCII decimal digit.
pub open spec fn is_decimal_digit(c: char) -> bool {
    '0' <= c <= '9'
}

/// The number written by the decimal digits `s`, most significant first.
pub open spec fn digits_value(s: Seq<char>) -> int
    decreases s.len(),
{
    if s.len() == 0 {
        0
    } else {
        digits_value(s.drop_last()) * 10 + (s.last() as int - '0' as int)
    }
}

/// `s` without its leading `+`, if it has one.
pub open spec fn unsigned_part(s: Seq<char>) -> Seq<char> {
    if s.len() > 0 && s[0] == '+' {
        s.drop_first()
    } else {
        s
    }
}

/// What `s` reads as an unsigned 64-bit decimal: an optional `+` and then
/// one or more digits whose value fits; `None` for anything else, leading or
/// trailing blanks, a sign alone and a `-` included.
pub open spec fn decimal_u64(s: Seq<char>) -> Option<u64> {
    let digits = unsigned_part(s);
    if digits.len() > 0 && (forall|i: int| 0 <= i < digits.len() ==> is_decimal_digit(#[trigger] digits[i]))
        && digits_value(digits) <= u64::MAX {
        Some(digits_value(digits) as u64)
    } else {
        None
    }
}

/// The tempo setting that the typed text `s` gives: its decimal value when
/// that lies in the accepted range, otherwise none.
pub open spec fn tempo_entry(s: Seq<char>) -> Option<Tempo> {
    match decimal_u64(s) {
        Some(v) => tempo_of(v as int),
        None => None,
    }
}

/// Only accepted tempos get through. Whatever the text `s`, a tempo read
/// from it lies in the accepted range and carries the beat interval of that
/// tempo; and a character at `i` other than a decimal digit (or a leading
/// `+`), such as a minus sign, a decimal point, a letter or a blank, means
/// that no tempo is read at all.
pub proof fn lemma_entry_bounds(s: Seq<char>, i: int)
    ensures
        tempo_entry(s) is Some ==> bpm_in_range(tempo_entry(s)->0.bpm as int)
            && tempo_entry(s)->0.ms_delay == beat_interval(tempo_entry(s)->0.bpm as int),
        0 <= i < s.len() && !is_decimal_digit(s[i]) && !(i == 0 && s[i] == '+') ==> tempo_entry(
            s,
        ) is None,
{
    if let Some(v) = decimal_u64(s) {
        if bpm_in_range(v as int) {
            let r = round_div(MS_PER_MINUTE as int, v as int);
            lemma_round_div_is_nearest(MS_PER_MINUTE as int, v as int);
            assert(0 <= r <= MS_PER_MINUTE) by (nonlinear_arith)
                requires
                    v * (2 * r - 1) <= 2 * 60000 < v * (2 * r + 1),
                    v >= 20,
            ;
        }
    }
    if 0 <= i < s.len() && !is_decimal_digit(s[i]) && !(i == 0 && s[i] == '+') {
        if s.len() > 0 && s[0] == '+' {
            assert(unsigned_part(s)[i - 1] == s[i]);
        } else {
            assert(unsigned_part(s)[i] == s[i]);
        }
    }
}

/// Relies on `<u64 as FromStr>::from_str`: it accepts exactly an optional
/// `+` followed by decimal digits whose value fits in a `u64`.
#[verifier::external_body]
pub(crate) fn parse_u64(s: &str) -> (r: Option<u64>)
    ensures
        r == decimal_u64(s@),
{
    s.parse::<u64>().ok()
}

/// Reads a tempo typed by the user. Text that is not a whole unsigned
/// decimal number (a sign, a fraction, letters, blanks, nothing) and numbers
/// outside the accepted range give `None`, so they never reach the settings.
pub fn parse_tempo(s: &str) -> (r: Option<Tempo>)
    ensures
        r == tempo_entry(s@),
{
    match parse_u64(s) {
        Some(v) => Tempo::from_bpm(v),
        None => None,
    }
}

} // verus!
