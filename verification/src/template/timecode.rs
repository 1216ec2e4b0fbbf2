//! Timecode and duration syntax shared by the templates.
use vstd::prelude::*;

use crate::text::{
    all_digits, all_digits_exec, chars_of, is_alpha, is_digit, is_digit_exec, owned, seq_lower, slice_vec,
    str_eq, to_lower,
};

verus! {

/// `HH:MM:SS:FF`: four two-digit fields.
pub open spec fn is_ff_form(s: Seq<char>) -> bool {
    &&& s.len() == 11
    &&& s[2] == ':' && s[5] == ':' && s[8] == ':'
    &&& is_digit(s[0]) && is_digit(s[1]) && is_digit(s[3]) && is_digit(s[4])
    &&& is_digit(s[6]) && is_digit(s[7]) && is_digit(s[9]) && is_digit(s[10])
}

/// `HH:MM:SS:FF` optionally followed by `df` (drop frame).
pub open spec fn is_ff_timecode(s: Seq<char>) -> bool {
    if s.len() >= 2 && s[s.len() - 2] == 'd' && s[s.len() - 1] == 'f' {
        is_ff_form(s.take(s.len() - 2))
    } else {
        is_ff_form(s)
    }
}

/// `HH:MM:SS.x…`: two-digit hours, minutes and seconds, then a non-empty
/// run of fraction digits.
pub open spec fn is_decimal_timecode(s: Seq<char>) -> bool {
    &&& s.len() >= 10
    &&& s[2] == ':' && s[5] == ':' && s[8] == '.'
    &&& is_digit(s[0]) && is_digit(s[1]) && is_digit(s[3]) && is_digit(s[4])
    &&& is_digit(s[6]) && is_digit(s[7])
    &&& all_digits(s.skip(9))
}

/// A timecode in either documented notation.
pub open spec fn is_timecode(s: Seq<char>) -> bool {
    is_ff_timecode(s) || is_decimal_timecode(s)
}

/// Seconds, optionally with a non-empty decimal fraction: `12` or `0.005333`.
pub open spec fn is_decimal_duration(s: Seq<char>) -> bool {
    (s.len() > 0 && all_digits(s)) || exists|k: int|
        0 < k < s.len() - 1 && s[k] == '.' && all_digits(#[trigger] s.take(k)) && all_digits(
            s.skip(k + 1),
        )
}

/// A frame count: digits followed by `f`.
pub open spec fn is_frame_duration(s: Seq<char>) -> bool {
    s.len() >= 2 && s.last() == 'f' && all_digits(s.drop_last())
}

fn is_ff_form_exec(s: &Vec<char>) -> (r: bool)
    ensures
        r == is_ff_form(s@),
{
    s.len() == 11 && s[2] == ':' && s[5] == ':' && s[8] == ':' && is_digit_exec(s[0])
        && is_digit_exec(s[1]) && is_digit_exec(s[3]) && is_digit_exec(s[4]) && is_digit_exec(s[6])
        && is_digit_exec(s[7]) && is_digit_exec(s[9]) && is_digit_exec(s[10])
}

/// Whether the text is an `HH:MM:SS:FF[df]` timecode.
pub fn parse_hh_mm_ss_ff(value: &str) -> (r: bool)
    ensures
        r == is_ff_timecode(value@),
{
    let s = chars_of(value);
    if s.len() >= 2 && s[s.len() - 2] == 'd' && s[s.len() - 1] == 'f' {
        let core = slice_vec(&s, 0, s.len() - 2);
        is_ff_form_exec(&core)
    } else {
        is_ff_form_exec(&s)
    }
}

/// Whether the text is an `HH:MM:SS.xx` timecode.
pub fn parse_hh_mm_ss_decimal(value: &str) -> (r: bool)
    ensures
        r == is_decimal_timecode(value@),
{
    let s = chars_of(value);
    if !(s.len() >= 10 && s[2] == ':' && s[5] == ':' && s[8] == '.' && is_digit_exec(s[0])
        && is_digit_exec(s[1]) && is_digit_exec(s[3]) && is_digit_exec(s[4]) && is_digit_exec(s[6])
        && is_digit_exec(s[7])) {
        return false;
    }
    let frac = slice_vec(&s, 9, s.len());
    assert(frac@ == s@.skip(9));
    all_digits_exec(&frac)
}

/// Whether the text is a timecode in either documented notation.
pub fn is_valid_timecode(value: &str) -> (r: bool)
    ensures
        r == is_timecode(value@),
{
    parse_hh_mm_ss_ff(value) || parse_hh_mm_ss_decimal(value)
}

/// Whether the text is a decimal duration in seconds.
pub fn is_valid_decimal_duration(value: &str) -> (r: bool)
    ensures
        r == is_decimal_duration(value@),
{
    let s = chars_of(value);
    let mut k: usize = 0;
    while k < s.len() && s[k] != '.'
        invariant
            k <= s.len(),
            forall|j: int| 0 <= j < k ==> s@[j] != '.',
        decreases s.len() - k,
    {
        k += 1;
    }
    if k == s.len() {
        let r = s.len() > 0 && all_digits_exec(&s);
        proof {
            if !r && s.len() > 0 {
                assert forall|k2: int|
                    0 < k2 < s@.len() - 1 && s@[k2] == '.' implies !(all_digits(
                    #[trigger] s@.take(k2),
                ) && all_digits(s@.skip(k2 + 1))) by {
                    assert(s@[k2] != '.');
                }
            }
        }
        return r;
    }
    let head = slice_vec(&s, 0, k);
    let tail = slice_vec(&s, k + 1, s.len());
    assert(head@ == s@.take(k as int));
    assert(tail@ == s@.skip(k + 1));
    let r = k > 0 && tail.len() > 0 && all_digits_exec(&head) && all_digits_exec(&tail);
    proof {
        if r {
            assert(0 < k < s@.len() - 1 && s@[k as int] == '.' && all_digits(s@.take(k as int))
                && all_digits(s@.skip(k + 1)));
        } else {
            assert(!all_digits(s@)) by {
                assert(!is_digit(s@[k as int]));
            }
            assert forall|k2: int|
                0 < k2 < s@.len() - 1 && s@[k2] == '.' implies !(all_digits(
                #[trigger] s@.take(k2),
            ) && all_digits(s@.skip(k2 + 1))) by {
                if k2 < k {
                    assert(s@[k2] != '.');
                } else if k2 > k {
                    assert(s@.take(k2)[k as int] == '.');
                } else {
                    assert(s@.take(k2) == head@);
                }
            }
        }
    }
    r
}

/// Whether the text is a frame count such as `12f`.
pub fn is_valid_frame_duration(value: &str) -> (r: bool)
    ensures
        r == is_frame_duration(value@),
{
    let s = chars_of(value);
    if s.len() < 2 || s[s.len() - 1] != 'f' {
        return false;
    }
    let head = slice_vec(&s, 0, s.len() - 1);
    assert(head@ == s@.drop_last());
    all_digits_exec(&head)
}

/// The special value that a boundary key accepts besides timecodes.
pub open spec fn boundary_special(key: Seq<char>) -> Option<Seq<char>> {
    if key == "start"@ {
        Some("first_frame_of_action"@)
    } else if key == "end"@ {
        Some("end_of_file"@)
    } else {
        None
    }
}

/// Outcome of validating a start/end boundary value.
pub open spec fn boundary_outcome(key: Seq<char>, value: Seq<char>) -> Result<Seq<char>, Seq<char>> {
    match boundary_special(key) {
        None => Err("unsupported boundary timecode key '"@ + key + "'"@),
        Some(special) => if value == special || is_timecode(value) {
            Ok(value)
        } else {
            Err("invalid value '"@ + value + "' for "@ + key + "; expected "@ + special
                + ", HH:MM:SS:FF[df], or HH:MM:SS.xx"@)
        },
    }
}

pub open spec fn string_result(r: Result<String, String>) -> Result<Seq<char>, Seq<char>> {
    match r {
        Ok(s) => Ok(s@),
        Err(e) => Err(e@),
    }
}

/// Validates a `start`/`end` value: its special word or a timecode.
pub fn validate_boundary_timecode(key: &str, value: &str) -> (r: Result<String, String>)
    ensures
        string_result(r) == boundary_outcome(key@, value@),
{
    let special: &str;
    if crate::text::str_eq(key, "start") {
        special = "first_frame_of_action";
    } else if crate::text::str_eq(key, "end") {
        special = "end_of_file";
    } else {
        let mut e = owned("unsupported boundary timecode key '");
        e.append(key);
        e.append("'");
        return Err(e);
    }
    if crate::text::str_eq(value, special) || is_valid_timecode(value) {
        Ok(owned(value))
    } else {
        let mut e = owned("invalid value '");
        e.append(value);
        e.append("' for ");
        e.append(key);
        e.append("; expected ");
        e.append(special);
        e.append(", HH:MM:SS:FF[df], or HH:MM:SS.xx");
        Err(e)
    }
}

/// Outcome of validating an Atmos silence duration: seconds, or a frame
/// count when a timecode frame rate or embedded timecodes give frames a
/// meaning.
pub open spec fn atmos_silence_outcome(
    key: Seq<char>,
    value: Seq<char>,
    timecode_frame_rate: Seq<char>,
    time_base: Seq<char>,
) -> Result<Seq<char>, Seq<char>> {
    if is_decimal_duration(value) {
        Ok(value)
    } else if is_frame_duration(value) {
        if timecode_frame_rate != "not_indicated"@ || time_base == "embedded_timecode"@ {
            Ok(value)
        } else {
            Err("invalid value '"@ + value + "' for "@ + key
                + "; frame syntax requires timecode_frame_rate or time_base=embedded_timecode"@)
        }
    } else {
        Err("invalid value '"@ + value + "' for "@ + key + "; expected seconds.milliseconds or xf"@)
    }
}

/// Validates an Atmos silence duration.
pub fn validate_atmos_silence_duration(
    key: &str,
    value: &str,
    timecode_frame_rate: &str,
    time_base: &str,
) -> (r: Result<String, String>)
    ensures
        string_result(r) == atmos_silence_outcome(key@, value@, timecode_frame_rate@, time_base@),
{
    if is_valid_decimal_duration(value) {
        return Ok(owned(value));
    }
    if is_valid_frame_duration(value) {
        if !crate::text::str_eq(timecode_frame_rate, "not_indicated") || crate::text::str_eq(
            time_base,
            "embedded_timecode",
        ) {
            return Ok(owned(value));
        }
        let mut e = owned("invalid value '");
        e.append(value);
        e.append("' for ");
        e.append(key);
        e.append("; frame syntax requires timecode_frame_rate or time_base=embedded_timecode");
        return Err(e);
    }
    let mut e = owned("invalid value '");
    e.append(value);
    e.append("' for ");
    e.append(key);
    e.append("; expected seconds.milliseconds or xf");
    Err(e)
}

/// Outcome of validating a TrueHD silence duration: seconds only.
pub open spec fn thd_silence_outcome(key: Seq<char>, value: Seq<char>) -> Result<
    Seq<char>,
    Seq<char>,
> {
    if is_decimal_duration(value) {
        Ok(value)
    } else {
        Err("invalid value '"@ + value + "' for "@ + key + "; expected seconds.milliseconds"@)
    }
}

/// Validates a TrueHD silence duration.
pub fn validate_thd_silence_duration(key: &str, value: &str) -> (r: Result<String, String>)
    ensures
        string_result(r) == thd_silence_outcome(key@, value@),
{
    if is_valid_decimal_duration(value) {
        Ok(owned(value))
    } else {
        let mut e = owned("invalid value '");
        e.append(value);
        e.append("' for ");
        e.append(key);
        e.append("; expected seconds.milliseconds");
        Err(e)
    }
}

/// Outcome of validating a TrueHD embedded starting timecode.
pub open spec fn thd_starting_outcome(value: Seq<char>) -> Result<Seq<char>, Seq<char>> {
    if value == "off"@ || value == "auto"@ || is_timecode(value) {
        Ok(value)
    } else {
        Err("invalid starting_timecode '"@ + value
            + "': expected off, auto, HH:MM:SS:FF[df], or HH:MM:SS.xx"@)
    }
}

/// Validates a TrueHD embedded starting timecode.
pub fn validate_thd_starting_timecode(value: &str) -> (r: Result<String, String>)
    ensures
        string_result(r) == thd_starting_outcome(value@),
{
    if crate::text::str_eq(value, "off") || crate::text::str_eq(value, "auto")
        || is_valid_timecode(value) {
        Ok(owned(value))
    } else {
        let mut e = owned("invalid starting_timecode '");
        e.append(value);
        e.append("': expected off, auto, HH:MM:SS:FF[df], or HH:MM:SS.xx");
        Err(e)
    }
}

/// Outcome of validating an input timecode (`offset`, `ffoa`).
pub open spec fn input_tc_outcome(key: Seq<char>, value: Seq<char>) -> Result<Seq<char>, Seq<char>> {
    if value == "auto"@ || is_timecode(value) {
        Ok(value)
    } else {
        Err("invalid value '"@ + value + "' for "@ + key
            + "; expected 'auto', HH:MM:SS:FF, HH:MM:SS:FFdf, or HH:MM:SS.xx"@)
    }
}

/// Validates an input timecode.
pub fn validate_input_timecode(key: &str, value: &str) -> (r: Result<String, String>)
    ensures
        string_result(r) == input_tc_outcome(key@, value@),
{
    if str_eq(value, "auto") || is_valid_timecode(value) {
        return Ok(owned(value));
    }
    let mut e = owned("invalid value '");
    e.append(value);
    e.append("' for ");
    e.append(key);
    e.append("; expected 'auto', HH:MM:SS:FF, HH:MM:SS:FFdf, or HH:MM:SS.xx");
    Err(e)
}

/// Language tags that name no language.
pub open spec fn reserved_languages() -> Seq<Seq<char>> {
    seq!["mis"@, "mul"@, "und"@, "zxx"@, "qaa"@]
}

/// An ASCII letter, digit or hyphen.
pub open spec fn is_tag_char(c: char) -> bool {
    is_alpha(c) || is_digit(c) || c == '-'
}

/// Outcome of validating a language tag: empty, or not reserved and made of
/// tag characters.
pub open spec fn language_outcome(value: Seq<char>) -> Result<Seq<char>, Seq<char>> {
    if value.len() == 0 {
        Ok(Seq::empty())
    } else if reserved_languages().contains(seq_lower(value)) {
        Err("invalid value '"@ + value + "' for language; reserved language tags are not allowed"@)
    } else if forall|i: int| 0 <= i < value.len() ==> is_tag_char(#[trigger] value[i]) {
        Ok(value)
    } else {
        Err("invalid value '"@ + value + "' for language; expected BCP-47 style alphanumeric tag"@)
    }
}

/// Validates a language tag.
pub fn validate_language_tag(value: &str) -> (r: Result<String, String>)
    ensures
        string_result(r) == language_outcome(value@),
{
    let cs = chars_of(value);
    if cs.len() == 0 {
        return Ok(String::new());
    }
    let lowered = to_lower(value);
    let reserved = vec!["mis", "mul", "und", "zxx", "qaa"];
    assert(reserved@.map_values(|w: &str| w@) =~= reserved_languages());
    if crate::text::contains_str(&reserved, lowered.as_str()) {
        let mut e = owned("invalid value '");
        e.append(value);
        e.append("' for language; reserved language tags are not allowed");
        return Err(e);
    }
    let mut i: usize = 0;
    while i < cs.len()
        invariant
            i <= cs.len(),
            cs@ == value@,
            value@.len() > 0,
            !reserved_languages().contains(seq_lower(value@)),
            forall|j: int| 0 <= j < i ==> is_tag_char(#[trigger] cs@[j]),
        decreases cs.len() - i,
    {
        let c = cs[i];
        if !(crate::text::is_alpha_exec(c) || is_digit_exec(c) || c == '-') {
            assert(!is_tag_char(value@[i as int]));
            let mut e = owned("invalid value '");
            e.append(value);
            e.append("' for language; expected BCP-47 style alphanumeric tag");
            return Err(e);
        }
        i += 1;
    }
    Ok(owned(value))
}

} // verus!
