//! The time model: day-times (`HH:MM:SS`, seconds from the start of a
//! service day, hours may exceed 23), and the service-day placement of a
//! live arrival's epoch timestamp.

use vstd::prelude::*;

use crate::numbers::{is_digit, lemma_pad2_wf, pad2, pad2_string, parse_u64, parse_u64_spec};
use crate::util::{find_index, lemma_find_index, lemma_find_index_of};

verus! {

/// What parsing `HH:MM:SS` yields: the text split at its first two `:`
/// into three unsigned decimal numerals, read as hours, minutes and
/// seconds. Hours may exceed 23. Anything else — fewer than two `:`,
/// a component that is not a numeral, or a value past `u64::MAX` —
/// parses to nothing.
pub open spec fn parse_day_time_spec(s: Seq<char>) -> Option<u64> {
    match find_index(s, |c: char| c == ':') {
        None => None,
        Some(i) => {
            let rest = s.skip(i + 1);
            match find_index(rest, |c: char| c == ':') {
                None => None,
                Some(j) => {
                    let h = parse_u64_spec(s.take(i));
                    let m = parse_u64_spec(rest.take(j));
                    let sec = parse_u64_spec(rest.skip(j + 1));
                    match (h, m, sec) {
                        (Some(hv), Some(mv), Some(sv)) => {
                            if hv * 3600 + mv * 60 + sv <= u64::MAX {
                                Some((hv * 3600 + mv * 60 + sv) as u64)
                            } else {
                                None
                            }
                        },
                        _ => None,
                    }
                },
            }
        },
    }
}

/// The `HH:MM:SS` form of a day-time: each field zero-padded to two
/// digits, hours growing beyond two digits as needed.
pub open spec fn format_day_time(s: int) -> Seq<char> {
    let seconds = s % 60;
    let total_minutes = s / 60;
    let minutes = total_minutes % 60;
    let hours = total_minutes / 60;
    pad2(hours) + seq![':'] + pad2(minutes) + seq![':'] + pad2(seconds)
}

/// Index of the first `:` at or after `from`, relative to `find_index`
/// on the suffix.
fn find_colon(s: &str, from: usize) -> (r: Option<usize>)
    requires
        from <= s@.len(),
    ensures
        match r {
            Some(i) => from <= i < s@.len() && find_index(
                s@.skip(from as int),
                |c: char| c == ':',
            ) == Some(i - from),
            None => find_index(s@.skip(from as int), |c: char| c == ':') is None,
        },
{
    let ghost p = |c: char| c == ':';
    let ghost suffix = s@.skip(from as int);
    let n = s.unicode_len();
    let mut i: usize = from;
    while i < n
        invariant
            from <= i <= n,
            n == s@.len(),
            suffix == s@.skip(from as int),
            p == (|c: char| c == ':'),
            forall|j: int| from <= j < i ==> s@[j] != ':',
        decreases n - i,
    {
        let c = s.get_char(i);
        if c == ':' {
            proof {
                assert(p(suffix[i - from]));
                assert forall|j: int| 0 <= j < i - from implies !p(#[trigger] suffix[j]) by {
                    assert(suffix[j] == s@[from + j]);
                }
                lemma_find_index_of(suffix, p, i - from);
            }
            return Some(i);
        }
        i = i + 1;
    }
    proof {
        lemma_find_index(suffix, p);
        match find_index(suffix, p) {
            Some(k) => {
                assert(suffix[k] == s@[from + k]);
                assert(false);
            },
            None => {},
        }
    }
    None
}

/// Parse a day-time, carrying the raw text alongside the value.
pub fn parse_day_time(s: &str) -> (r: Option<(String, u64)>)
    ensures
        match r {
            Some(p) => p.0@ == s@ && parse_day_time_spec(s@) == Some(p.1),
            None => parse_day_time_spec(s@) is None,
        },
{
    let n = s.unicode_len();
    let i = match find_colon(s, 0) {
        Some(i) => i,
        None => {
            proof {
                assert(s@.skip(0) =~= s@);
            }
            return None;
        },
    };
    proof {
        assert(s@.skip(0) =~= s@);
    }
    let ghost rest = s@.skip(i + 1);
    let j = match find_colon(s, i + 1) {
        Some(j) => j,
        None => {
            return None;
        },
    };
    let hs = s.substring_char(0, i);
    let ms = s.substring_char(i + 1, j);
    let ss = s.substring_char(j + 1, n);
    proof {
        assert(hs@ =~= s@.take(i as int));
        assert(ms@ =~= rest.take(j - (i + 1)));
        assert(ss@ =~= rest.skip(j - i));
    }
    let hv = match parse_u64(hs) {
        Some(v) => v,
        None => {
            return None;
        },
    };
    let mv = match parse_u64(ms) {
        Some(v) => v,
        None => {
            return None;
        },
    };
    let sv = match parse_u64(ss) {
        Some(v) => v,
        None => {
            return None;
        },
    };
    let hsecs = match hv.checked_mul(3600) {
        Some(v) => v,
        None => {
            return None;
        },
    };
    let msecs = match mv.checked_mul(60) {
        Some(v) => v,
        None => {
            return None;
        },
    };
    let total = match hsecs.checked_add(msecs) {
        Some(v) => match v.checked_add(sv) {
            Some(t) => t,
            None => {
                return None;
            },
        },
        None => {
            return None;
        },
    };
    Some((String::from_str(s), total))
}

/// Format a day-time as `HH:MM:SS` (the inverse of parsing, for all
/// values).
pub fn day_time_serializer(total_seconds: u64) -> (r: String)
    ensures
        r@ == format_day_time(total_seconds as int),
{
    let seconds = total_seconds % 60;
    let total_minutes = total_seconds / 60;
    let minutes = total_minutes % 60;
    let hours = total_minutes / 60;
    proof {
        reveal_strlit(":");
    }
    let r = pad2_string(hours).concat(":").concat(pad2_string(minutes).as_str()).concat(
        ":",
    ).concat(pad2_string(seconds).as_str());
    proof {
        assert(r@ =~= format_day_time(total_seconds as int));
    }
    r
}

/// Day-time round-trip: formatting any day-time value and parsing the
/// result yields the value again.
pub proof fn lemma_day_time_round_trip(s: u64)
    ensures
        parse_day_time_spec(format_day_time(s as int)) == Some(s),
{
    let si = s as int;
    let sec = si % 60;
    let tm = si / 60;
    let m = tm % 60;
    let h = tm / 60;
    vstd::arithmetic::div_mod::lemma_fundamental_div_mod(si, 60);
    vstd::arithmetic::div_mod::lemma_fundamental_div_mod(tm, 60);
    vstd::arithmetic::div_mod::lemma_mod_division_less_than_divisor(si, 60);
    vstd::arithmetic::div_mod::lemma_mod_division_less_than_divisor(tm, 60);
    vstd::arithmetic::div_mod::lemma_div_pos_is_pos(si, 60);
    vstd::arithmetic::div_mod::lemma_div_pos_is_pos(tm, 60);
    vstd::arithmetic::div_mod::lemma_div_nonincreasing(si, 60);
    vstd::arithmetic::div_mod::lemma_div_nonincreasing(tm, 60);
    lemma_pad2_wf(h);
    lemma_pad2_wf(m);
    lemma_pad2_wf(sec);
    let f = format_day_time(si);
    let p = |c: char| c == ':';
    let a = pad2(h).len() as int;
    assert(f[a] == ':');
    assert forall|j: int| 0 <= j < a implies !p(#[trigger] f[j]) by {
        assert(f[j] == pad2(h)[j]);
        assert(is_digit(pad2(h)[j]));
    }
    lemma_find_index_of(f, p, a);
    let rest = f.skip(a + 1);
    assert(rest =~= pad2(m) + seq![':'] + pad2(sec));
    let b = pad2(m).len() as int;
    assert(rest[b] == ':');
    assert forall|j: int| 0 <= j < b implies !p(#[trigger] rest[j]) by {
        assert(rest[j] == pad2(m)[j]);
        assert(is_digit(pad2(m)[j]));
    }
    lemma_find_index_of(rest, p, b);
    assert(f.take(a) =~= pad2(h));
    assert(rest.take(b) =~= pad2(m));
    assert(rest.skip(b + 1) =~= pad2(sec));
    assert(h * 3600 + m * 60 + sec == si);
}

/// Seconds-from-midnight of a civil time, adjusted to the service day:
/// an event before 04:00 belongs to the previous service day, whose
/// stop-times run past 86400.
pub fn service_day_seconds(secs_from_midnight: u32) -> (r: u64)
    requires
        secs_from_midnight < 86400,
    ensures
        r == service_day_spec(secs_from_midnight),
        r < 172800,
{
    if secs_from_midnight < 4 * 3600 {
        secs_from_midnight as u64 + 86400
    } else {
        secs_from_midnight as u64
    }
}

pub open spec fn service_day_spec(c: u32) -> u64 {
    if c < 14400 {
        (c + 86400) as u64
    } else {
        c as u64
    }
}

/// The civil second-of-day in New York of an epoch timestamp; nothing
/// for timestamps outside chrono's range.
pub uninterp spec fn ny_civil_seconds(epoch: int) -> Option<u32>;

/// Relies on chrono's `TimeZone::timestamp_opt` (out-of-range seconds
/// give `None`, otherwise a single UTC date-time), `with_timezone` with
/// chrono-tz's `America::New_York`, and `Timelike::num_seconds_from_midnight`,
/// documented to lie in 0..86400. The result is a function of the
/// timestamp alone.
#[verifier::external_body]
fn civil_seconds_new_york(epoch: i64) -> (r: Option<u32>)
    ensures
        r == ny_civil_seconds(epoch as int),
        match r {
            Some(c) => c < 86400,
            None => true,
        },
{
    match chrono::TimeZone::timestamp_opt(&chrono::Utc, epoch, 0).single() {
        Some(date) => Some(
            chrono::Timelike::num_seconds_from_midnight(
                &date.with_timezone(&chrono_tz::America::New_York),
            ),
        ),
        None => None,
    }
}

/// Service-day seconds of a live arrival's epoch timestamp.
pub open spec fn arrival_seconds_spec(ts: i64) -> Option<u64> {
    match ny_civil_seconds(ts as int) {
        Some(c) => Some(service_day_spec(c)),
        None => None,
    }
}

/// Service-day seconds of a live arrival's epoch timestamp: the New York
/// civil second-of-day, rolled into the previous service day before
/// 04:00. Nothing for timestamps out of the calendar's range.
pub fn arrival_service_seconds(timestamp: i64) -> (r: Option<u64>)
    ensures
        r == arrival_seconds_spec(timestamp),
        r matches Some(v) ==> v < 172800,
{
    match civil_seconds_new_york(timestamp) {
        Some(c) => Some(service_day_seconds(c)),
        None => None,
    }
}

/// The epoch second of an RFC 3339 date-time, cast to the unsigned form
/// the feed carries; nothing when the text does not parse.
pub uninterp spec fn rfc3339_epoch(s: Seq<char>) -> Option<u64>;

/// Relies on chrono's `DateTime::parse_from_rfc3339` and
/// `DateTime::timestamp`: the epoch second of an RFC 3339 date-time,
/// a function of the text alone.
#[verifier::external_body]
pub(crate) fn parse_rfc3339_epoch(s: &str) -> (r: Option<u64>)
    ensures
        r == rfc3339_epoch(s@),
{
    match chrono::DateTime::parse_from_rfc3339(s) {
        Ok(d) => Some(d.timestamp() as u64),
        Err(_) => None,
    }
}

} // verus!
