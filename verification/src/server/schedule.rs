//! When an event is scheduled for: Unix seconds, or an ISO-8601 date and
//! time with an optional UTC offset.

use vstd::prelude::*;

use crate::parse::{
    all_digits, digits_value, end_non_ws, field, field_of, find_char, find_char_from, first_non_ws, is_digit, parse_i64,
    parse_i64_chars, parse_unsigned, parse_unsigned_chars, slice_chars, trim_chars, trimmed, white_space,
};
use crate::text::{chars_of, decimal, digit_char};

verus! {

/// The first index from `i` on holding `Z`, `+` or `-`, or -1: where the
/// zone of a clock time starts.
pub open spec fn find_zone(s: Seq<char>, i: int) -> int
    decreases s.len() - i,
{
    if i < 0 || i >= s.len() {
        -1
    } else if s[i] == 'Z' || s[i] == '+' || s[i] == '-' {
        i
    } else {
        find_zone(s, i + 1)
    }
}

/// The first index from `i` on that is not a sign, or the length.
pub open spec fn first_non_sign(s: Seq<char>, i: int) -> int
    decreases s.len() - i,
{
    if i < 0 || i >= s.len() {
        s.len() as int
    } else if s[i] == '+' || s[i] == '-' {
        first_non_sign(s, i + 1)
    } else {
        i
    }
}

/// The date and the clock of `v`, split at the first `T`, or else at the
/// first space.
pub open spec fn date_and_clock(v: Seq<char>) -> Option<(Seq<char>, Seq<char>)> {
    let t = find_char(v, 'T', 0);
    let b = find_char(v, ' ', 0);
    if t != -1 {
        Some((v.subrange(0, t), v.subrange(t + 1, v.len() as int)))
    } else if b != -1 {
        Some((v.subrange(0, b), v.subrange(b + 1, v.len() as int)))
    } else {
        None
    }
}

/// A field read as an `i64`.
pub open spec fn field_i64(f: Option<Seq<char>>) -> Option<int> {
    match f {
        Some(x) => parse_i64(x),
        None => None,
    }
}

/// The offset a zone stands for, in seconds east of UTC: 0 for `Z`, else
/// the signed hours and optional minutes after the sign characters.
pub open spec fn zone_offset(zone: Seq<char>) -> Option<int> {
    if zone == "Z"@ || zone.len() == 0 {
        Some(0)
    } else {
        let sign: int = if zone[0] == '-' {
            -1
        } else {
            1
        };
        let offset = zone.subrange(first_non_sign(zone, 0), zone.len() as int);
        match field_i64(field(offset, ':', 0)) {
            None => None,
            Some(h) => match (match field(offset, ':', 1) {
                Some(x) => parse_i64(x),
                None => Some(0),
            }) {
                None => None,
                Some(m) => Some(sign * (h * 3600 + m * 60)),
            },
        }
    }
}

/// Days from 1970-01-01 to a date of the proleptic Gregorian calendar.
pub open spec fn days_from_civil(y: int, m: int, d: int) -> int {
    let ay = y - if m <= 2 {
        1int
    } else {
        0
    };
    let era = ay / 400;
    let yoe = ay - era * 400;
    let mp = m + if m > 2 {
        -3int
    } else {
        9
    };
    let doy = (153 * mp + 2) / 5 + d - 1;
    let doe = yoe * 365 + yoe / 4 - yoe / 100 + doy;
    era * 146097 + doe - 719468
}

/// The clock fields before the zone: hour, minute, and the whole seconds.
pub open spec fn clock_fields(c: Seq<char>) -> (Option<int>, Option<int>, Option<int>) {
    (
        field_i64(field(c, ':', 0)),
        field_i64(field(c, ':', 1)),
        match field(c, ':', 2) {
            Some(x) => field_i64(field(x, '.', 0)),
            None => None,
        },
    )
}

/// Seconds since the epoch of a `date` and a `clock` with optional zone;
/// `None` when a field is missing, not a number, or out of range.
pub open spec fn date_time_seconds(date: Seq<char>, clock: Seq<char>) -> Option<int> {
    let z = find_zone(clock, 0);
    let c = if z != -1 {
        clock.subrange(0, z)
    } else {
        clock
    };
    let zone = if z != -1 {
        clock.subrange(z, clock.len() as int)
    } else {
        "Z"@
    };
    match (field_i64(field(date, '-', 0)), field_i64(field(date, '-', 1)), field_i64(field(date, '-', 2))) {
        (Some(y), Some(mo), Some(d)) => {
            if !(1 <= mo <= 12) || !(1 <= d <= 31) {
                None
            } else {
                match clock_fields(c) {
                    (Some(h), Some(mi), Some(s)) => {
                        if h > 23 || mi > 59 || s > 59 {
                            None
                        } else {
                            match zone_offset(zone) {
                                None => None,
                                Some(off) => Some(days_from_civil(y, mo, d) * 86400 + h * 3600 + mi * 60 + s - off),
                            }
                        }
                    },
                    _ => None,
                }
            }
        },
        _ => None,
    }
}

/// The Unix time a schedule stands for. After trimming whitespace it is
/// either a plain `u64`, or a date and time; a time before the epoch, or
/// past what an `i64` holds, is none.
pub open spec fn scheduled_seconds(value: Seq<char>) -> Option<int> {
    let v = trimmed(value);
    match parse_unsigned(v, u64::MAX as int) {
        Some(e) => Some(e),
        None => match date_and_clock(v) {
            None => None,
            Some((date, clock)) => match date_time_seconds(date, clock) {
                Some(t) => if 0 <= t <= i64::MAX {
                    Some(t)
                } else {
                    None
                },
                None => None,
            },
        },
    }
}

fn find_zone_from(s: &Vec<char>) -> (r: Option<usize>)
    ensures
        match r {
            Some(k) => k < s@.len() && find_zone(s@, 0) == k,
            None => find_zone(s@, 0) == -1,
        },
{
    let n = s.len();
    let mut i: usize = 0;
    while i < n
        invariant
            i <= n == s@.len(),
            find_zone(s@, 0) == find_zone(s@, i as int),
        decreases n - i,
    {
        if s[i] == 'Z' || s[i] == '+' || s[i] == '-' {
            return Some(i);
        }
        i = i + 1;
    }
    None
}

fn skip_signs(s: &Vec<char>) -> (r: usize)
    ensures
        r == first_non_sign(s@, 0),
        r <= s@.len(),
{
    let n = s.len();
    let mut i: usize = 0;
    while i < n && (s[i] == '+' || s[i] == '-')
        invariant
            i <= n == s@.len(),
            first_non_sign(s@, 0) == first_non_sign(s@, i as int),
        decreases n - i,
    {
        i = i + 1;
    }
    i
}

fn field_as_i64(s: &Vec<char>, sep: char, n: usize) -> (r: Option<i64>)
    ensures
        match r {
            Some(v) => field_i64(field(s@, sep, n as nat)) == Some(v as int),
            None => field_i64(field(s@, sep, n as nat)).is_none(),
        },
{
    match field_of(s, sep, n) {
        Some(f) => parse_i64_chars(&f),
        None => None,
    }
}

fn zone_offset_of(zone: &Vec<char>) -> (r: Option<i128>)
    ensures
        match r {
            Some(v) => zone_offset(zone@) == Some(v as int) && -1208925819614629174706176 <= v
                <= 1208925819614629174706176,
            None => zone_offset(zone@).is_none(),
        },
{
    let n = zone.len();
    if n == 0 || (n == 1 && zone[0] == 'Z') {
        proof {
            reveal_strlit("Z");
            if zone@.len() == 1 {
                assert(zone@ =~= "Z"@);
            }
        }
        return Some(0);
    }
    proof {
        reveal_strlit("Z");
        assert(zone@ != "Z"@);
    }
    let sign: i128 = if zone[0] == '-' {
        -1
    } else {
        1
    };
    let start = skip_signs(zone);
    let offset = slice_chars(zone, start, n);
    let h = match field_as_i64(&offset, ':', 0) {
        Some(h) => h,
        None => {
            return None;
        },
    };
    let m: i64 = match field_of(&offset, ':', 1) {
        Some(f) => match parse_i64_chars(&f) {
            Some(m) => m,
            None => {
                return None;
            },
        },
        None => 0,
    };
    let hh = h as i128;
    let mm = m as i128;
    assert(-9223372036854775808 <= hh <= 9223372036854775807);
    assert(-9223372036854775808 <= mm <= 9223372036854775807);
    let total = hh * 3600 + mm * 60;
    Some(sign * total)
}

fn days_from_civil_of(y: i64, m: i64, d: i64) -> (r: i128)
    requires
        1 <= m <= 12,
        1 <= d <= 31,
    ensures
        r == days_from_civil(y as int, m as int, d as int),
        -1208925819614629174706176 <= r <= 1208925819614629174706176,
{
    let ay: i128 = (y as i128) - if m <= 2 {
        1
    } else {
        0
    };
    let era: i128 = if ay >= 0 {
        ((ay as u128) / 400) as i128
    } else {
        let up = ((((-ay) + 399) as u128) / 400) as i128;
        assert(-up == ay / 400);
        -up
    };
    assert(era == ay / 400);
    let yoe: i128 = ay - era * 400;
    assert(0 <= yoe < 400);
    let mp: i128 = (m as i128) + if m > 2 {
        -3
    } else {
        9
    };
    let doy: i128 = ((153 * mp + 2) as u128 / 5) as i128 + (d as i128) - 1;
    let doe: i128 = yoe * 365 + ((yoe as u128) / 4) as i128 - ((yoe as u128) / 100) as i128 + doy;
    era * 146097 + doe - 719468
}

/// The Unix time an event is scheduled for, as `scheduled_seconds` reads it.
pub fn scheduled_epoch(value: &str) -> (r: Option<u64>)
    ensures
        match r {
            Some(t) => scheduled_seconds(value@) == Some(t as int),
            None => scheduled_seconds(value@).is_none(),
        },
{
    let all = chars_of(value);
    let v = trim_chars(&all);
    if let Some(e) = parse_unsigned_chars(&v, u64::MAX) {
        return Some(e);
    }
    let len = v.len();
    let split = match find_char_from(&v, 'T', 0) {
        Some(t) => Some(t),
        None => find_char_from(&v, ' ', 0),
    };
    let k = match split {
        Some(k) => k,
        None => {
            return None;
        },
    };
    let date = slice_chars(&v, 0, k);
    let clock = slice_chars(&v, k + 1, len);
    let ghost clock_v = clock@;
    let y = match field_as_i64(&date, '-', 0) {
        Some(x) => x,
        None => {
            return None;
        },
    };
    let mo = match field_as_i64(&date, '-', 1) {
        Some(x) => x,
        None => {
            return None;
        },
    };
    let d = match field_as_i64(&date, '-', 2) {
        Some(x) => x,
        None => {
            return None;
        },
    };
    if !(1 <= mo && mo <= 12) || !(1 <= d && d <= 31) {
        return None;
    }
    let clen = clock.len();
    let (c, zone) = match find_zone_from(&clock) {
        Some(z) => (slice_chars(&clock, 0, z), slice_chars(&clock, z, clen)),
        None => {
            let mut zz: Vec<char> = Vec::new();
            zz.push('Z');
            proof {
                reveal_strlit("Z");
                assert(zz@ =~= "Z"@);
            }
            (slice_chars(&clock, 0, clen), zz)
        },
    };
    proof {
        assert(clock@.subrange(0, clock@.len() as int) =~= clock@);
    }
    let h = match field_as_i64(&c, ':', 0) {
        Some(x) => x,
        None => {
            return None;
        },
    };
    let mi = match field_as_i64(&c, ':', 1) {
        Some(x) => x,
        None => {
            return None;
        },
    };
    let sec = match field_of(&c, ':', 2) {
        Some(f) => match field_as_i64(&f, '.', 0) {
            Some(x) => x,
            None => {
                return None;
            },
        },
        None => {
            return None;
        },
    };
    if h > 23 || mi > 59 || sec > 59 {
        return None;
    }
    let off = match zone_offset_of(&zone) {
        Some(o) => o,
        None => {
            return None;
        },
    };
    let days = days_from_civil_of(y, mo, d);
    assert(-104453190814703760694613606400 <= days * 86400 <= 104453190814703760694613606400) by (nonlinear_arith)
        requires
            -1208925819614629174706176 <= days <= 1208925819614629174706176,
    ;
    let ts: i128 = days * 86400 + (h as i128) * 3600 + (mi as i128) * 60 + (sec as i128) - off;
    if 0 <= ts && ts <= 9223372036854775807 {
        Some(ts as u64)
    } else {
        None
    }
}

/// Whether a schedule can be read.
pub fn is_valid_scheduled_for(value: &str) -> (r: bool)
    ensures
        r == scheduled_seconds(value@).is_some(),
{
    scheduled_epoch(value).is_some()
}

proof fn lemma_digit_char(d: nat)
    requires
        d < 10,
    ensures
        is_digit(digit_char(d)),
        digit_char(d) as int - '0' as int == d,
{
}

proof fn lemma_decimal_digits(n: nat)
    ensures
        decimal(n).len() > 0,
        forall|i: int| 0 <= i < decimal(n).len() ==> #[trigger] is_digit(decimal(n)[i]),
        digits_value(decimal(n)) == n,
    decreases n,
{
    lemma_digit_char(n % 10);
    if n < 10 {
        assert(decimal(n).drop_last() =~= Seq::<char>::empty());
        assert(digits_value(Seq::<char>::empty()) == 0);
        assert(decimal(n).last() == digit_char(n));
    } else {
        lemma_decimal_digits(n / 10);
        let s = decimal(n);
        assert(s.drop_last() =~= decimal(n / 10));
        assert(s.last() == digit_char(n % 10));
        assert(digits_value(s) == digits_value(decimal(n / 10)) * 10 + (digit_char(n % 10) as int - '0' as int));
        assert forall|i: int| 0 <= i < s.len() implies #[trigger] is_digit(s[i]) by {
            if i < s.len() - 1 {
                assert(s[i] == decimal(n / 10)[i]);
            }
        }
    }
}

/// A schedule written as Unix seconds in decimal is read back as those
/// seconds.
pub proof fn law_epoch_seconds_read_back(n: u64)
    ensures
        scheduled_seconds(decimal(n as nat)) == Some(n as int),
{
    let s = decimal(n as nat);
    lemma_decimal_digits(n as nat);
    assert(is_digit(s[0]));
    assert(is_digit(s[s.len() - 1]));
    assert(!white_space(s[0]));
    assert(!white_space(s[s.len() - 1]));
    assert(first_non_ws(s, 0) == 0);
    assert(end_non_ws(s, s.len() as int) == s.len());
    assert(trimmed(s) =~= s);
    assert(s[0] != '+');
}

proof fn lemma_find_char_none(s: Seq<char>, c: char, i: int)
    requires
        0 <= i,
        forall|j: int| i <= j < s.len() ==> s[j] != c,
    ensures
        find_char(s, c, i) == -1,
    decreases s.len() - i,
{
    if i < s.len() {
        lemma_find_char_none(s, c, i + 1);
    }
}

proof fn lemma_find_char_at(s: Seq<char>, c: char, i: int, k: int)
    requires
        0 <= i <= k < s.len(),
        s[k] == c,
        forall|j: int| i <= j < k ==> s[j] != c,
    ensures
        find_char(s, c, i) == k,
    decreases k - i,
{
    if i < k {
        lemma_find_char_at(s, c, i + 1, k);
    }
}

proof fn lemma_find_zone_at(s: Seq<char>, i: int, k: int)
    requires
        0 <= i <= k < s.len(),
        s[k] == 'Z' || s[k] == '+' || s[k] == '-',
        forall|j: int| i <= j < k ==> !(s[j] == 'Z' || s[j] == '+' || s[j] == '-'),
    ensures
        find_zone(s, i) == k,
    decreases k - i,
{
    if i < k {
        lemma_find_zone_at(s, i + 1, k);
    }
}

proof fn lemma_find_zone_none(s: Seq<char>, i: int)
    requires
        0 <= i,
        find_zone(s, i) == -1,
    ensures
        forall|j: int| i <= j < s.len() ==> !(s[j] == 'Z' || s[j] == '+' || s[j] == '-'),
    decreases s.len() - i,
{
    if i < s.len() {
        lemma_find_zone_none(s, i + 1);
    }
}

/// The zone of a date and time is applied as an offset: the time with zone
/// `z` (starting with `+` or `-`) is the time with zone `Z` less the
/// offset `z` stands for; it is none when either is none.
pub proof fn law_zone_shifts_time(date: Seq<char>, clock: Seq<char>, z: Seq<char>)
    requires
        find_zone(clock, 0) == -1,
        z.len() > 0,
        z[0] == '+' || z[0] == '-',
    ensures
        date_time_seconds(date, clock + z) == match (date_time_seconds(date, clock + "Z"@), zone_offset(z)) {
            (Some(t), Some(off)) => Some(t - off),
            _ => None,
        },
{
    reveal_strlit("Z");
    let a = clock + z;
    let b = clock + "Z"@;
    lemma_find_zone_none(clock, 0);
    assert forall|j: int| 0 <= j < clock.len() implies !(a[j] == 'Z' || a[j] == '+' || a[j] == '-') by {
        assert(a[j] == clock[j]);
    }
    assert forall|j: int| 0 <= j < clock.len() implies !(b[j] == 'Z' || b[j] == '+' || b[j] == '-') by {
        assert(b[j] == clock[j]);
    }
    assert(a[clock.len() as int] == z[0]);
    assert(b[clock.len() as int] == 'Z');
    lemma_find_zone_at(a, 0, clock.len() as int);
    lemma_find_zone_at(b, 0, clock.len() as int);
    assert(a.subrange(0, clock.len() as int) =~= clock);
    assert(b.subrange(0, clock.len() as int) =~= clock);
    assert(a.subrange(clock.len() as int, a.len() as int) =~= z);
    assert(b.subrange(clock.len() as int, b.len() as int) =~= "Z"@);
    assert(zone_offset("Z"@) == Some(0int));
}

/// A zone `+HH:MM` stands for HH hours and MM minutes east of UTC, and
/// `-HH:MM` for as much west: their offsets are HH * 3600 + MM * 60
/// seconds with that sign.
pub proof fn law_zone_offset_value(hours: Seq<char>, minutes: Seq<char>)
    requires
        all_digits(hours),
        all_digits(minutes),
        digits_value(hours) <= i64::MAX,
        digits_value(minutes) <= i64::MAX,
    ensures
        zone_offset("+"@ + hours + ":"@ + minutes) == Some(digits_value(hours) * 3600 + digits_value(minutes) * 60),
        zone_offset("-"@ + hours + ":"@ + minutes) == Some(-(digits_value(hours) * 3600 + digits_value(minutes) * 60)),
{
    reveal_strlit("+");
    reveal_strlit("-");
    assert("+"@ =~= seq!['+']);
    assert("-"@ =~= seq!['-']);
    lemma_zone_offset_signed(hours, minutes, '+');
    lemma_zone_offset_signed(hours, minutes, '-');
}

proof fn lemma_zone_offset_signed(hours: Seq<char>, minutes: Seq<char>, sign: char)
    requires
        all_digits(hours),
        all_digits(minutes),
        digits_value(hours) <= i64::MAX,
        digits_value(minutes) <= i64::MAX,
        sign == '+' || sign == '-',
    ensures
        zone_offset(seq![sign] + hours + ":"@ + minutes) == Some(
            (if sign == '-' { -1int } else { 1int }) * (digits_value(hours) * 3600 + digits_value(minutes) * 60),
        ),
{
    reveal_strlit(":");
    reveal_strlit("Z");
    let zone = seq![sign] + hours + ":"@ + minutes;
    let offset = hours + ":"@ + minutes;
    assert(zone.len() == hours.len() + minutes.len() + 2);
    assert(zone != "Z"@) by {
        assert(zone.len() != 1);
    }
    assert(zone[0] == sign);
    assert(is_digit(hours[0]));
    assert(zone[1] == hours[0]);
    assert(first_non_sign(zone, 1) == 1);
    assert(first_non_sign(zone, 0) == 1);
    assert(zone.subrange(1, zone.len() as int) =~= offset);
    let k = hours.len() as int;
    assert forall|j: int| 0 <= j < k implies offset[j] != ':' by {
        assert(offset[j] == hours[j]);
        assert(is_digit(hours[j]));
    }
    assert(offset[k] == ':');
    lemma_find_char_at(offset, ':', 0, k);
    assert(offset.subrange(0, k) =~= hours);
    assert(offset.subrange(k + 1, offset.len() as int) =~= minutes);
    assert forall|j: int| 0 <= j < minutes.len() implies minutes[j] != ':' by {
        assert(is_digit(minutes[j]));
    }
    lemma_find_char_none(minutes, ':', 0);
    assert(field(offset, ':', 0) == Some(hours));
    assert(field(offset, ':', 1) == field(minutes, ':', 0));
    assert(field(minutes, ':', 0) == Some(minutes));
    assert(is_digit(minutes[0]));
    assert(parse_i64(hours) == Some(digits_value(hours)));
    assert(parse_i64(minutes) == Some(digits_value(minutes)));
}

/// Read together: a date and time with zone `-HH:MM` is the same date and
/// time in UTC plus HH * 3600 + MM * 60 seconds; with `+HH:MM`, minus them.
pub proof fn law_zoned_time(date: Seq<char>, clock: Seq<char>, hours: Seq<char>, minutes: Seq<char>)
    requires
        find_zone(clock, 0) == -1,
        all_digits(hours),
        all_digits(minutes),
        digits_value(hours) <= i64::MAX,
        digits_value(minutes) <= i64::MAX,
    ensures
        date_time_seconds(date, clock + "-"@ + hours + ":"@ + minutes) == match date_time_seconds(date, clock + "Z"@) {
            Some(t) => Some(t + digits_value(hours) * 3600 + digits_value(minutes) * 60),
            None => None,
        },
        date_time_seconds(date, clock + "+"@ + hours + ":"@ + minutes) == match date_time_seconds(date, clock + "Z"@) {
            Some(t) => Some(t - (digits_value(hours) * 3600 + digits_value(minutes) * 60)),
            None => None,
        },
{
    reveal_strlit("-");
    reveal_strlit("+");
    law_zone_offset_value(hours, minutes);
    let zm = "-"@ + hours + ":"@ + minutes;
    let zp = "+"@ + hours + ":"@ + minutes;
    assert(zm[0] == '-');
    assert(zp[0] == '+');
    law_zone_shifts_time(date, clock, zm);
    law_zone_shifts_time(date, clock, zp);
    assert(clock + "-"@ + hours + ":"@ + minutes =~= clock + zm);
    assert(clock + "+"@ + hours + ":"@ + minutes =~= clock + zp);
}

} // verus!
