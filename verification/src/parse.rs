//! Reading text the way `str::trim`, `str::split` and `str::parse` read it:
//! whitespace, fields between separators, and decimal integers.

use vstd::prelude::*;

verus! {

/// Unicode `White_Space`, as `char::is_whitespace` tests it.
pub open spec fn white_space(c: char) -> bool {
    c == ' ' || ('\t' <= c && c <= '\r') || c == '\u{85}' || c == '\u{a0}' || c == '\u{1680}' || ('\u{2000}' <= c
        && c <= '\u{200a}') || c == '\u{2028}' || c == '\u{2029}' || c == '\u{202f}' || c == '\u{205f}' || c
        == '\u{3000}'
}

/// The first index from `i` on that is not whitespace, or the length.
pub open spec fn first_non_ws(s: Seq<char>, i: int) -> int
    decreases s.len() - i,
{
    if i < 0 || i >= s.len() {
        s.len() as int
    } else if white_space(s[i]) {
        first_non_ws(s, i + 1)
    } else {
        i
    }
}

/// One past the last index before `j` that is not whitespace, or 0.
pub open spec fn end_non_ws(s: Seq<char>, j: int) -> int
    decreases j,
{
    if j <= 0 || j > s.len() {
        0
    } else if white_space(s[j - 1]) {
        end_non_ws(s, j - 1)
    } else {
        j
    }
}

/// `s` without leading and trailing whitespace.
pub open spec fn trimmed(s: Seq<char>) -> Seq<char> {
    let a = first_non_ws(s, 0);
    let b = end_non_ws(s, s.len() as int);
    if a < b {
        s.subrange(a, b)
    } else {
        seq![]
    }
}

/// The first index from `i` on holding `c`, or -1.
pub open spec fn find_char(s: Seq<char>, c: char, i: int) -> int
    decreases s.len() - i,
{
    if i < 0 || i >= s.len() {
        -1
    } else if s[i] == c {
        i
    } else {
        find_char(s, c, i + 1)
    }
}

/// Field `n` (from 0) of `s` split at `sep`, as `str::split` yields them;
/// `None` when there are fewer fields.
pub open spec fn field(s: Seq<char>, sep: char, n: nat) -> Option<Seq<char>>
    decreases n,
{
    let k = find_char(s, sep, 0);
    if n == 0 {
        Some(
            if k == -1 {
                s
            } else {
                s.subrange(0, k)
            },
        )
    } else if k == -1 {
        None
    } else {
        field(s.subrange(k + 1, s.len() as int), sep, (n - 1) as nat)
    }
}

/// Whether `c` is an ASCII decimal digit.
pub open spec fn is_digit(c: char) -> bool {
    '0' <= c && c <= '9'
}

/// The value of the decimal digits `s`.
pub open spec fn digits_value(s: Seq<char>) -> int
    decreases s.len(),
{
    if s.len() == 0 {
        0
    } else {
        digits_value(s.drop_last()) * 10 + (s.last() as int - '0' as int)
    }
}

/// Whether `s` is a non-empty run of decimal digits.
pub open spec fn all_digits(s: Seq<char>) -> bool {
    s.len() > 0 && forall|i: int| 0 <= i < s.len() ==> #[trigger] is_digit(s[i])
}

/// `s` read as an unsigned integer no greater than `max`: an optional `+`
/// and at least one digit, nothing else.
pub open spec fn parse_unsigned(s: Seq<char>, max: int) -> Option<int> {
    let body = if s.len() > 0 && s[0] == '+' {
        s.subrange(1, s.len() as int)
    } else {
        s
    };
    if all_digits(body) && digits_value(body) <= max {
        Some(digits_value(body))
    } else {
        None
    }
}

/// `s` read as a signed integer in `min..=max`: an optional `+` or `-` and
/// at least one digit, nothing else.
pub open spec fn parse_signed(s: Seq<char>, min: int, max: int) -> Option<int> {
    if s.len() > 0 && s[0] == '-' {
        let body = s.subrange(1, s.len() as int);
        if all_digits(body) && -digits_value(body) >= min {
            Some(-digits_value(body))
        } else {
            None
        }
    } else {
        parse_unsigned(s, max)
    }
}

/// `s` read as an `i64`, as `str::parse::<i64>` reads it.
pub open spec fn parse_i64(s: Seq<char>) -> Option<int> {
    parse_signed(s, i64::MIN as int, i64::MAX as int)
}

/// The characters `v[a..b]`.
pub fn slice_chars(v: &Vec<char>, a: usize, b: usize) -> (r: Vec<char>)
    requires
        a <= b <= v@.len(),
    ensures
        r@ == v@.subrange(a as int, b as int),
{
    let mut r: Vec<char> = Vec::new();
    let mut i = a;
    while i < b
        invariant
            a <= i <= b <= v@.len(),
            r@ == v@.subrange(a as int, i as int),
        decreases b - i,
    {
        r.push(v[i]);
        i = i + 1;
        proof {
            assert(r@ =~= v@.subrange(a as int, i as int));
        }
    }
    r
}

/// `s` without leading and trailing whitespace.
pub fn trim_chars(s: &Vec<char>) -> (r: Vec<char>)
    ensures
        r@ == trimmed(s@),
{
    let n = s.len();
    let mut a: usize = 0;
    while a < n && is_white_space(s[a])
        invariant
            a <= n == s@.len(),
            first_non_ws(s@, 0) == first_non_ws(s@, a as int),
        decreases n - a,
    {
        a = a + 1;
    }
    let mut b: usize = n;
    while b > 0 && is_white_space(s[b - 1])
        invariant
            b <= n == s@.len(),
            end_non_ws(s@, n as int) == end_non_ws(s@, b as int),
        decreases b,
    {
        b = b - 1;
    }
    if a < b {
        slice_chars(s, a, b)
    } else {
        Vec::new()
    }
}

/// Whether `c` is whitespace.
pub fn is_white_space(c: char) -> (r: bool)
    ensures
        r == white_space(c),
{
    c == ' ' || ('\t' <= c && c <= '\r') || c == '\u{85}' || c == '\u{a0}' || c == '\u{1680}' || ('\u{2000}' <= c
        && c <= '\u{200a}') || c == '\u{2028}' || c == '\u{2029}' || c == '\u{202f}' || c == '\u{205f}' || c
        == '\u{3000}'
}

/// The first index from `from` on holding `c`.
pub fn find_char_from(s: &Vec<char>, c: char, from: usize) -> (r: Option<usize>)
    requires
        from <= s@.len(),
    ensures
        match r {
            Some(k) => k < s@.len() && find_char(s@, c, from as int) == k,
            None => find_char(s@, c, from as int) == -1,
        },
{
    let n = s.len();
    let mut i = from;
    while i < n
        invariant
            from <= i <= n == s@.len(),
            find_char(s@, c, from as int) == find_char(s@, c, i as int),
        decreases n - i,
    {
        if s[i] == c {
            return Some(i);
        }
        i = i + 1;
    }
    None
}

/// Field `n` of `s` split at `sep`.
pub fn field_of(s: &Vec<char>, sep: char, n: usize) -> (r: Option<Vec<char>>)
    ensures
        match r {
            Some(f) => field(s@, sep, n as nat) == Some(f@),
            None => field(s@, sep, n as nat).is_none(),
        },
    decreases n,
{
    let k = find_char_from(s, sep, 0);
    if n == 0 {
        match k {
            Some(k) => Some(slice_chars(s, 0, k)),
            None => Some(slice_chars(s, 0, s.len())),
        }
    } else {
        match k {
            Some(k) => {
                let len = s.len();
                let rest = slice_chars(s, k + 1, len);
                field_of(&rest, sep, n - 1)
            },
            None => None,
        }
    }
}

proof fn lemma_digits_step(s: Seq<char>, i: int)
    requires
        0 <= i < s.len(),
    ensures
        digits_value(s.subrange(0, i + 1)) == digits_value(s.subrange(0, i)) * 10 + (s[i] as int - '0' as int),
{
    assert(s.subrange(0, i + 1).drop_last() =~= s.subrange(0, i));
}

proof fn lemma_digits_nonneg(s: Seq<char>)
    requires
        forall|i: int| 0 <= i < s.len() ==> #[trigger] is_digit(s[i]),
    ensures
        digits_value(s) >= 0,
    decreases s.len(),
{
    if s.len() > 0 {
        assert(is_digit(s[s.len() - 1]));
        lemma_digits_nonneg(s.drop_last());
    }
}

proof fn lemma_digits_grow(s: Seq<char>, i: int)
    requires
        0 <= i <= s.len(),
        forall|j: int| 0 <= j < s.len() ==> #[trigger] is_digit(s[j]),
    ensures
        digits_value(s.subrange(0, i)) <= digits_value(s),
    decreases s.len() - i,
{
    if i < s.len() {
        lemma_digits_grow(s, i + 1);
        lemma_digits_step(s, i);
        assert(is_digit(s[i]));
        assert forall|j: int| 0 <= j < i implies #[trigger] is_digit(s.subrange(0, i)[j]) by {
            assert(is_digit(s[j]));
        }
        lemma_digits_nonneg(s.subrange(0, i));
    } else {
        assert(s.subrange(0, i) =~= s);
    }
}

/// The digits `s[a..b]` as a number no greater than `max`; `None` when the
/// range is empty, holds a non-digit, or is worth more.
fn digits_at_most(s: &Vec<char>, a: usize, b: usize, max: u64) -> (r: Option<u64>)
    requires
        a <= b <= s@.len(),
    ensures
        ({
            let body = s@.subrange(a as int, b as int);
            match r {
                Some(v) => all_digits(body) && digits_value(body) <= max && v == digits_value(body),
                None => !(all_digits(body) && digits_value(body) <= max),
            }
        }),
{
    let ghost body = s@.subrange(a as int, b as int);
    if a == b {
        return None;
    }
    let mut i = a;
    while i < b
        invariant
            a <= i <= b <= s@.len(),
            body == s@.subrange(a as int, b as int),
            forall|j: int| 0 <= j < i - a ==> #[trigger] is_digit(body[j]),
        decreases b - i,
    {
        if !('0' <= s[i] && s[i] <= '9') {
            assert(!is_digit(body[i - a]));
            return None;
        }
        i = i + 1;
    }
    let mut acc: u64 = 0;
    let mut i = a;
    while i < b
        invariant
            a <= i <= b <= s@.len(),
            body == s@.subrange(a as int, b as int),
            forall|j: int| 0 <= j < body.len() ==> #[trigger] is_digit(body[j]),
            acc == digits_value(body.subrange(0, i - a)),
            acc <= max,
        decreases b - i,
    {
        proof {
            lemma_digits_step(body, i - a);
            assert(body[i - a] == s@[i as int]);
            assert(is_digit(body[i - a]));
        }
        let d = (s[i] as u32 - '0' as u32) as u64;
        if d > max || acc > (max - d) / 10 {
            proof {
                assert(acc * 10 + d > max);
                lemma_digits_grow(body, i - a + 1);
            }
            return None;
        }
        assert(acc * 10 + d <= max);
        acc = acc * 10 + d;
        i = i + 1;
    }
    proof {
        assert(body.subrange(0, b - a) =~= body);
    }
    Some(acc)
}

/// `s` read as an unsigned integer no greater than `max`.
pub fn parse_unsigned_chars(s: &Vec<char>, max: u64) -> (r: Option<u64>)
    ensures
        match r {
            Some(v) => parse_unsigned(s@, max as int) == Some(v as int),
            None => parse_unsigned(s@, max as int).is_none(),
        },
{
    if s.len() > 0 && s[0] == '+' {
        digits_at_most(s, 1, s.len(), max)
    } else {
        proof {
            assert(s@.subrange(0, s@.len() as int) =~= s@);
        }
        digits_at_most(s, 0, s.len(), max)
    }
}

/// `s` read as an `i64`.
pub fn parse_i64_chars(s: &Vec<char>) -> (r: Option<i64>)
    ensures
        match r {
            Some(v) => parse_i64(s@) == Some(v as int),
            None => parse_i64(s@).is_none(),
        },
{
    if s.len() > 0 && s[0] == '-' {
        match digits_at_most(s, 1, s.len(), 9223372036854775808) {
            Some(v) => {
                if v == 9223372036854775808 {
                    Some(i64::MIN)
                } else {
                    Some(-(v as i64))
                }
            },
            None => None,
        }
    } else {
        match parse_unsigned_chars(s, 9223372036854775807) {
            Some(v) => Some(v as i64),
            None => None,
        }
    }
}

/// A decimal octet as `Ipv4Addr` reads it: one to three digits, no leading
/// zero unless alone, at most 255.
pub open spec fn octet(s: Seq<char>) -> Option<u8> {
    if 1 <= s.len() <= 3 && all_digits(s) && !(s.len() > 1 && s[0] == '0') && digits_value(s) <= 255 {
        Some(digits_value(s) as u8)
    } else {
        None
    }
}

/// A dotted-quad IPv4 address, as `Ipv4Addr` reads it: exactly four
/// octets.
pub open spec fn parse_ipv4(s: Seq<char>) -> Option<(u8, u8, u8, u8)> {
    match (field(s, '.', 0), field(s, '.', 1), field(s, '.', 2), field(s, '.', 3), field(s, '.', 4)) {
        (Some(a), Some(b), Some(c), Some(d), None) => match (octet(a), octet(b), octet(c), octet(d)) {
            (Some(a), Some(b), Some(c), Some(d)) => Some((a, b, c, d)),
            _ => None,
        },
        _ => None,
    }
}

fn octet_of(s: &Vec<char>) -> (r: Option<u8>)
    ensures
        r == octet(s@),
{
    let n = s.len();
    if n < 1 || n > 3 || (n > 1 && s[0] == '0') {
        return None;
    }
    match digits_at_most(s, 0, n, 255) {
        Some(v) => {
            proof {
                assert(s@.subrange(0, n as int) =~= s@);
            }
            Some(v as u8)
        },
        None => {
            proof {
                assert(s@.subrange(0, n as int) =~= s@);
            }
            None
        },
    }
}

/// Reads a dotted-quad IPv4 address.
pub fn parse_ipv4_chars(s: &Vec<char>) -> (r: Option<(u8, u8, u8, u8)>)
    ensures
        r == parse_ipv4(s@),
{
    if field_of(s, '.', 4).is_some() {
        return None;
    }
    let a = match field_of(s, '.', 0) {
        Some(f) => f,
        None => {
            return None;
        },
    };
    let b = match field_of(s, '.', 1) {
        Some(f) => f,
        None => {
            return None;
        },
    };
    let c = match field_of(s, '.', 2) {
        Some(f) => f,
        None => {
            return None;
        },
    };
    let d = match field_of(s, '.', 3) {
        Some(f) => f,
        None => {
            return None;
        },
    };
    match (octet_of(&a), octet_of(&b), octet_of(&c), octet_of(&d)) {
        (Some(a), Some(b), Some(c), Some(d)) => Some((a, b, c, d)),
        _ => None,
    }
}

} // verus!
