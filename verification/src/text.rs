//! Character-level helpers shared by the command builders and validators.

use vstd::prelude::*;
use vstd::string::StrSliceExecFns;
use vstd::string::StringExecFns;

verus! {

/// The number of bytes `s` takes in UTF-8, as `str::len` reports it.
pub open spec fn utf8_len(s: Seq<char>) -> usize {
    vstd::utf8::encode_utf8(s).len() as usize
}

/// The ASCII digit for a value below ten.
pub open spec fn digit_char(d: nat) -> char {
    if d == 0 { '0' }
    else if d == 1 { '1' }
    else if d == 2 { '2' }
    else if d == 3 { '3' }
    else if d == 4 { '4' }
    else if d == 5 { '5' }
    else if d == 6 { '6' }
    else if d == 7 { '7' }
    else if d == 8 { '8' }
    else { '9' }
}

/// The shortest decimal spelling of `n`, as `format!("{}", n)` writes it.
pub open spec fn decimal(n: nat) -> Seq<char>
    decreases n,
{
    if n < 10 {
        seq![digit_char(n)]
    } else {
        decimal(n / 10).push(digit_char(n % 10))
    }
}

/// The decimal spelling of a signed value, with a leading `-` when negative.
pub open spec fn signed_decimal(n: int) -> Seq<char> {
    if n < 0 {
        seq!['-'] + decimal((-n) as nat)
    } else {
        decimal(n as nat)
    }
}

/// `Path::join` on a Unix host, read as text: an absolute `rel` replaces
/// `base`; otherwise `rel` is appended, with a `/` between them unless `base`
/// is empty or already ends with one.
pub open spec fn path_join(base: Seq<char>, rel: Seq<char>) -> Seq<char> {
    if rel.len() > 0 && rel[0] == '/' {
        rel
    } else if base.len() == 0 {
        rel
    } else if base.last() == '/' {
        base + rel
    } else {
        base + seq!['/'] + rel
    }
}

/// `String::push`: appends one character.
#[verifier::external_body]
pub(crate) fn push_char(s: &mut String, c: char)
    ensures
        final(s)@ == old(s)@.push(c),
{
    s.push(c);
}

fn digit_of(d: u64) -> (c: char)
    requires
        d < 10,
    ensures
        c == digit_char(d as nat),
{
    if d == 0 { '0' }
    else if d == 1 { '1' }
    else if d == 2 { '2' }
    else if d == 3 { '3' }
    else if d == 4 { '4' }
    else if d == 5 { '5' }
    else if d == 6 { '6' }
    else if d == 7 { '7' }
    else if d == 8 { '8' }
    else { '9' }
}

/// Spells `n` in decimal.
pub fn decimal_string(n: u64) -> (s: String)
    ensures
        s@ == decimal(n as nat),
    decreases n,
{
    if n < 10 {
        let mut s = String::new();
        push_char(&mut s, digit_of(n));
        s
    } else {
        let mut s = decimal_string(n / 10);
        push_char(&mut s, digit_of(n % 10));
        s
    }
}


/// Spells a signed value in decimal.
pub fn signed_decimal_string(n: i64) -> (s: String)
    ensures
        s@ == signed_decimal(n as int),
{
    if n < 0 {
        let magnitude: u64 = if n == i64::MIN {
            9223372036854775808u64
        } else {
            (-n) as u64
        };
        let digits = decimal_string(magnitude);
        let mut s = String::new();
        push_char(&mut s, '-');
        s.append(digits.as_str());
        s
    } else {
        decimal_string(n as u64)
    }
}

/// Joins two paths as `Path::join` does on a Unix host.
pub fn join_path(base: &str, rel: &str) -> (r: String)
    ensures
        r@ == path_join(base@, rel@),
{
    let rel_len = rel.unicode_len();
    let base_len = base.unicode_len();
    if rel_len > 0 && rel.get_char(0) == '/' {
        rel.to_owned()
    } else if base_len == 0 {
        rel.to_owned()
    } else if base.get_char(base_len - 1) == '/' {
        join2(base, rel)
    } else {
        let mut r = base.to_owned();
        push_char(&mut r, '/');
        r.append(rel);
        r
    }
}

/// Whether two strings hold the same characters.
pub fn str_eq(a: &str, b: &str) -> (r: bool)
    ensures
        r == (a@ == b@),
{
    let x = a.to_owned();
    let y = b.to_owned();
    x == y
}

/// The lowercase hexadecimal digit of a value below sixteen.
pub open spec fn hex_digit(d: nat) -> char {
    if d < 10 {
        digit_char(d)
    } else if d == 10 {
        'a'
    } else if d == 11 {
        'b'
    } else if d == 12 {
        'c'
    } else if d == 13 {
        'd'
    } else if d == 14 {
        'e'
    } else {
        'f'
    }
}

/// Two lowercase hex digits per byte, high nibble first.
pub open spec fn hex_lower(bytes: Seq<u8>) -> Seq<char>
    decreases bytes.len(),
{
    if bytes.len() == 0 {
        seq![]
    } else {
        hex_lower(bytes.drop_last()) + seq![
            hex_digit((bytes.last() / 16) as nat),
            hex_digit((bytes.last() % 16) as nat),
        ]
    }
}

fn hex_digit_of(d: u8) -> (c: char)
    requires
        d < 16,
    ensures
        c == hex_digit(d as nat),
{
    if d < 10 {
        digit_of(d as u64)
    } else if d == 10 {
        'a'
    } else if d == 11 {
        'b'
    } else if d == 12 {
        'c'
    } else if d == 13 {
        'd'
    } else if d == 14 {
        'e'
    } else {
        'f'
    }
}

/// Lowercase hexadecimal text of a byte string, as `hex::encode` gives it.
pub fn hex_encode(bytes: &[u8]) -> (r: String)
    ensures
        r@ == hex_lower(bytes@),
{
    let mut r = String::new();
    let n = bytes.len();
    for i in 0..n
        invariant
            n == bytes@.len(),
            r@ == hex_lower(bytes@.subrange(0, i as int)),
    {
        let b = bytes[i];
        push_char(&mut r, hex_digit_of(b / 16));
        push_char(&mut r, hex_digit_of(b % 16));
        proof {
            let s = bytes@.subrange(0, i + 1);
            assert(s.drop_last() =~= bytes@.subrange(0, i as int));
            assert(s.last() == b);
            assert(r@ =~= hex_lower(s));
        }
    }
    proof {
        assert(bytes@.subrange(0, n as int) =~= bytes@);
    }
    r
}

/// The last `width` hexadecimal digits of `n`, lowercase, zero-padded:
/// `format!("{:016x}", n)` for a `u64` and a width of 16.
pub open spec fn hex_fixed(n: nat, width: nat) -> Seq<char>
    decreases width,
{
    if width == 0 {
        seq![]
    } else {
        hex_fixed(n / 16, (width - 1) as nat).push(hex_digit(n % 16))
    }
}

/// Spells `n` as sixteen lowercase hexadecimal digits.
pub fn hex16(n: u64) -> (r: String)
    ensures
        r@ == hex_fixed(n as nat, 16),
        r@.len() == 16,
{
    let mut digits: Vec<char> = Vec::new();
    let mut rest = n;
    let mut k: u64 = 0;
    proof {
        assert(pow16(0) == 1);
    }
    while k < 16
        invariant
            k <= 16,
            digits@.len() == k,
            forall|j: int| 0 <= j < k ==> #[trigger] digits@[j] == hex_digit(((n as nat) / pow16((j) as nat)) % 16),
            rest as nat == (n as nat) / pow16(k as nat),
        decreases 16 - k,
    {
        proof {
            lemma_pow16_step(k as nat);
            lemma_pos_pow16(k as nat);
            vstd::arithmetic::div_mod::lemma_div_denominator(n as int, pow16(k as nat) as int, 16);
        }
        digits.push(hex_digit_of((rest % 16) as u8));
        rest = rest / 16;
        k = k + 1;
    }
    let mut r = String::new();
    let mut i: usize = 16;
    while i > 0
        invariant
            i <= 16,
            digits@.len() == 16,
            forall|j: int| 0 <= j < 16 ==> #[trigger] digits@[j] == hex_digit(((n as nat) / pow16((j) as nat)) % 16),
            r@ == hex_fixed((n as nat) / pow16(i as nat), (16 - i) as nat),
        decreases i,
    {
        proof {
            lemma_pow16_step((i - 1) as nat);
            lemma_pos_pow16((i - 1) as nat);
            vstd::arithmetic::div_mod::lemma_div_denominator(n as int, pow16((i - 1) as nat) as int, 16);
            let m = (n as nat) / pow16((i - 1) as nat);
            assert(hex_fixed(m, (16 - (i - 1)) as nat) == hex_fixed(m / 16, (16 - i) as nat).push(hex_digit(m % 16)));
        }
        push_char(&mut r, digits[i - 1]);
        i = i - 1;
    }
    proof {
        assert(pow16(0) == 1);
        assert(hex_fixed(n as nat, 16).len() == 16) by {
            lemma_hex_fixed_len(n as nat, 16);
        }
    }
    r
}

/// Sixteen to the power `k`.
pub open spec fn pow16(k: nat) -> nat
    decreases k,
{
    if k == 0 {
        1
    } else {
        16 * pow16((k - 1) as nat)
    }
}

proof fn lemma_pow16_step(k: nat)
    ensures
        pow16(k + 1) == 16 * pow16(k),
{
}

proof fn lemma_pos_pow16(k: nat)
    ensures
        pow16(k) > 0,
    decreases k,
{
    if k > 0 {
        lemma_pos_pow16((k - 1) as nat);
    }
}

proof fn lemma_hex_fixed_len(n: nat, width: nat)
    ensures
        hex_fixed(n, width).len() == width,
    decreases width,
{
    if width > 0 {
        lemma_hex_fixed_len(n / 16, (width - 1) as nat);
    }
}

/// Whether `s` begins with `p`.
pub open spec fn has_prefix(s: Seq<char>, p: Seq<char>) -> bool {
    p.len() <= s.len() && s.subrange(0, p.len() as int) == p
}

/// Whether `s` ends with `p`.
pub open spec fn has_suffix(s: Seq<char>, p: Seq<char>) -> bool {
    p.len() <= s.len() && s.subrange(s.len() - p.len(), s.len() as int) == p
}

/// Whether `s` begins with `p`, as `str::starts_with` tells.
pub fn starts_with(s: &str, p: &str) -> (r: bool)
    ensures
        r == has_prefix(s@, p@),
{
    let n = s.unicode_len();
    let m = p.unicode_len();
    if m > n {
        return false;
    }
    for i in 0..m
        invariant
            n == s@.len(),
            m == p@.len(),
            m <= n,
            forall|j: int| 0 <= j < i ==> s@[j] == p@[j],
    {
        if s.get_char(i) != p.get_char(i) {
            proof {
                assert(s@.subrange(0, m as int)[i as int] != p@[i as int]);
            }
            return false;
        }
    }
    proof {
        assert(s@.subrange(0, m as int) =~= p@);
    }
    true
}

/// Whether `s` ends with `p`, as `str::ends_with` tells.
pub fn ends_with(s: &str, p: &str) -> (r: bool)
    ensures
        r == has_suffix(s@, p@),
{
    let n = s.unicode_len();
    let m = p.unicode_len();
    if m > n {
        return false;
    }
    let off = n - m;
    for i in 0..m
        invariant
            n == s@.len(),
            m == p@.len(),
            m <= n,
            off == n - m,
            forall|j: int| 0 <= j < i ==> s@[off + j] == p@[j],
    {
        if s.get_char(off + i) != p.get_char(i) {
            proof {
                assert(s@.subrange(off as int, n as int)[i as int] != p@[i as int]);
            }
            return false;
        }
    }
    proof {
        assert(s@.subrange(off as int, n as int) =~= p@);
    }
    true
}

/// Whether `c` occurs in `s`.
pub fn contains_char(s: &str, c: char) -> (r: bool)
    ensures
        r == s@.contains(c),
{
    let n = s.unicode_len();
    for i in 0..n
        invariant
            n == s@.len(),
            forall|j: int| 0 <= j < i ==> s@[j] != c,
    {
        if s.get_char(i) == c {
            return true;
        }
    }
    false
}

/// The characters of `s`, one by one.
pub fn chars_of(s: &str) -> (v: Vec<char>)
    ensures
        v@ == s@,
{
    let n = s.unicode_len();
    let mut v: Vec<char> = Vec::new();
    for i in 0..n
        invariant
            n == s@.len(),
            v@ == s@.subrange(0, i as int),
    {
        v.push(s.get_char(i));
        proof {
            assert(v@ =~= s@.subrange(0, i + 1));
        }
    }
    proof {
        assert(v@ =~= s@);
    }
    v
}

/// A `String` of the given characters.
pub fn string_of(chars: &Vec<char>) -> (r: String)
    ensures
        r@ == chars@,
{
    let mut r = String::new();
    let n = chars.len();
    for i in 0..n
        invariant
            n == chars@.len(),
            r@ == chars@.subrange(0, i as int),
    {
        push_char(&mut r, chars[i]);
        proof {
            assert(r@ =~= chars@.subrange(0, i + 1));
        }
    }
    proof {
        assert(r@ =~= chars@);
    }
    r
}

/// Whether a character may stay in a file name: an ASCII letter or digit,
/// `-`, `_` or `.`.
pub open spec fn filename_safe(c: char) -> bool {
    ('a' <= c && c <= 'z') || ('A' <= c && c <= 'Z') || ('0' <= c && c <= '9') || c == '-' || c == '_'
        || c == '.'
}

/// The first `limit` characters of `s` with every unsafe character
/// replaced by `_`.
pub open spec fn sanitized(s: Seq<char>, limit: nat) -> Seq<char> {
    let kept = if s.len() <= limit { s } else { s.subrange(0, limit as int) };
    kept.map_values(|c: char| if filename_safe(c) { c } else { '_' })
}

/// The first `limit` characters of `s`, with every character that is not an
/// ASCII letter, digit, `-`, `_` or `.` replaced by `_`.
pub fn sanitize_filename(s: &str, limit: usize) -> (r: String)
    ensures
        r@ == sanitized(s@, limit as nat),
{
    let n = s.unicode_len();
    let m = if n <= limit { n } else { limit };
    let mut r = String::new();
    for i in 0..m
        invariant
            n == s@.len(),
            m == (if n <= limit { n } else { limit }),
            r@ == s@.subrange(0, i as int).map_values(|c: char| if filename_safe(c) { c } else { '_' }),
    {
        let c = s.get_char(i);
        let safe = ('a' <= c && c <= 'z') || ('A' <= c && c <= 'Z') || ('0' <= c && c <= '9') || c == '-'
            || c == '_' || c == '.';
        if safe {
            push_char(&mut r, c);
        } else {
            push_char(&mut r, '_');
        }
        proof {
            assert(r@ =~= s@.subrange(0, i + 1).map_values(|c: char| if filename_safe(c) { c } else { '_' }));
        }
    }
    proof {
        if n <= limit {
            assert(s@.subrange(0, m as int) =~= s@);
        }
    }
    r
}

/// Appends a copy of every string of `src` to `dst`, in order.
pub fn push_all(dst: &mut Vec<String>, src: &Vec<String>)
    ensures
        final(dst).deep_view() == old(dst).deep_view() + src.deep_view(),
{
    let ghost start = dst@;
    let n = src.len();
    for i in 0..n
        invariant
            n == src.len(),
            dst@ == start + src@.subrange(0, i as int),
    {
        let s = src[i].clone();
        dst.push(s);
        proof {
            assert(dst@ =~= start + src@.subrange(0, i + 1));
        }
    }
    proof {
        assert(src@.subrange(0, n as int) =~= src@);
        assert(dst.deep_view() =~= old(dst).deep_view() + src.deep_view());
    }
}

/// Appends a copy of `s` to `v`.
pub fn push_str(v: &mut Vec<String>, s: &str)
    ensures
        final(v).deep_view() == old(v).deep_view().push(s@),
{
    v.push(s.to_owned());
    proof {
        assert(v.deep_view() =~= old(v).deep_view().push(s@));
    }
}

/// A fresh `String` holding the characters of `s`.
pub fn owned(s: &str) -> (r: String)
    ensures
        r@ == s@,
{
    s.to_owned()
}

/// `a` followed by `b`.
pub fn join2(a: &str, b: &str) -> (r: String)
    ensures
        r@ == a@ + b@,
{
    let mut r = a.to_owned();
    r.append(b);
    r
}

/// `a`, `b` and `c` in a row.
pub fn join3(a: &str, b: &str, c: &str) -> (r: String)
    ensures
        r@ == a@ + b@ + c@,
{
    let mut r = a.to_owned();
    r.append(b);
    r.append(c);
    r
}

/// `c` with ASCII capitals made small.
pub open spec fn lower_char(c: char) -> char {
    if 'A' <= c && c <= 'Z' {
        ((c as u32) + 32) as char
    } else {
        c
    }
}

/// `c` with ASCII small letters made capital.
pub open spec fn upper_char(c: char) -> char {
    if 'a' <= c && c <= 'z' {
        ((c as u32) - 32) as char
    } else {
        c
    }
}

/// `s` with ASCII capitals made small, as `to_ascii_lowercase` does.
pub open spec fn ascii_lower(s: Seq<char>) -> Seq<char> {
    s.map_values(|c: char| lower_char(c))
}

/// `s` with ASCII small letters made capital, as `to_ascii_uppercase` does.
pub open spec fn ascii_upper(s: Seq<char>) -> Seq<char> {
    s.map_values(|c: char| upper_char(c))
}

fn lower_of(c: char) -> (r: char)
    ensures
        r == lower_char(c),
{
    if 'A' <= c && c <= 'Z' {
        let v = c as u32 + 32;
        assert(0x61 <= v <= 0x7a);
        char_of(v)
    } else {
        c
    }
}

fn upper_of(c: char) -> (r: char)
    ensures
        r == upper_char(c),
{
    if 'a' <= c && c <= 'z' {
        let v = c as u32 - 32;
        assert(0x41 <= v <= 0x5a);
        char_of(v)
    } else {
        c
    }
}

/// The character with ASCII code `v`.
fn char_of(v: u32) -> (c: char)
    requires
        v < 128,
    ensures
        c == v as char,
{
    let b = v as u8;
    b as char
}

/// `s` with ASCII capitals made small.
pub fn to_ascii_lowercase(s: &str) -> (r: String)
    ensures
        r@ == ascii_lower(s@),
{
    let n = s.unicode_len();
    let mut r = String::new();
    for i in 0..n
        invariant
            n == s@.len(),
            r@ == ascii_lower(s@.subrange(0, i as int)),
    {
        let c = s.get_char(i);
        push_char(&mut r, lower_of(c));
        proof {
            assert(r@ =~= ascii_lower(s@.subrange(0, i + 1)));
        }
    }
    proof {
        assert(s@.subrange(0, n as int) =~= s@);
    }
    r
}

/// `s` with ASCII small letters made capital.
pub fn to_ascii_uppercase(s: &str) -> (r: String)
    ensures
        r@ == ascii_upper(s@),
{
    let n = s.unicode_len();
    let mut r = String::new();
    for i in 0..n
        invariant
            n == s@.len(),
            r@ == ascii_upper(s@.subrange(0, i as int)),
    {
        let c = s.get_char(i);
        push_char(&mut r, upper_of(c));
        proof {
            assert(r@ =~= ascii_upper(s@.subrange(0, i + 1)));
        }
    }
    proof {
        assert(s@.subrange(0, n as int) =~= s@);
    }
    r
}

/// `s` with every `from` replaced by `to`.
pub open spec fn replaced(s: Seq<char>, from: char, to: char) -> Seq<char> {
    s.map_values(|c: char| if c == from { to } else { c })
}

/// `s` with every `from` replaced by `to`.
pub fn replace_char(s: &str, from: char, to: char) -> (r: String)
    ensures
        r@ == replaced(s@, from, to),
{
    let n = s.unicode_len();
    let mut r = String::new();
    for i in 0..n
        invariant
            n == s@.len(),
            r@ == replaced(s@.subrange(0, i as int), from, to),
    {
        let c = s.get_char(i);
        push_char(&mut r, if c == from { to } else { c });
        proof {
            assert(r@ =~= replaced(s@.subrange(0, i + 1), from, to));
        }
    }
    proof {
        assert(s@.subrange(0, n as int) =~= s@);
    }
    r
}

} // verus!
