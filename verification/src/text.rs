//! Character and byte sequence helpers shared by the request, listing, range
//! and form logic: searching, prefix tests, ordering, decimal numbers and
//! letter case.

use vstd::prelude::*;

verus! {

/// Appends one character to a string.
///
/// Calls `String::push`; the contract claims that the new string is the old
/// one with `c` added at the end.
#[verifier::external_body]
pub(crate) fn push_char(s: &mut String, c: char)
    ensures
        final(s)@ == old(s)@.push(c),
{
    s.push(c);
}

/// The characters of `s`, in order.
pub fn chars_of(s: &str) -> (v: Vec<char>)
    ensures
        v@ == s@,
{
    let mut v: Vec<char> = Vec::new();
    for c in it: s.chars()
        invariant
            v@ == it.seq().take(it.index() as int),
            it.seq() == s@,
    {
        v.push(c);
    }
    v
}

/// The string made of the characters `v[from..to]`.
pub fn string_of(v: &[char], from: usize, to: usize) -> (s: String)
    requires
        from <= to <= v@.len(),
    ensures
        s@ == v@.subrange(from as int, to as int),
{
    let mut s = String::new();
    let mut i = from;
    while i < to
        invariant
            from <= i <= to <= v@.len(),
            s@ == v@.subrange(from as int, i as int),
        decreases to - i,
    {
        push_char(&mut s, v[i]);
        assert(v@.subrange(from as int, i + 1) == v@.subrange(from as int, i as int).push(v@[i as int]));
        i = i + 1;
    }
    s
}

/// Appends every character of `t` to `s`.
pub fn push_all(s: &mut String, t: &str)
    ensures
        final(s)@ == old(s)@ + t@,
{
    let v = chars_of(t);
    let mut i: usize = 0;
    while i < v.len()
        invariant
            i <= v@.len(),
            v@ == t@,
            s@ == old(s)@ + v@.subrange(0, i as int),
        decreases v@.len() - i,
    {
        push_char(s, v[i]);
        assert(v@.subrange(0, i + 1) == v@.subrange(0, i as int).push(v@[i as int]));
        i = i + 1;
    }
    assert(v@.subrange(0, v@.len() as int) == v@);
}

// ------------------------------------------------------------------
// Searching
// ------------------------------------------------------------------

/// `pat` stands in `s` starting at index `i`.
pub open spec fn occurs_at<T>(s: Seq<T>, pat: Seq<T>, i: int) -> bool {
    0 <= i && i + pat.len() <= s.len() && s.subrange(i, i + pat.len()) == pat
}

/// The first index at or after `i` where `pat` stands in `s`, if any.
pub open spec fn find_from<T>(s: Seq<T>, pat: Seq<T>, i: int) -> Option<int>
    decreases s.len() + 1 - i,
{
    if i < 0 || i + pat.len() > s.len() {
        None
    } else if s.subrange(i, i + pat.len()) == pat {
        Some(i)
    } else {
        find_from(s, pat, i + 1)
    }
}

/// What `find_from` returns is the first occurrence at or after `i`.
pub proof fn lemma_find_from<T>(s: Seq<T>, pat: Seq<T>, i: int)
    requires
        0 <= i,
    ensures
        match find_from(s, pat, i) {
            Some(k) => i <= k && occurs_at(s, pat, k) && forall|j: int|
                i <= j < k ==> !occurs_at(s, pat, j),
            None => forall|j: int| i <= j ==> !occurs_at(s, pat, j),
        },
    decreases s.len() + 1 - i,
{
    if i + pat.len() > s.len() {
    } else if s.subrange(i, i + pat.len()) == pat {
    } else {
        lemma_find_from(s, pat, i + 1);
    }
}

/// `pat` stands in `s` at index `i` (characters).
pub fn chars_match_at(s: &[char], pat: &[char], i: usize) -> (r: bool)
    requires
        i + pat@.len() <= s@.len(),
    ensures
        r == (s@.subrange(i as int, i + pat@.len()) == pat@),
{
    let mut k: usize = 0;
    while k < pat.len()
        invariant
            k <= pat@.len(),
            i + pat.len() <= s.len(),
            forall|j: int| 0 <= j < k ==> s@[i + j] == pat@[j],
        decreases pat@.len() - k,
    {
        if s[i + k] != pat[k] {
            assert(s@.subrange(i as int, i + pat@.len())[k as int] != pat@[k as int]);
            return false;
        }
        k = k + 1;
    }
    assert(s@.subrange(i as int, i + pat@.len()) =~= pat@);
    true
}

/// `pat` stands in `s` at index `i` (bytes).
pub fn bytes_match_at(s: &[u8], pat: &[u8], i: usize) -> (r: bool)
    requires
        i + pat@.len() <= s@.len(),
    ensures
        r == (s@.subrange(i as int, i + pat@.len()) == pat@),
{
    let mut k: usize = 0;
    while k < pat.len()
        invariant
            k <= pat@.len(),
            i + pat.len() <= s.len(),
            forall|j: int| 0 <= j < k ==> s@[i + j] == pat@[j],
        decreases pat@.len() - k,
    {
        if s[i + k] != pat[k] {
            assert(s@.subrange(i as int, i + pat@.len())[k as int] != pat@[k as int]);
            return false;
        }
        k = k + 1;
    }
    assert(s@.subrange(i as int, i + pat@.len()) =~= pat@);
    true
}

/// The first index at or after `from` where `pat` stands in `s` (characters).
pub fn find_chars(s: &[char], pat: &[char], from: usize) -> (r: Option<usize>)
    ensures
        match r {
            Some(i) => find_from(s@, pat@, from as int) == Some(i as int),
            None => find_from(s@, pat@, from as int) is None,
        },
{
    if pat.len() > s.len() {
        return None;
    }
    let last = s.len() - pat.len();
    let mut i = from;
    while i <= last
        invariant
            last + pat@.len() == s@.len(),
            from <= i,
            find_from(s@, pat@, from as int) == find_from(s@, pat@, i as int),
        decreases last + 1 - i,
    {
        if chars_match_at(s, pat, i) {
            return Some(i);
        }
        if i == last {
            return None;
        }
        i = i + 1;
    }
    None
}

/// The first index at or after `from` where `pat` stands in `s` (bytes).
pub fn find_bytes(s: &[u8], pat: &[u8], from: usize) -> (r: Option<usize>)
    ensures
        match r {
            Some(i) => find_from(s@, pat@, from as int) == Some(i as int),
            None => find_from(s@, pat@, from as int) is None,
        },
{
    if pat.len() > s.len() {
        return None;
    }
    let last = s.len() - pat.len();
    let mut i = from;
    while i <= last
        invariant
            last + pat@.len() == s@.len(),
            from <= i,
            find_from(s@, pat@, from as int) == find_from(s@, pat@, i as int),
        decreases last + 1 - i,
    {
        if bytes_match_at(s, pat, i) {
            return Some(i);
        }
        if i == last {
            return None;
        }
        i = i + 1;
    }
    None
}

/// `s` begins with `pat`.
pub open spec fn has_prefix<T>(s: Seq<T>, pat: Seq<T>) -> bool {
    pat.len() <= s.len() && s.subrange(0, pat.len() as int) == pat
}

/// `s` holds `pat` somewhere (an empty `pat` always).
pub open spec fn holds<T>(s: Seq<T>, pat: Seq<T>) -> bool {
    find_from(s, pat, 0) is Some
}

/// `s` begins with `pat` (strings).
pub fn str_starts_with(s: &str, pat: &str) -> (r: bool)
    ensures
        r == has_prefix(s@, pat@),
{
    let sv = chars_of(s);
    let pv = chars_of(pat);
    if pv.len() > sv.len() {
        return false;
    }
    chars_match_at(sv.as_slice(), pv.as_slice(), 0)
}

/// `s` holds `pat` somewhere (strings).
pub fn str_contains(s: &str, pat: &str) -> (r: bool)
    ensures
        r == holds(s@, pat@),
{
    let sv = chars_of(s);
    let pv = chars_of(pat);
    find_chars(sv.as_slice(), pv.as_slice(), 0).is_some()
}

// ------------------------------------------------------------------
// Ordering of byte strings (the order of `str`)
// ------------------------------------------------------------------

/// `a` comes before `b` in lexicographic byte order.
pub open spec fn bytes_less(a: Seq<u8>, b: Seq<u8>) -> bool
    decreases a.len(),
{
    if a.len() == 0 {
        b.len() > 0
    } else if b.len() == 0 {
        false
    } else if a[0] != b[0] {
        a[0] < b[0]
    } else {
        bytes_less(a.drop_first(), b.drop_first())
    }
}

proof fn lemma_bytes_less_skip(a: Seq<u8>, b: Seq<u8>, i: int)
    requires
        0 <= i < a.len(),
        i < b.len(),
        a[i] == b[i],
    ensures
        bytes_less(a.skip(i), b.skip(i)) == bytes_less(a.skip(i + 1), b.skip(i + 1)),
{
    assert(a.skip(i).drop_first() =~= a.skip(i + 1));
    assert(b.skip(i).drop_first() =~= b.skip(i + 1));
}

/// `a` comes before `b` in the byte order that `str` comparison uses.
pub fn str_less(a: &str, b: &str) -> (r: bool)
    ensures
        r == bytes_less(vstd::utf8::encode_utf8(a@), vstd::utf8::encode_utf8(b@)),
{
    let x = a.as_bytes();
    let y = b.as_bytes();
    let mut i: usize = 0;
    proof {
        assert(x@.skip(0) =~= x@);
        assert(y@.skip(0) =~= y@);
    }
    while i < x.len() && i < y.len()
        invariant
            i <= x@.len(),
            i <= y@.len(),
            x@ == vstd::utf8::encode_utf8(a@),
            y@ == vstd::utf8::encode_utf8(b@),
            bytes_less(x@, y@) == bytes_less(x@.skip(i as int), y@.skip(i as int)),
        decreases x@.len() - i,
    {
        if x[i] != y[i] {
            return x[i] < y[i];
        }
        proof {
            lemma_bytes_less_skip(x@, y@, i as int);
        }
        i = i + 1;
    }
    i < y.len()
}

// ------------------------------------------------------------------
// Decimal numbers
// ------------------------------------------------------------------

/// `c` is an ASCII decimal digit.
pub open spec fn is_digit(c: char) -> bool {
    '0' <= c && c <= '9'
}

/// The value of an ASCII decimal digit.
pub open spec fn digit_value(c: char) -> int {
    (c as int) - ('0' as int)
}

/// Every character of `s` is an ASCII decimal digit.
pub open spec fn all_digits(s: Seq<char>) -> bool {
    forall|i: int| 0 <= i < s.len() ==> is_digit(#[trigger] s[i])
}

/// The number that a sequence of decimal digits writes.
pub open spec fn digits_value(s: Seq<char>) -> int
    decreases s.len(),
{
    if s.len() == 0 {
        0
    } else {
        digits_value(s.drop_last()) * 10 + digit_value(s.last())
    }
}

/// The integer that `s` writes in the syntax that Rust's `FromStr` for
/// integers accepts: an optional `+` or `-`, then one or more decimal digits.
pub open spec fn decimal_int(s: Seq<char>) -> Option<int> {
    if s.len() == 0 {
        None
    } else if s[0] == '+' || s[0] == '-' {
        let d = s.drop_first();
        if d.len() == 0 || !all_digits(d) {
            None
        } else if s[0] == '-' {
            Some(-digits_value(d))
        } else {
            Some(digits_value(d))
        }
    } else if all_digits(s) {
        Some(digits_value(s))
    } else {
        None
    }
}

/// What `str::parse::<i64>` gives: the written integer where it fits.
pub open spec fn parse_i64_spec(s: Seq<char>) -> Option<i64> {
    match decimal_int(s) {
        Some(v) => if i64::MIN <= v <= i64::MAX {
            Some(v as i64)
        } else {
            None
        },
        None => None,
    }
}

/// What `str::parse::<i32>` gives: the written integer where it fits.
pub open spec fn parse_i32_spec(s: Seq<char>) -> Option<i32> {
    match decimal_int(s) {
        Some(v) => if i32::MIN <= v <= i32::MAX {
            Some(v as i32)
        } else {
            None
        },
        None => None,
    }
}

proof fn lemma_digits_value_nonneg(s: Seq<char>)
    requires
        all_digits(s),
    ensures
        digits_value(s) >= 0,
    decreases s.len(),
{
    if s.len() > 0 {
        assert(all_digits(s.drop_last()));
        lemma_digits_value_nonneg(s.drop_last());
    }
}

proof fn lemma_digits_value_mono(s: Seq<char>, k: int)
    requires
        all_digits(s),
        0 < k <= s.len(),
    ensures
        digits_value(s.take(k)) <= digits_value(s),
    decreases s.len(),
{
    if k < s.len() {
        assert(all_digits(s.drop_last()));
        assert(s.drop_last().take(k) =~= s.take(k));
        lemma_digits_value_mono(s.drop_last(), k);
        lemma_digits_value_nonneg(s.drop_last());
        assert(is_digit(s[s.len() - 1]));
    } else {
        assert(s.take(k) =~= s);
    }
}

/// Reads decimal digits `v[from..]` as a magnitude, or `None` if the text
/// is empty, holds a non-digit, or writes a number above `u64::MAX`.
fn read_magnitude(v: &[char], from: usize) -> (r: Option<u64>)
    requires
        from <= v@.len(),
    ensures
        ({
            let d = v@.skip(from as int);
            match r {
                Some(m) => d.len() > 0 && all_digits(d) && m == digits_value(d),
                None => d.len() == 0 || !all_digits(d) || digits_value(d) > u64::MAX,
            }
        }),
{
    let ghost d = v@.skip(from as int);
    if from == v.len() {
        return None;
    }
    let mut acc: u64 = 0;
    let mut i = from;
    let mut ok = true;
    while i < v.len()
        invariant
            from <= i <= v@.len(),
            d == v@.skip(from as int),
            d.len() > 0,
            ok ==> all_digits(d.take(i - from)) && acc == digits_value(d.take(i - from)),
            !ok ==> (!all_digits(d) || digits_value(d) > u64::MAX),
        decreases v@.len() - i,
    {
        let c = v[i];
        let ghost t = d.take(i - from);
        let ghost t1 = d.take(i + 1 - from);
        proof {
            assert(t1.drop_last() =~= t);
            assert(t1.last() == c);
        }
        if !ok {
        } else if c < '0' || c > '9' {
            ok = false;
            assert(!is_digit(d[i - from]));
        } else {
            let dv = (c as u32 - '0' as u32) as u64;
            match acc.checked_mul(10) {
                Some(p) => match p.checked_add(dv) {
                    Some(n) => {
                        acc = n;
                        assert(all_digits(t1));
                    }
                    None => {
                        ok = false;
                        proof {
                            assert(all_digits(t1));
                            assert(digits_value(t1) > u64::MAX);
                            if all_digits(d) {
                                lemma_digits_value_mono(d, i + 1 - from);
                            }
                        }
                    }
                },
                None => {
                    ok = false;
                    proof {
                        assert(all_digits(t1));
                        lemma_digits_value_nonneg(t);
                        assert(digits_value(t1) > u64::MAX);
                        if all_digits(d) {
                            lemma_digits_value_mono(d, i + 1 - from);
                        }
                    }
                }
            }
        }
        i = i + 1;
    }
    proof {
        assert(d.take(d.len() as int) =~= d);
    }
    if ok {
        Some(acc)
    } else {
        None
    }
}

/// `str::parse::<i64>`, written out.
pub fn parse_i64(s: &str) -> (r: Option<i64>)
    ensures
        r == parse_i64_spec(s@),
{
    let v = chars_of(s);
    if v.len() == 0 {
        return None;
    }
    let neg = v[0] == '-';
    let signed = v[0] == '+' || v[0] == '-';
    let start: usize = if signed { 1 } else { 0 };
    proof {
        assert(v@.skip(1) =~= v@.drop_first());
        assert(v@.skip(0) =~= v@);
    }
    match read_magnitude(v.as_slice(), start) {
        None => None,
        Some(m) => {
            if neg {
                if m <= 9223372036854775808u64 {
                    let x: i128 = -(m as i128);
                    Some(x as i64)
                } else {
                    None
                }
            } else {
                if m <= 9223372036854775807u64 {
                    Some(m as i64)
                } else {
                    None
                }
            }
        }
    }
}

/// `str::parse::<i32>`, written out.
pub fn parse_i32(s: &str) -> (r: Option<i32>)
    ensures
        r == parse_i32_spec(s@),
{
    match parse_i64(s) {
        Some(x) => if -2147483648 <= x && x <= 2147483647 {
            Some(x as i32)
        } else {
            None
        },
        None => None,
    }
}

/// The decimal digit character for `d < 10`.
pub open spec fn digit_char(d: int) -> char {
    (('0' as int) + d) as char
}

/// The decimal writing of a natural number, without leading zeros.
pub open spec fn decimal_digits(n: nat) -> Seq<char>
    decreases n,
{
    if n < 10 {
        seq![digit_char(n as int)]
    } else {
        decimal_digits(n / 10).push(digit_char((n % 10) as int))
    }
}

/// The decimal writing of an integer, as `Display` writes it.
pub open spec fn decimal_text(v: int) -> Seq<char> {
    if v < 0 {
        seq!['-'] + decimal_digits((-v) as nat)
    } else {
        decimal_digits(v as nat)
    }
}

fn digit_to_char(d: u8) -> (c: char)
    requires
        d < 10,
    ensures
        c == digit_char(d as int),
{
    match d {
        0 => '0',
        1 => '1',
        2 => '2',
        3 => '3',
        4 => '4',
        5 => '5',
        6 => '6',
        7 => '7',
        8 => '8',
        _ => '9',
    }
}

fn push_digits(out: &mut String, n: u64)
    ensures
        final(out)@ == old(out)@ + decimal_digits(n as nat),
    decreases n,
{
    if n >= 10 {
        push_digits(out, n / 10);
    }
    let c = digit_to_char((n % 10) as u8);
    assert(c == digit_char((n % 10) as int));
    push_char(out, c);
    proof {
        if n >= 10 {
            assert(old(out)@ + decimal_digits(n as nat) =~= (old(out)@ + decimal_digits((n / 10) as nat)).push(c));
        } else {
            assert(old(out)@ + decimal_digits(n as nat) =~= old(out)@.push(c));
        }
    }
}

/// The decimal writing of an unsigned number.
pub fn format_u64(n: u64) -> (s: String)
    ensures
        s@ == decimal_text(n as int),
{
    let mut s = String::new();
    push_digits(&mut s, n);
    assert(s@ =~= decimal_digits(n as nat));
    s
}

/// The decimal writing of a signed number, as `to_string` writes it.
pub fn format_i64(v: i64) -> (s: String)
    ensures
        s@ == decimal_text(v as int),
{
    let mut s = String::new();
    if v < 0 {
        push_char(&mut s, '-');
        let m: u64 = (-(v as i128)) as u64;
        push_digits(&mut s, m);
    } else {
        push_digits(&mut s, v as u64);
        assert(s@ =~= decimal_digits(v as nat));
    }
    s
}

// ------------------------------------------------------------------
// Letter case
// ------------------------------------------------------------------

/// `c` with an ASCII capital letter made small.
pub open spec fn lower_char(c: char) -> char {
    if 'A' <= c && c <= 'Z' {
        ((c as u32) + 32) as char
    } else {
        c
    }
}

/// `s` with its ASCII capital letters made small.
pub open spec fn lower_text(s: Seq<char>) -> Seq<char> {
    s.map_values(|c: char| lower_char(c))
}

/// `c` with an ASCII capital letter made small.
pub fn ascii_lower(c: char) -> (r: char)
    ensures
        r == lower_char(c),
{
    if 'A' <= c && c <= 'Z' {
        let b: u8 = c as u8;
        (b + 32) as char
    } else {
        c
    }
}

/// `s` with its ASCII capital letters made small (for ASCII text, such as
/// header names, this is the lowercase form of the text).
pub fn lowercase_ascii(s: &str) -> (r: String)
    ensures
        r@ == lower_text(s@),
{
    let v = chars_of(s);
    let mut r = String::new();
    let mut i: usize = 0;
    while i < v.len()
        invariant
            i <= v@.len(),
            v@ == s@,
            r@ == lower_text(s@.subrange(0, i as int)),
        decreases v@.len() - i,
    {
        push_char(&mut r, ascii_lower(v[i]));
        assert(lower_text(s@.subrange(0, i + 1)) =~= lower_text(s@.subrange(0, i as int)).push(lower_char(v@[i as int])));
        i = i + 1;
    }
    assert(s@.subrange(0, s@.len() as int) =~= s@);
    r
}

} // verus!
