//! Byte ranges of object reads (`Range: bytes=a-b`) and of part copies
//! (`x-oss-copy-source-range: bytes=a-b`).

use vstd::prelude::*;
use crate::text::{chars_of, string_of, chars_match_at, find_chars, find_from, has_prefix,
    parse_i64, parse_i64_spec, lemma_find_from, occurs_at, format_i64, format_u64, push_all,
    decimal_text};

verus! {

/// An inclusive byte range as the request writes it.
pub struct RangeInclusive {
    pub start: i64,
    pub end: i64,
}

/// The byte range of a part copy as the request writes it.
pub struct CopyRange {
    pub start: i64,
    pub end: i64,
}

/// `s` with every leading repetition of `pat` removed, as
/// `str::trim_start_matches` does.
pub open spec fn trim_start_all(s: Seq<char>, pat: Seq<char>) -> Seq<char>
    decreases s.len(),
{
    if pat.len() > 0 && has_prefix(s, pat) {
        trim_start_all(s.subrange(pat.len() as int, s.len() as int), pat)
    } else {
        s
    }
}

/// The two numbers a range text writes, as `(start, end)`: the text must
/// begin with `bytes=`; after every leading `bytes=` is removed, the text
/// before the first `-` is the start, and the text after it the end, an
/// empty end standing for the last byte of the file.
pub open spec fn range_spec(text: Seq<char>, file_size: i64) -> Option<(i64, i64)> {
    if !has_prefix(text, "bytes="@) {
        None
    } else {
        let v = trim_start_all(text, "bytes="@);
        match find_from(v, seq!['-'], 0) {
            None => None,
            Some(k) => {
                let a = v.subrange(0, k);
                let b = v.subrange(k + 1, v.len() as int);
                match parse_i64_spec(a) {
                    None => None,
                    Some(start) => if b.len() == 0 {
                        Some((start, (file_size - 1) as i64))
                    } else {
                        match parse_i64_spec(b) {
                            None => None,
                            Some(end) => Some((start, end)),
                        }
                    },
                }
            }
        }
    }
}

/// The range text has a readable start and an empty end, so that its end
/// stands for the last byte of the file (`file_size - 1`).
pub open spec fn open_ended(text: Seq<char>) -> bool {
    &&& has_prefix(text, "bytes="@)
    &&& {
        let v = trim_start_all(text, "bytes="@);
        match find_from(v, seq!['-'], 0) {
            None => false,
            Some(k) => parse_i64_spec(v.subrange(0, k)) is Some && k + 1 == v.len(),
        }
    }
}

fn trim_bytes_eq(v: &Vec<char>) -> (n: usize)
    ensures
        n <= v@.len(),
        v@.subrange(n as int, v@.len() as int) == trim_start_all(v@, "bytes="@),
{
    let p = chars_of("bytes=");
    let mut i: usize = 0;
    proof {
        assert(v@.subrange(0, v@.len() as int) =~= v@);
    }
    while p.len() <= v.len() - i && chars_match_at(v.as_slice(), p.as_slice(), i) && p.len() > 0
        invariant
            i <= v@.len(),
            p@ == "bytes="@,
            trim_start_all(v@, "bytes="@) == trim_start_all(v@.subrange(i as int, v@.len() as int), "bytes="@),
        decreases v@.len() - i,
    {
        let ghost rest = v@.subrange(i as int, v@.len() as int);
        proof {
            assert(rest.subrange(0, p@.len() as int) =~= v@.subrange(i as int, i + p@.len()));
            assert(rest.subrange(p@.len() as int, rest.len() as int) =~= v@.subrange(i + p@.len(), v@.len() as int));
        }
        i = i + p.len();
    }
    proof {
        let rest = v@.subrange(i as int, v@.len() as int);
        if p@.len() > 0 && has_prefix(rest, p@) {
            assert(rest.subrange(0, p@.len() as int) =~= v@.subrange(i as int, i + p@.len()));
        }
    }
    i
}

fn range_parts(range_str: &str, file_size: i64) -> (r: Option<(i64, i64)>)
    requires
        open_ended(range_str@) ==> file_size > i64::MIN,
    ensures
        r == range_spec(range_str@, file_size),
{
    let v = chars_of(range_str);
    let p = chars_of("bytes=");
    if p.len() > v.len() || !chars_match_at(v.as_slice(), p.as_slice(), 0) {
        return None;
    }
    let from = trim_bytes_eq(&v);
    let ghost t = v@.subrange(from as int, v@.len() as int);
    let mut dash: Vec<char> = Vec::new();
    dash.push('-');
    assert(dash@ =~= seq!['-']);
    let n = v.len();
    match find_chars(v.as_slice(), dash.as_slice(), from) {
        None => {
            proof {
                crate::storage::lemma_find_shift(v@, seq!['-'], from as int);
            }
            None
        }
        Some(k) => {
            proof {
                crate::storage::lemma_find_shift(v@, seq!['-'], from as int);
                lemma_find_from(v@, seq!['-'], from as int);
                assert(occurs_at(v@, seq!['-'], k as int));
            }
            assert(k < n);
            let a = string_of(v.as_slice(), from, k);
            let b = string_of(v.as_slice(), k + 1, n);
            proof {
                assert(a@ =~= t.subrange(0, k - from));
                assert(b@ =~= t.subrange(k - from + 1, t.len() as int));
            }
            match parse_i64(a.as_str()) {
                None => None,
                Some(start) => {
                    if b.as_str().is_empty() {
                        assert(open_ended(range_str@));
                        Some((start, file_size - 1))
                    } else {
                        match parse_i64(b.as_str()) {
                            None => None,
                            Some(end) => Some((start, end)),
                        }
                    }
                }
            }
        }
    }
}

/// The range that a `Range` header asks for, if it can be read.
pub fn parse_range(range_str: &str, file_size: i64) -> (r: Option<RangeInclusive>)
    requires
        open_ended(range_str@) ==> file_size > i64::MIN,
    ensures
        match range_spec(range_str@, file_size) {
            Some((a, b)) => r matches Some(x) && x.start == a && x.end == b,
            None => r is None,
        },
{
    match range_parts(range_str, file_size) {
        Some((start, end)) => Some(RangeInclusive { start, end }),
        None => None,
    }
}

/// The range that an `x-oss-copy-source-range` header asks for, if it can be read.
pub fn parse_part_copy_range(range_str: &str, file_size: i64) -> (r: Option<CopyRange>)
    requires
        open_ended(range_str@) ==> file_size > i64::MIN,
    ensures
        match range_spec(range_str@, file_size) {
            Some((a, b)) => r matches Some(x) && x.start == a && x.end == b,
            None => r is None,
        },
{
    match range_parts(range_str, file_size) {
        Some((start, end)) => Some(CopyRange { start, end }),
        None => None,
    }
}

/// The slice `[start, min(end, len))` can be taken: it lies in the data and
/// does not run backwards.
pub open spec fn window_fits(start: i64, end: i64, len: nat) -> bool {
    let stop = if end < len { end as int } else { len as int };
    0 <= start && start <= stop
}

/// The end of the window that a range selects from data of `len` bytes.
pub open spec fn window_stop(end: i64, len: nat) -> int {
    if end < len { end as int } else { len as int }
}

/// The window `[start, min(end, len))` that a read of a range takes.
pub fn range_window(start: i64, end: i64, len: usize) -> (r: (usize, usize))
    requires
        window_fits(start, end, len as nat),
    ensures
        r.0 == start,
        r.1 == window_stop(end, len as nat),
{
    let stop: i64 = if (end as i128) < (len as i128) { end } else { len as i64 };
    (start as usize, stop as usize)
}

/// Whether the window of a range can be taken from data of `len` bytes.
pub fn window_fits_exec(start: i64, end: i64, len: usize) -> (r: bool)
    ensures
        r == window_fits(start, end, len as nat),
{
    let stop: i128 = if (end as i128) < (len as i128) { end as i128 } else { len as i128 };
    0 <= start && (start as i128) <= stop
}

/// The `Content-Range` text of a range read: `bytes {start}-{stop - 1}/{len}`.
pub open spec fn content_range_spec(start: int, stop: int, len: int) -> Seq<char> {
    "bytes "@ + decimal_text(start) + "-"@ + decimal_text(stop - 1) + "/"@ + decimal_text(len)
}

/// The `Content-Range` text of a range read.
pub fn content_range(start: i64, stop: i64, len: u64) -> (s: String)
    requires
        stop > i64::MIN,
    ensures
        s@ == content_range_spec(start as int, stop as int, len as int),
{
    let mut s = String::new();
    push_all(&mut s, "bytes ");
    push_all(&mut s, format_i64(start).as_str());
    push_all(&mut s, "-");
    push_all(&mut s, format_i64(stop - 1).as_str());
    push_all(&mut s, "/");
    push_all(&mut s, format_u64(len).as_str());
    assert(s@ =~= content_range_spec(start as int, stop as int, len as int));
    s
}

} // verus!
