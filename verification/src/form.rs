//! Fields and the uploaded file of a `multipart/form-data` body, as the form
//! upload of an object reads them.
//!
//! The body is first read as text, every invalid UTF-8 sequence replaced by
//! U+FFFD; the positions found in that text are then used both in the text
//! and in the raw body.

use vstd::prelude::*;
use vstd::utf8::{encode_utf8, valid_utf8, decode_utf8};
use crate::text::{find_bytes, find_from, occurs_at, lemma_find_from, push_all};

verus! {

/// What `String::from_utf8_lossy` makes of a byte sequence.
pub uninterp spec fn utf8_lossy(b: Seq<u8>) -> Seq<char>;

/// Reads bytes as text.
///
/// Calls `String::from_utf8_lossy`. The contract names the result
/// `utf8_lossy(b)` and claims, as the function's documentation says, that
/// valid UTF-8 is read as the text it encodes. What becomes of invalid
/// sequences is left to the name.
#[verifier::external_body]
fn read_lossy(b: &[u8]) -> (s: String)
    ensures
        s@ == utf8_lossy(b@),
        valid_utf8(b@) ==> s@ == decode_utf8(b@),
{
    String::from_utf8_lossy(b).into_owned()
}

/// The bytes of the text that the body is read as.
pub open spec fn body_text(body: Seq<u8>) -> Seq<u8> {
    encode_utf8(utf8_lossy(body))
}

/// The pattern `name="<field>"`.
pub open spec fn field_pattern(field: Seq<char>) -> Seq<u8> {
    encode_utf8("name=\""@ + field + "\""@)
}

/// Where the value of a field lies in the body text: after the first
/// `name="<field>"`, past the next blank line, up to the next line break or
/// to the end of the body.
pub open spec fn field_span(t: Seq<u8>, field: Seq<char>) -> Option<(int, int)> {
    match find_from(t, field_pattern(field), 0) {
        None => None,
        Some(pos) => match find_from(t, encode_utf8("\r\n\r\n"@), pos) {
            None => None,
            Some(blank) => {
                let start = blank + 4;
                match find_from(t, encode_utf8("\r\n"@), start) {
                    None => Some((start, t.len() as int)),
                    Some(stop) => Some((start, stop)),
                }
            }
        }
    }
}

/// The value of a form field, read as text.
pub open spec fn field_spec(body: Seq<u8>, field: Seq<char>) -> Option<Seq<char>> {
    let t = body_text(body);
    match field_span(t, field) {
        None => None,
        Some((a, b)) => Some(utf8_lossy(t.subrange(a, b))),
    }
}

/// Where the uploaded file lies: `(data_start, data_end, type_start, type_end)`
/// with positions in the body text. After the first `name="file"` comes a
/// `Content-Type: ` whose value runs to the next line break (or the end);
/// the data begins past the next blank line after that header and runs to
/// the next line break, or to the end of the body (`data_end` is `None`).
pub open spec fn file_layout(t: Seq<u8>) -> Option<(int, Option<int>, int, int)> {
    match find_from(t, field_pattern("file"@), 0) {
        None => None,
        Some(pos) => match find_from(t, encode_utf8("Content-Type: "@), pos) {
            None => None,
            Some(c) => {
                let type_start = c + 14;
                let type_end = match find_from(t, encode_utf8("\r\n"@), type_start) {
                    Some(e) => e,
                    None => t.len() as int,
                };
                match find_from(t, encode_utf8("\r\n\r\n"@), c) {
                    None => None,
                    Some(blank) => {
                        let data_start = blank + 4;
                        Some((data_start, find_from(t, encode_utf8("\r\n"@), data_start), type_start, type_end))
                    }
                }
            }
        }
    }
}

/// The positions found in the body text can be used in the raw body (they
/// always can where the body is valid UTF-8).
pub open spec fn file_slice_fits(body: Seq<u8>) -> bool {
    match file_layout(body_text(body)) {
        Some((data_start, data_end, _, _)) => match data_end {
            Some(e) => e <= body.len(),
            None => data_start <= body.len(),
        },
        None => true,
    }
}

/// The uploaded file's bytes and content type.
pub open spec fn file_spec(body: Seq<u8>) -> (Seq<u8>, Seq<char>) {
    let t = body_text(body);
    match file_layout(t) {
        Some((data_start, data_end, type_start, type_end)) => (
            match data_end {
                Some(e) => body.subrange(data_start, e),
                None => body.subrange(data_start, body.len() as int),
            },
            utf8_lossy(t.subrange(type_start, type_end)),
        ),
        None => (Seq::empty(), "application/octet-stream"@),
    }
}

/// The blank line and the line break are four and two bytes long, and the
/// content type header fourteen; the blank line ends with a line feed, the
/// line break begins with a carriage return, and the header ends with a space.
proof fn lemma_crlf_lengths()
    ensures
        encode_utf8("\r\n\r\n"@).len() == 4,
        encode_utf8("\r\n"@).len() == 2,
        encode_utf8("Content-Type: "@).len() == 14,
        encode_utf8("\r\n\r\n"@)[3] == 10u8,
        encode_utf8("\r\n"@)[0] == 13u8,
        encode_utf8("Content-Type: "@)[13] == 32u8,
{
    broadcast use vstd::string::group_string_axioms;
    reveal_strlit("\r\n\r\n");
    reveal_strlit("\r\n");
    reveal_strlit("Content-Type: ");
    assert(vstd::utf8::is_ascii_chars("\r\n\r\n"@));
    assert(vstd::utf8::is_ascii_chars("\r\n"@));
    assert(vstd::utf8::is_ascii_chars("Content-Type: "@));
    vstd::utf8::is_ascii_chars_encode_utf8("\r\n\r\n"@);
    vstd::utf8::is_ascii_chars_encode_utf8("\r\n"@);
    vstd::utf8::is_ascii_chars_encode_utf8("Content-Type: "@);
    assert("\r\n\r\n"@[3] == '\n');
    assert("\r\n"@[0] == '\r');
    assert("Content-Type: "@[13] == ' ');
}

/// The bytes between an ASCII byte and the next ASCII byte (or the end) of
/// valid UTF-8 are valid UTF-8 themselves.
proof fn lemma_ascii_window_valid(bytes: Seq<u8>, a: int, b: int)
    requires
        valid_utf8(bytes),
        0 < a <= b <= bytes.len(),
        bytes[a - 1] < 0x80,
        b == bytes.len() || bytes[b] < 0x80,
    ensures
        valid_utf8(bytes.subrange(a, b)),
{
    vstd::utf8::is_char_boundary_iff_is_leading_byte(bytes, a - 1);
    vstd::utf8::valid_utf8_split(bytes, a - 1);
    let s1 = bytes.subrange(a - 1, bytes.len() as int);
    assert(s1[0] == bytes[a - 1]);
    assert(vstd::utf8::length_of_first_scalar(s1) == 1);
    assert(vstd::utf8::valid_utf8(vstd::utf8::pop_first_scalar(s1)));
    assert(vstd::utf8::is_char_boundary(s1, 1)) by {
        reveal_with_fuel(vstd::utf8::is_char_boundary, 2);
    }
    vstd::utf8::valid_utf8_split(s1, 1);
    let s2 = s1.subrange(1, s1.len() as int);
    assert(s2 =~= bytes.subrange(a, bytes.len() as int));
    if b == bytes.len() {
    } else {
        let k = b - a;
        assert(s2[k] == bytes[b]);
        vstd::utf8::is_char_boundary_iff_is_leading_byte(s2, k);
        vstd::utf8::valid_utf8_split(s2, k);
        assert(s2.subrange(0, k) =~= bytes.subrange(a, b));
    }
}

fn text_bytes(s: &str) -> (v: Vec<u8>)
    ensures
        v@ == encode_utf8(s@),
{
    vstd::slice::slice_to_vec(s.as_bytes())
}

/// Finds `pat` in `t` at or after `from`, with the position's bound.
fn find_in(t: &Vec<u8>, pat: &Vec<u8>, from: usize) -> (r: Option<usize>)
    ensures
        match r {
            Some(i) => find_from(t@, pat@, from as int) == Some(i as int) && i + pat@.len() <= t@.len()
                && from <= i,
            None => find_from(t@, pat@, from as int) is None,
        },
{
    let r = find_bytes(t.as_slice(), pat.as_slice(), from);
    proof {
        lemma_find_from(t@, pat@, from as int);
    }
    r
}

/// The value of the form field `field_name`, if the body holds one.
///
/// Where the body is valid UTF-8 its text is the body itself, and the value
/// is the text of the bytes between the positions found in the body.
pub fn extract_multipart_field(body: &[u8], field_name: &str) -> (r: Option<String>)
    ensures
        match field_spec(body@, field_name@) {
            Some(v) => r matches Some(s) && s@ == v,
            None => r is None,
        },
        valid_utf8(body@) ==> match field_span(body@, field_name@) {
            Some((a, b)) => r matches Some(s) && s@ == decode_utf8(body@.subrange(a, b)),
            None => r is None,
        },
{
    let text = read_lossy(body);
    let t = text_bytes(text.as_str());
    let mut search = String::new();
    push_all(&mut search, "name=\"");
    push_all(&mut search, field_name);
    push_all(&mut search, "\"");
    let pat = text_bytes(search.as_str());
    let blank = text_bytes("\r\n\r\n");
    let eol = text_bytes("\r\n");
    let tn = t.len();
    proof {
        assert(search@ == "name=\""@ + field_name@ + "\""@);
        lemma_crlf_lengths();
    }
    proof {
        if valid_utf8(body@) {
            vstd::utf8::decode_utf8_encode_utf8(body@);
            assert(t@ == body@);
        }
    }
    match find_in(&t, &pat, 0) {
        None => None,
        Some(pos) => match find_in(&t, &blank, pos) {
            None => None,
            Some(b) => {
                assert(b + 4 <= tn);
                let start = b + 4;
                let found = find_in(&t, &eol, start);
                let stop = match found {
                    Some(e) => {
                        proof {
                            lemma_find_from(t@, eol@, start as int);
                            assert(t@[e as int] == t@.subrange(e as int, e + 2)[0]);
                        }
                        e
                    },
                    None => tn,
                };
                let piece = vstd::slice::slice_subrange(t.as_slice(), start, stop);
                proof {
                    if valid_utf8(body@) {
                        lemma_find_from(t@, blank@, pos as int);
                        assert(t@[start - 1] == t@.subrange(b as int, b + 4)[3]);
                        lemma_ascii_window_valid(t@, start as int, stop as int);
                    }
                }
                Some(read_lossy(piece))
            }
        },
    }
}

/// Whether the positions found in the body text can be used in the raw body.
pub fn file_slice_fits_exec(body: &[u8]) -> (r: bool)
    ensures
        r == file_slice_fits(body@),
        valid_utf8(body@) ==> r,
{
    match locate_file(body) {
        None => true,
        Some((data_start, data_end, _, _, _)) => match data_end {
            Some(e) => e <= body.len(),
            None => data_start <= body.len(),
        },
    }
}

/// The layout of the uploaded file, with the body text it was found in.
fn locate_file(body: &[u8]) -> (r: Option<(usize, Option<usize>, usize, usize, Vec<u8>)>)
    ensures
        match (r, file_layout(body_text(body@))) {
            (None, None) => true,
            (Some((a, b, c, d, t)), Some((ds, de, ts, te))) => {
                &&& a == ds
                &&& c == ts
                &&& d == te
                &&& t@ == body_text(body@)
                &&& c <= d <= t@.len()
                &&& a <= t@.len()
                &&& valid_utf8(body@) ==> valid_utf8(t@.subrange(c as int, d as int))
                &&& match (b, de) {
                    (Some(x), Some(e)) => x == e && a <= e <= t@.len(),
                    (None, None) => true,
                    _ => false,
                }
            },
            _ => false,
        },
        valid_utf8(body@) ==> body_text(body@) == body@,
{
    let text = read_lossy(body);
    let t = text_bytes(text.as_str());
    proof {
        if valid_utf8(body@) {
            vstd::utf8::decode_utf8_encode_utf8(body@);
        }
    }
    let pat = text_bytes("name=\"file\"");
    let cth = text_bytes("Content-Type: ");
    let blank = text_bytes("\r\n\r\n");
    let eol = text_bytes("\r\n");
    let tn = t.len();
    proof {
        lemma_crlf_lengths();
        assert("name=\""@ + "file"@ + "\""@ == "name=\"file\""@) by {
            broadcast use vstd::string::group_string_axioms;
            reveal_strlit("name=\"");
            reveal_strlit("file");
            reveal_strlit("\"");
            reveal_strlit("name=\"file\"");
            assert("name=\""@ + "file"@ + "\""@ =~= "name=\"file\""@);
        }
    }
    match find_in(&t, &pat, 0) {
        None => None,
        Some(pos) => match find_in(&t, &cth, pos) {
            None => None,
            Some(c) => {
                assert(c + 14 <= tn);
                let type_start = c + 14;
                let type_end = match find_in(&t, &eol, type_start) {
                    Some(e) => {
                        proof {
                            lemma_find_from(t@, eol@, type_start as int);
                            assert(t@[e as int] == t@.subrange(e as int, e + 2)[0]);
                        }
                        e
                    },
                    None => tn,
                };
                proof {
                    if valid_utf8(body@) {
                        lemma_find_from(t@, cth@, pos as int);
                        assert(t@[type_start - 1] == t@.subrange(c as int, c + 14)[13]);
                        lemma_ascii_window_valid(t@, type_start as int, type_end as int);
                    }
                }
                match find_in(&t, &blank, c) {
                    None => None,
                    Some(b) => {
                        assert(b + 4 <= tn);
                        let data_start = b + 4;
                        let data_end = find_in(&t, &eol, data_start);
                        Some((data_start, data_end, type_start, type_end, t))
                    }
                }
            }
        },
    }
}

/// The bytes of the uploaded file and its content type; an empty file of
/// type `application/octet-stream` where the body holds none.
///
/// Where the body is valid UTF-8, the positions are those found in the body
/// itself and the content type is the text of the bytes between them.
pub fn extract_multipart_file(body: &[u8]) -> (r: (Vec<u8>, String))
    requires
        file_slice_fits(body@),
    ensures
        r.0@ == file_spec(body@).0,
        r.1@ == file_spec(body@).1,
        valid_utf8(body@) ==> match file_layout(body@) {
            Some((ds, de, ts, te)) => {
                &&& r.0@ == match de {
                    Some(e) => body@.subrange(ds, e),
                    None => body@.subrange(ds, body@.len() as int),
                }
                &&& r.1@ == decode_utf8(body@.subrange(ts, te))
            },
            None => r.0@.len() == 0 && r.1@ == "application/octet-stream"@,
        },
{
    match locate_file(body) {
        None => (Vec::new(), "application/octet-stream".to_string()),
        Some((data_start, data_end, type_start, type_end, t)) => {
            let ct = read_lossy(vstd::slice::slice_subrange(t.as_slice(), type_start, type_end));
            let data = match data_end {
                Some(e) => vstd::slice::slice_to_vec(vstd::slice::slice_subrange(body, data_start, e)),
                None => vstd::slice::slice_to_vec(vstd::slice::slice_subrange(body, data_start, body.len())),
            };
            (data, ct)
        }
    }
}

} // verus!
