//! What the store computes from what it finds on disk: object listings with
//! prefix, marker, delimiter and page size, pending multipart uploads, and
//! whether a bucket is empty. Reading the disk is the caller's part; these
//! functions take what was read, in the order in which it was read.

use vstd::prelude::*;
use crate::text::{bytes_less, chars_of, find_chars, find_from, has_prefix, str_less,
    str_starts_with, string_of, push_all, lemma_find_from, occurs_at};
use crate::request::text_is;

verus! {

/// The name of a bucket's metadata file.
pub const BUCKET_METADATA: &'static str = ".meta";
/// The name of an object's metadata file.
pub const OBJECT_METADATA: &'static str = ".meta_obj";
/// The prefix of the files that hold the parts of a multipart upload.
pub const OBJECT_CONTENT_PREFIX: &'static str = ".part_";

/// One object of a listing.
pub struct ListObjectEntry {
    pub key: String,
    pub etag: String,
    pub size: i64,
    pub last_modified: String,
    pub storage_class: String,
}

/// A page of a bucket listing.
pub struct ListObjectsResult {
    pub contents: Vec<ListObjectEntry>,
    pub common_prefixes: Vec<String>,
    pub next_marker: String,
    pub is_truncated: bool,
}

/// A bucket of a listing of buckets.
pub struct ListBucketInfo {
    pub name: String,
    pub creation_date: String,
}

/// An object metadata file met while walking a bucket: the object's key,
/// and its etag and size where the file could be read.
pub struct FoundObject {
    pub key: String,
    pub summary: Option<(String, i64)>,
}

/// The last-modified time that listings report.
pub const LISTING_LAST_MODIFIED: &'static str = "2012-02-24T08:42:32.000Z";
/// The storage class that listings report.
pub const LISTING_STORAGE_CLASS: &'static str = "Standard";

/// A found object as plain values.
pub open spec fn found_view(f: FoundObject) -> (Seq<char>, Option<(Seq<char>, i64)>) {
    (f.key@, match f.summary {
        Some(s) => Some((s.0@, s.1)),
        None => None,
    })
}

/// A listed object as plain values: key, etag, size.
pub open spec fn entry_view(e: ListObjectEntry) -> (Seq<char>, Seq<char>, i64) {
    (e.key@, e.etag@, e.size)
}

/// The progress of a listing through the objects found, in walk order.
pub struct ListingState {
    /// An object at or after the marker has been met.
    pub marker_found: bool,
    /// How many objects and common prefixes have been counted.
    pub count: nat,
    pub contents: Seq<(Seq<char>, Seq<char>, i64)>,
    pub prefixes: Seq<Seq<char>>,
    pub next_marker: Seq<char>,
    pub truncated: bool,
    /// The page is full: nothing after this is looked at.
    pub stopped: bool,
}

/// The page size a listing uses for a requested `max-keys`.
pub open spec fn listing_limit(max_keys: i32) -> nat {
    if max_keys <= 0 {
        100
    } else if max_keys < 1000 {
        max_keys as nat
    } else {
        1000
    }
}

/// The state before any object is looked at.
pub open spec fn listing_start(marker: Seq<char>) -> ListingState {
    ListingState {
        marker_found: marker.len() == 0,
        count: 0,
        contents: Seq::empty(),
        prefixes: Seq::empty(),
        next_marker: Seq::empty(),
        truncated: false,
        stopped: false,
    }
}

/// The common prefix that a key rolls up into under `/` as delimiter: the
/// requested prefix, the rest of the key up to and including its first `/`,
/// and one more `/`.
pub open spec fn rolled_prefix(prefix: Seq<char>, rest: Seq<char>, slash: int) -> Seq<char> {
    prefix + rest.subrange(0, slash + 1) + seq!['/']
}

/// Looking at one more found object.
pub open spec fn listing_step(
    st: ListingState,
    key: Seq<char>,
    summary: Option<(Seq<char>, i64)>,
    prefix: Seq<char>,
    marker: Seq<char>,
    by_slash: bool,
    limit: nat,
) -> ListingState {
    if st.stopped {
        st
    } else if !st.marker_found && bytes_less(
        vstd::utf8::encode_utf8(key),
        vstd::utf8::encode_utf8(marker),
    ) {
        st
    } else {
        let st = ListingState { marker_found: true, ..st };
        if prefix.len() > 0 && !has_prefix(key, prefix) {
            st
        } else {
            let rest = key.subrange(prefix.len() as int, key.len() as int);
            let slash = find_from(rest, seq!['/'], 0);
            if by_slash && slash is Some {
                let common = rolled_prefix(prefix, rest, slash->0);
                if st.prefixes.contains(common) {
                    st
                } else if st.count + 1 <= limit {
                    ListingState { count: st.count + 1, prefixes: st.prefixes.push(common), ..st }
                } else {
                    ListingState { count: st.count + 1, truncated: true, stopped: true, ..st }
                }
            } else if st.count + 1 <= limit {
                ListingState {
                    count: st.count + 1,
                    contents: match summary {
                        Some(s) => st.contents.push((key, s.0, s.1)),
                        None => st.contents,
                    },
                    next_marker: key,
                    ..st
                }
            } else {
                ListingState { count: st.count + 1, truncated: true, stopped: true, ..st }
            }
        }
    }
}

/// The state after looking at `found`, in order.
pub open spec fn listing_run(
    found: Seq<(Seq<char>, Option<(Seq<char>, i64)>)>,
    prefix: Seq<char>,
    marker: Seq<char>,
    by_slash: bool,
    limit: nat,
) -> ListingState
    decreases found.len(),
{
    if found.len() == 0 {
        listing_start(marker)
    } else {
        let st = listing_run(found.drop_last(), prefix, marker, by_slash, limit);
        listing_step(st, found.last().0, found.last().1, prefix, marker, by_slash, limit)
    }
}

fn contains_text(v: &Vec<String>, s: &String) -> (r: bool)
    ensures
        r == v@.map_values(|x: String| x@).contains(s@),
{
    let ghost vv = v@.map_values(|x: String| x@);
    let mut i: usize = 0;
    while i < v.len()
        invariant
            i <= v@.len(),
            vv == v@.map_values(|x: String| x@),
            forall|j: int| 0 <= j < i ==> vv[j] != s@,
        decreases v@.len() - i,
    {
        if v[i] == *s {
            assert(vv[i as int] == s@);
            return true;
        }
        i = i + 1;
    }
    false
}

/// `r` is the page that listing `found` gives for the prefix, marker,
/// delimiter and page size.
pub open spec fn is_listing(
    r: ListObjectsResult,
    found: Seq<FoundObject>,
    prefix: Seq<char>,
    marker: Seq<char>,
    delimiter: Seq<char>,
    max_keys: i32,
) -> bool {
    let st = listing_run(
        found.map_values(|f: FoundObject| found_view(f)),
        prefix,
        marker,
        delimiter == "/"@,
        listing_limit(max_keys),
    );
    &&& r.contents@.map_values(|e: ListObjectEntry| entry_view(e)) == st.contents
    &&& r.common_prefixes@.map_values(|x: String| x@) == st.prefixes
    &&& r.next_marker@ == st.next_marker
    &&& r.is_truncated == st.truncated
    &&& forall|i: int| 0 <= i < r.contents@.len() ==> {
        &&& (#[trigger] r.contents@[i]).last_modified@ == LISTING_LAST_MODIFIED@
        &&& r.contents@[i].storage_class@ == LISTING_STORAGE_CLASS@
    }
}

/// One page of the listing of a bucket, from the object metadata files found
/// while walking it, in walk order.
///
/// An object is skipped until one at or after `marker` (in byte order) has
/// been met; objects outside `prefix` are skipped; with `/` as delimiter, a
/// key that holds a `/` after the prefix is rolled up into a common prefix,
/// each counted once. Objects and common prefixes together fill a page of
/// `listing_limit(max_keys)`; the first one that does not fit marks the
/// page truncated and ends the walk. An object whose metadata could not be
/// read still counts and moves the next marker, but is not listed.
pub fn list_objects(
    found: &Vec<FoundObject>,
    prefix: &str,
    marker: &str,
    max_keys: i32,
    delimiter: &str,
) -> (r: ListObjectsResult)
    ensures
        is_listing(r, found@, prefix@, marker@, delimiter@, max_keys),
{
    let ghost fv = found@.map_values(|f: FoundObject| found_view(f));
    let ghost by_slash = delimiter@ == "/"@;
    let ghost limit = listing_limit(max_keys);
    let by_slash_x = text_is(&delimiter.to_string(), "/");
    let max: usize = if max_keys <= 0 {
        100
    } else if max_keys < 1000 {
        max_keys as usize
    } else {
        1000
    };
    let pv = chars_of(prefix);
    let prefix_len = pv.len();
    let mut slash: Vec<char> = Vec::new();
    slash.push('/');
    assert(slash@ =~= seq!['/']);

    let mut marker_found = marker.is_empty();
    let mut count: usize = 0;
    let mut contents: Vec<ListObjectEntry> = Vec::new();
    let mut prefixes: Vec<String> = Vec::new();
    let mut next_marker = String::new();
    let mut truncated = false;
    let mut stopped = false;
    let mut i: usize = 0;
    proof {
        assert(fv.take(0) =~= Seq::<(Seq<char>, Option<(Seq<char>, i64)>)>::empty());
        assert(contents@.map_values(|e: ListObjectEntry| entry_view(e)) =~= Seq::<(Seq<char>, Seq<char>, i64)>::empty());
        assert(prefixes@.map_values(|x: String| x@) =~= Seq::<Seq<char>>::empty());
    }
    while i < found.len()
        invariant
            i <= found@.len(),
            fv == found@.map_values(|f: FoundObject| found_view(f)),
            by_slash == by_slash_x,
            max == limit,
            pv@ == prefix@,
            prefix_len == pv@.len(),
            slash@ == seq!['/'],
            count <= i,
            ({
                let st = listing_run(fv.take(i as int), prefix@, marker@, by_slash, limit);
                &&& st.marker_found == marker_found
                &&& st.count == count
                &&& st.contents == contents@.map_values(|e: ListObjectEntry| entry_view(e))
                &&& st.prefixes == prefixes@.map_values(|x: String| x@)
                &&& st.next_marker == next_marker@
                &&& st.truncated == truncated
                &&& st.stopped == stopped
            }),
            forall|j: int| 0 <= j < contents@.len() ==> {
                &&& (#[trigger] contents@[j]).last_modified@ == LISTING_LAST_MODIFIED@
                &&& contents@[j].storage_class@ == LISTING_STORAGE_CLASS@
            },
        decreases found@.len() - i,
    {
        let ghost before = listing_run(fv.take(i as int), prefix@, marker@, by_slash, limit);
        proof {
            assert(fv.take(i + 1).drop_last() =~= fv.take(i as int));
            assert(fv.take(i + 1).last() == fv[i as int]);
        }
        let item = &found[i];
        let key = &item.key;
        if stopped {
        } else if !marker_found && str_less(key.as_str(), marker) {
        } else {
            marker_found = true;
            let kv = chars_of(key.as_str());
            if prefix_len > 0 && !str_starts_with(key.as_str(), prefix) {
            } else {
                proof {
                    if prefix_len > 0 {
                        assert(kv@.subrange(0, prefix_len as int) == pv@);
                    } else {
                        assert(kv@.subrange(0, 0) =~= pv@);
                    }
                }
                let ghost rest = kv@.subrange(prefix_len as int, kv@.len() as int);
                let pos = find_chars(kv.as_slice(), slash.as_slice(), prefix_len);
                proof {
                    lemma_find_shift(kv@, seq!['/'], prefix_len as int);
                }
                let rolled = by_slash_x && pos.is_some();
                if rolled {
                    let p = match pos {
                        Some(p) => p,
                        None => 0,
                    };
                    let kn = kv.len();
                    proof {
                        lemma_find_from(kv@, seq!['/'], prefix_len as int);
                        assert(find_from(kv@, seq!['/'], prefix_len as int) == Some(p as int));
                        assert(occurs_at(kv@, seq!['/'], p as int));
                    }
                    assert(p < kn);
                    let mut common = prefix.to_string();
                    let tail = string_of(kv.as_slice(), prefix_len, p + 1);
                    push_all(&mut common, tail.as_str());
                    push_all(&mut common, "/");
                    proof {
                        reveal_strlit("/");
                        assert(common@ =~= rolled_prefix(prefix@, rest, (p - prefix_len) as int));
                    }
                    if contains_text(&prefixes, &common) {
                    } else if count + 1 <= max {
                        count = count + 1;
                        prefixes.push(common);
                        proof {
                            assert(prefixes@.map_values(|x: String| x@) =~= before.prefixes.push(rolled_prefix(prefix@, rest, (p - prefix_len) as int)));
                        }
                    } else {
                        count = count + 1;
                        truncated = true;
                        stopped = true;
                    }
                } else if count + 1 <= max {
                    count = count + 1;
                    match &item.summary {
                        Some(s) => {
                            let e = ListObjectEntry {
                                key: key.clone(),
                                etag: s.0.clone(),
                                size: s.1,
                                last_modified: LISTING_LAST_MODIFIED.to_string(),
                                storage_class: LISTING_STORAGE_CLASS.to_string(),
                            };
                            contents.push(e);
                            proof {
                                assert(contents@.map_values(|e: ListObjectEntry| entry_view(e)) =~= before.contents.push((kv@, s.0@, s.1)));
                            }
                        }
                        None => {}
                    }
                    next_marker = key.clone();
                } else {
                    count = count + 1;
                    truncated = true;
                    stopped = true;
                }
            }
        }
        i = i + 1;
    }
    proof {
        assert(fv.take(found@.len() as int) =~= fv);
    }
    ListObjectsResult {
        contents,
        common_prefixes: prefixes,
        next_marker,
        is_truncated: truncated,
    }
}

/// Searching from `start` in `s` finds what searching from 0 in the rest of
/// `s` finds, shifted by `start`.
pub proof fn lemma_find_shift(s: Seq<char>, pat: Seq<char>, start: int)
    requires
        0 <= start <= s.len(),
    ensures
        match find_from(s.subrange(start, s.len() as int), pat, 0) {
            Some(k) => find_from(s, pat, start) == Some(k + start),
            None => find_from(s, pat, start) is None,
        },
{
    let rest = s.subrange(start, s.len() as int);
    lemma_find_from(s, pat, start);
    lemma_find_from(rest, pat, 0);
    assert forall|j: int| 0 <= j implies occurs_at(rest, pat, j) == occurs_at(s, pat, j + start) by {
        if j + pat.len() <= rest.len() {
            assert(rest.subrange(j, j + pat.len()) =~= s.subrange(j + start, j + start + pat.len()));
        }
    }
    match find_from(rest, pat, 0) {
        Some(k) => {
            let m = find_from(s, pat, start);
            assert(occurs_at(s, pat, k + start));
            if m is None {
            } else {
                let mm = m->0;
                assert(occurs_at(rest, pat, mm - start));
            }
        }
        None => {
            if find_from(s, pat, start) is Some {
                let mm = find_from(s, pat, start)->0;
                assert(occurs_at(rest, pat, mm - start));
            }
        }
    }
}

/// What holds of every state that a listing passes through.
pub open spec fn listing_sound(st: ListingState, prefix: Seq<char>, by_slash: bool, limit: nat) -> bool {
    let stop: nat = if st.stopped { 1 } else { 0 };
    &&& st.contents.len() + st.prefixes.len() + stop <= st.count
    &&& st.count <= limit + stop
    &&& st.truncated == st.stopped
    &&& st.prefixes.no_duplicates()
    &&& forall|i: int| 0 <= i < st.contents.len() ==> has_prefix(#[trigger] st.contents[i].0, prefix)
    &&& forall|i: int| 0 <= i < st.prefixes.len() ==> has_prefix(#[trigger] st.prefixes[i], prefix)
    &&& by_slash ==> forall|i: int| 0 <= i < st.contents.len() ==> !crate::text::holds(
        (#[trigger] st.contents[i]).0.subrange(prefix.len() as int, st.contents[i].0.len() as int),
        seq!['/'],
    )
}

/// Every page of a listing holds at most the page size of objects and
/// common prefixes together; it is marked truncated exactly when an item
/// was left out for want of room; no common prefix is listed twice; every
/// listed key and common prefix begins with the requested prefix; and with
/// `/` as delimiter no listed key holds a `/` after the prefix.
pub proof fn law_listing_page(
    found: Seq<(Seq<char>, Option<(Seq<char>, i64)>)>,
    prefix: Seq<char>,
    marker: Seq<char>,
    by_slash: bool,
    limit: nat,
)
    ensures
        ({
            let st = listing_run(found, prefix, marker, by_slash, limit);
            &&& st.contents.len() + st.prefixes.len() <= limit
            &&& st.truncated ==> st.count == limit + 1
            &&& listing_sound(st, prefix, by_slash, limit)
        }),
    decreases found.len(),
{
    if found.len() > 0 {
        law_listing_page(found.drop_last(), prefix, marker, by_slash, limit);
        let st0 = listing_run(found.drop_last(), prefix, marker, by_slash, limit);
        let key = found.last().0;
        let st = listing_run(found, prefix, marker, by_slash, limit);
        if !st0.stopped && (st0.marker_found || !bytes_less(
            vstd::utf8::encode_utf8(key),
            vstd::utf8::encode_utf8(marker),
        )) && (prefix.len() == 0 || has_prefix(key, prefix)) {
            let rest = key.subrange(prefix.len() as int, key.len() as int);
            let slash = find_from(rest, seq!['/'], 0);
            if prefix.len() == 0 {
                assert(key.subrange(0, 0) =~= prefix);
            }
            if by_slash && slash is Some {
                let k = slash->0;
                lemma_find_from(rest, seq!['/'], 0);
                let common = rolled_prefix(prefix, rest, k);
                assert(common.subrange(0, prefix.len() as int) =~= prefix);
                if !st0.prefixes.contains(common) && st0.count + 1 <= limit {
                    assert(st.prefixes == st0.prefixes.push(common));
                    assert forall|i: int| 0 <= i < st.prefixes.len() implies has_prefix(#[trigger] st.prefixes[i], prefix) by {
                        if i < st0.prefixes.len() {
                            assert(st.prefixes[i] == st0.prefixes[i]);
                        }
                    }
                    assert(st.prefixes.no_duplicates()) by {
                        assert forall|a: int, b: int| 0 <= a < st.prefixes.len() && 0 <= b < st.prefixes.len() && a != b implies st.prefixes[a] != st.prefixes[b] by {
                            if a == st0.prefixes.len() as int {
                                assert(st.prefixes[b] == st0.prefixes[b]);
                            } else if b == st0.prefixes.len() as int {
                                assert(st.prefixes[a] == st0.prefixes[a]);
                            } else {
                                assert(st0.prefixes[a] != st0.prefixes[b]);
                            }
                        }
                    }
                }
            } else if st0.count + 1 <= limit {
                if by_slash {
                    lemma_find_from(rest, seq!['/'], 0);
                }
                assert forall|i: int| 0 <= i < st.contents.len() implies has_prefix(#[trigger] st.contents[i].0, prefix) by {
                    if i < st0.contents.len() {
                        assert(st.contents[i] == st0.contents[i]);
                    }
                }
                assert(by_slash ==> forall|i: int| 0 <= i < st.contents.len() ==> !crate::text::holds(
                    (#[trigger] st.contents[i]).0.subrange(prefix.len() as int, st.contents[i].0.len() as int),
                    seq!['/'],
                )) by {
                    if by_slash {
                        assert forall|i: int| 0 <= i < st.contents.len() implies !crate::text::holds(
                            (#[trigger] st.contents[i]).0.subrange(prefix.len() as int, st.contents[i].0.len() as int),
                            seq!['/'],
                        ) by {
                            if i < st0.contents.len() {
                                assert(st.contents[i] == st0.contents[i]);
                            }
                        }
                    }
                }
            }
        }
    }
}

/// `k` is where the first `/` of `s` stands.
pub proof fn lemma_first_slash(s: Seq<char>, k: int)
    requires
        0 <= k < s.len(),
        s[k] == '/',
        forall|j: int| 0 <= j < k ==> s[j] != '/',
    ensures
        find_from(s, seq!['/'], 0) == Some(k),
{
    lemma_find_from(s, seq!['/'], 0);
    assert(s.subrange(k, k + 1) =~= seq!['/']);
    match find_from(s, seq!['/'], 0) {
        Some(j) => {
            assert(occurs_at(s, seq!['/'], k));
            if j < k {
                assert(s.subrange(j, j + 1)[0] == s[j]);
            }
        },
        None => {
            assert(occurs_at(s, seq!['/'], k));
        },
    }
}

/// `s` holds no `/`.
pub proof fn lemma_no_slash(s: Seq<char>)
    requires
        forall|j: int| 0 <= j < s.len() ==> s[j] != '/',
    ensures
        find_from(s, seq!['/'], 0) is None,
{
    lemma_find_from(s, seq!['/'], 0);
    if let Some(j) = find_from(s, seq!['/'], 0) {
        assert(s.subrange(j, j + 1)[0] == s[j]);
    }
}

/// A key that rolls up into a common prefix already on the page (the
/// requested prefix, the rest of the key up to and including its first `/`,
/// and one more `/`) takes no room on the page, ends nothing and lists
/// nothing: the listing only notes that the marker has been met.
pub proof fn law_repeated_prefix_takes_no_room(
    st: ListingState,
    key: Seq<char>,
    summary: Option<(Seq<char>, i64)>,
    prefix: Seq<char>,
    marker: Seq<char>,
    limit: nat,
    k: int,
)
    requires
        !st.stopped,
        st.marker_found || !bytes_less(vstd::utf8::encode_utf8(key), vstd::utf8::encode_utf8(marker)),
        prefix.len() <= key.len(),
        key.subrange(0, prefix.len() as int) == prefix,
        prefix.len() <= k < key.len(),
        key[k] == '/',
        forall|j: int| prefix.len() <= j < k ==> key[j] != '/',
        st.prefixes.contains(key.subrange(0, k + 1) + seq!['/']),
    ensures
        listing_step(st, key, summary, prefix, marker, true, limit)
            == (ListingState { marker_found: true, ..st }),
{
    let rest = key.subrange(prefix.len() as int, key.len() as int);
    let kk = k - prefix.len();
    assert(rest[kk] == key[k]);
    assert forall|j: int| 0 <= j < kk implies rest[j] != '/' by {
        assert(rest[j] == key[j + prefix.len()]);
    }
    lemma_first_slash(rest, kk);
    assert(prefix + rest.subrange(0, kk + 1) + seq!['/'] =~= key.subrange(0, k + 1) + seq!['/']);
}

/// A key at or after the marker, within the prefix and not rolled up, is
/// listed (where its record could be read) and becomes the next marker when
/// the page has room for it; when the page is full, the page is marked
/// truncated and the walk ends, nothing more being listed.
pub proof fn law_plain_key_is_listed(
    st: ListingState,
    key: Seq<char>,
    summary: Option<(Seq<char>, i64)>,
    prefix: Seq<char>,
    marker: Seq<char>,
    by_slash: bool,
    limit: nat,
)
    requires
        !st.stopped,
        st.marker_found || !bytes_less(vstd::utf8::encode_utf8(key), vstd::utf8::encode_utf8(marker)),
        prefix.len() <= key.len(),
        key.subrange(0, prefix.len() as int) == prefix,
        by_slash ==> forall|j: int| prefix.len() <= j < key.len() ==> key[j] != '/',
    ensures
        ({
            let next = listing_step(st, key, summary, prefix, marker, by_slash, limit);
            &&& next.marker_found
            &&& next.prefixes == st.prefixes
            &&& next.count == st.count + 1
            &&& if st.count < limit {
                &&& next.contents == match summary {
                    Some(x) => st.contents.push((key, x.0, x.1)),
                    None => st.contents,
                }
                &&& next.next_marker == key
                &&& next.truncated == st.truncated
                &&& !next.stopped
            } else {
                &&& next.contents == st.contents
                &&& next.next_marker == st.next_marker
                &&& next.truncated
                &&& next.stopped
            }
        }),
{
    let rest = key.subrange(prefix.len() as int, key.len() as int);
    if by_slash {
        assert forall|j: int| 0 <= j < rest.len() implies rest[j] != '/' by {
            assert(rest[j] == key[j + prefix.len()]);
        }
        lemma_no_slash(rest);
    }
}

/// A key before the marker, met while no key at or after the marker has
/// been, changes nothing; a key outside the requested prefix changes
/// nothing but noting that the marker has been met.
pub proof fn law_skipped_keys_change_nothing(
    st: ListingState,
    key: Seq<char>,
    summary: Option<(Seq<char>, i64)>,
    prefix: Seq<char>,
    marker: Seq<char>,
    by_slash: bool,
    limit: nat,
)
    ensures
        !st.marker_found && bytes_less(vstd::utf8::encode_utf8(key), vstd::utf8::encode_utf8(marker))
            ==> listing_step(st, key, summary, prefix, marker, by_slash, limit) == st,
        !st.stopped && (st.marker_found || !bytes_less(vstd::utf8::encode_utf8(key), vstd::utf8::encode_utf8(marker)))
            && !(prefix.len() <= key.len() && key.subrange(0, prefix.len() as int) == prefix)
            ==> listing_step(st, key, summary, prefix, marker, by_slash, limit)
                == (ListingState { marker_found: true, ..st }),
        st.stopped ==> listing_step(st, key, summary, prefix, marker, by_slash, limit) == st,
{
    if prefix.len() == 0 {
        assert(key.subrange(0, 0) =~= prefix);
    }
}

/// An entry of the store's root directory: its name, whether it is a
/// directory, and whether it holds a bucket metadata file.
pub struct RootEntry {
    pub name: String,
    pub is_dir: bool,
    pub has_bucket_metadata: bool,
}

/// The names of the directories among `entries` that hold a bucket
/// metadata file, in order.
pub open spec fn bucket_names_spec(entries: Seq<RootEntry>) -> Seq<Seq<char>>
    decreases entries.len(),
{
    if entries.len() == 0 {
        Seq::empty()
    } else {
        let rest = bucket_names_spec(entries.drop_last());
        let e = entries.last();
        if e.is_dir && e.has_bucket_metadata {
            rest.push(e.name@)
        } else {
            rest
        }
    }
}

/// The buckets of the store: the directories of its root that hold a bucket
/// metadata file, in the order they were read.
pub fn select_buckets(entries: &Vec<RootEntry>) -> (r: Vec<String>)
    ensures
        r@.map_values(|x: String| x@) == bucket_names_spec(entries@),
{
    let mut r: Vec<String> = Vec::new();
    let mut i: usize = 0;
    while i < entries.len()
        invariant
            i <= entries@.len(),
            r@.map_values(|x: String| x@) == bucket_names_spec(entries@.take(i as int)),
        decreases entries@.len() - i,
    {
        proof {
            assert(entries@.take(i + 1).drop_last() =~= entries@.take(i as int));
        }
        let ghost before = r@;
        if entries[i].is_dir && entries[i].has_bucket_metadata {
            r.push(entries[i].name.clone());
            proof {
                assert(r@.map_values(|x: String| x@) =~= before.map_values(|x: String| x@).push(entries@[i as int].name@));
            }
        }
        i = i + 1;
    }
    assert(entries@.take(entries@.len() as int) =~= entries@);
    r
}

/// A bucket is empty when its directory holds nothing but its metadata file.
pub fn holds_only_metadata(names: &Vec<String>) -> (r: bool)
    ensures
        r == forall|i: int| 0 <= i < names@.len() ==> (#[trigger] names@[i])@ == BUCKET_METADATA@,
{
    let mut i: usize = 0;
    while i < names.len()
        invariant
            i <= names@.len(),
            forall|j: int| 0 <= j < i ==> (#[trigger] names@[j])@ == BUCKET_METADATA@,
        decreases names@.len() - i,
    {
        if !text_is(&names[i], BUCKET_METADATA) {
            return false;
        }
        i = i + 1;
    }
    true
}

/// An entry of a bucket's directory, as the search for pending uploads sees
/// it: its name, whether it is a directory, whether it holds an object
/// metadata file, and the names (readable as text) of the files in it.
pub struct BucketEntry {
    pub name: String,
    pub is_dir: bool,
    pub has_object_metadata: bool,
    pub file_names: Vec<String>,
}

/// An entry holds an upload that is not complete: a directory without an
/// object metadata file, holding a part file.
pub open spec fn is_pending_upload(e: BucketEntry) -> bool {
    &&& e.is_dir
    &&& !e.has_object_metadata
    &&& exists|j: int| 0 <= j < e.file_names@.len() && has_prefix((#[trigger] e.file_names@[j])@, OBJECT_CONTENT_PREFIX@)
}

/// The upload id every pending upload reports.
pub const UPLOAD_ID: &'static str = "0000000";

fn has_part_file(names: &Vec<String>) -> (r: bool)
    ensures
        r == exists|j: int| 0 <= j < names@.len() && has_prefix((#[trigger] names@[j])@, OBJECT_CONTENT_PREFIX@),
{
    let mut i: usize = 0;
    while i < names.len()
        invariant
            i <= names@.len(),
            forall|j: int| 0 <= j < i ==> !has_prefix((#[trigger] names@[j])@, OBJECT_CONTENT_PREFIX@),
        decreases names@.len() - i,
    {
        if str_starts_with(names[i].as_str(), OBJECT_CONTENT_PREFIX) {
            return true;
        }
        i = i + 1;
    }
    false
}

/// The names of the entries that hold an upload that is not complete, in order.
pub open spec fn pending_spec(entries: Seq<BucketEntry>) -> Seq<Seq<char>>
    decreases entries.len(),
{
    if entries.len() == 0 {
        Seq::empty()
    } else {
        let rest = pending_spec(entries.drop_last());
        if is_pending_upload(entries.last()) {
            rest.push(entries.last().name@)
        } else {
            rest
        }
    }
}

/// The uploads of a bucket that are not complete, as (object key, upload
/// id), in the order the entries were read.
pub fn pending_uploads(entries: &Vec<BucketEntry>) -> (r: Vec<(String, String)>)
    ensures
        r@.map_values(|x: (String, String)| x.0@) == pending_spec(entries@),
        forall|i: int| 0 <= i < r@.len() ==> (#[trigger] r@[i]).1@ == UPLOAD_ID@,
{
    let mut r: Vec<(String, String)> = Vec::new();
    let mut i: usize = 0;
    while i < entries.len()
        invariant
            i <= entries@.len(),
            r@.map_values(|x: (String, String)| x.0@) == pending_spec(entries@.take(i as int)),
            forall|k: int| 0 <= k < r@.len() ==> (#[trigger] r@[k]).1@ == UPLOAD_ID@,
        decreases entries@.len() - i,
    {
        proof {
            assert(entries@.take(i + 1).drop_last() =~= entries@.take(i as int));
        }
        let ghost before = r@;
        let e = &entries[i];
        if e.is_dir && !e.has_object_metadata && has_part_file(&e.file_names) {
            r.push((e.name.clone(), UPLOAD_ID.to_string()));
            proof {
                assert(r@.map_values(|x: (String, String)| x.0@) =~= before.map_values(|x: (String, String)| x.0@).push(entries@[i as int].name@));
            }
        }
        i = i + 1;
    }
    assert(entries@.take(entries@.len() as int) =~= entries@);
    r
}

/// The buckets whose record could be read, with their creation dates, in order.
pub open spec fn infos_spec(found: Seq<(String, Option<String>)>) -> Seq<(Seq<char>, Seq<char>)>
    decreases found.len(),
{
    if found.len() == 0 {
        Seq::empty()
    } else {
        let rest = infos_spec(found.drop_last());
        match found.last().1 {
            Some(d) => rest.push((found.last().0@, d@)),
            None => rest,
        }
    }
}

/// The buckets a listing of buckets reports: those whose record could be
/// read, with the creation date it holds, in order.
pub fn bucket_infos(found: &Vec<(String, Option<String>)>) -> (r: Vec<ListBucketInfo>)
    ensures
        r@.map_values(|b: ListBucketInfo| (b.name@, b.creation_date@)) == infos_spec(found@),
{
    let mut r: Vec<ListBucketInfo> = Vec::new();
    let mut i: usize = 0;
    while i < found.len()
        invariant
            i <= found@.len(),
            r@.map_values(|b: ListBucketInfo| (b.name@, b.creation_date@)) == infos_spec(found@.take(i as int)),
        decreases found@.len() - i,
    {
        proof {
            assert(found@.take(i + 1).drop_last() =~= found@.take(i as int));
        }
        let ghost before = r@;
        match &found[i].1 {
            Some(date) => {
                r.push(ListBucketInfo { name: found[i].0.clone(), creation_date: date.clone() });
                proof {
                    assert(r@.map_values(|b: ListBucketInfo| (b.name@, b.creation_date@)) =~= before.map_values(|b: ListBucketInfo| (b.name@, b.creation_date@)).push((found@[i as int].0@, date@)));
                }
            }
            None => {}
        }
        i = i + 1;
    }
    assert(found@.take(found@.len() as int) =~= found@);
    r
}

} // verus!
