//! The decisions of the request handlers. Each function takes what the
//! handler read (headers, stored records, file contents) and says what to
//! store and what to answer; reading and writing files is the caller's part.

pub mod bucket;
pub mod object;
pub mod multipart;
pub mod bucket_config;

use vstd::prelude::*;
use crate::error::ErrorKind;
use vstd::utf8::valid_utf8;
use crate::form::{extract_multipart_field, extract_multipart_file, field_spec, file_slice_fits,
    file_spec};
use crate::models::{BucketConfig, DeleteRequest, Metadata, Part, fresh_metadata};
use crate::storage::{ListBucketInfo, ListObjectsResult};
use crate::params::Params;
use crate::range::{parse_part_copy_range, parse_range, range_spec, window_fits, window_stop,
    range_window, content_range, content_range_spec};
use crate::request::{header_or_empty, leading_slashes, split_from, text_is};
use crate::text::{chars_of, find_chars, find_from, holds, parse_i32, parse_i32_spec, parse_i64,
    parse_i64_spec, str_contains, string_of, lemma_find_from, occurs_at};
use crate::config::MAX_OBJECT_FILE_SIZE;

verus! {

/// The md5 that stored objects report.
pub const ZERO_MD5: &'static str = "00000000000000000000000000000000";
/// The content type of objects whose type is not given.
pub const OCTET_STREAM: &'static str = "application/octet-stream";

/// The value of header `name` where the headers give one.
pub open spec fn header_value(h: Map<Seq<char>, Seq<char>>, name: Seq<char>) -> Option<Seq<char>> {
    if h.contains_key(name) {
        Some(h[name])
    } else {
        None
    }
}

/// The body comes in chunks: `Transfer-Encoding` mentions `chunked`.
pub open spec fn is_chunked_spec(h: Map<Seq<char>, Seq<char>>) -> bool {
    match header_value(h, "transfer-encoding"@) {
        Some(v) => holds(v, "chunked"@),
        None => false,
    }
}

/// The body comes in chunks.
pub fn is_chunked(headers: &Params) -> (r: bool)
    ensures
        r == is_chunked_spec(headers@),
{
    match headers.get("transfer-encoding") {
        Some(v) => str_contains(v.as_str(), "chunked"),
        None => false,
    }
}

/// The length that `Content-Length` gives, or -1 where it gives none that
/// can be read.
pub open spec fn content_length_spec(h: Map<Seq<char>, Seq<char>>) -> i64 {
    match header_value(h, "content-length"@) {
        Some(v) => match parse_i64_spec(v) {
            Some(n) => n,
            None => -1i64,
        },
        None => -1i64,
    }
}

/// The length that `Content-Length` gives, or -1.
pub fn content_length(headers: &Params) -> (n: i64)
    ensures
        n == content_length_spec(headers@),
{
    match headers.get("content-length") {
        Some(v) => match parse_i64(v.as_str()) {
            Some(n) => n,
            None => -1,
        },
        None => -1,
    }
}

/// Whether an upload may be stored: a length must be given unless the body
/// comes in chunks, and it must not pass the largest object size.
pub open spec fn put_object_check_spec(h: Map<Seq<char>, Seq<char>>) -> Result<(), ErrorKind> {
    let n = content_length_spec(h);
    if n < 0 && !is_chunked_spec(h) {
        Err(ErrorKind::MissingContentLength)
    } else if n > MAX_OBJECT_FILE_SIZE {
        Err(ErrorKind::InvalidArgument)
    } else {
        Ok(())
    }
}

/// Whether an upload may be stored.
pub fn put_object_check(headers: &Params) -> (r: Result<(), ErrorKind>)
    ensures
        r == put_object_check_spec(headers@),
{
    let n = content_length(headers);
    if n < 0 && !is_chunked(headers) {
        Err(ErrorKind::MissingContentLength)
    } else if n > MAX_OBJECT_FILE_SIZE {
        Err(ErrorKind::InvalidArgument)
    } else {
        Ok(())
    }
}

/// What an upload's length decides: an upload whose `Content-Length` reads
/// as a length from 0 up to 5 GiB is accepted (an empty upload too), one
/// longer than 5 GiB is refused as an invalid argument, and one without a
/// `Content-Length` is accepted only where `Transfer-Encoding` says its body
/// comes in chunks.
pub proof fn law_upload_length_rules(h: Map<Seq<char>, Seq<char>>)
    ensures
        (h.contains_key("content-length"@) && (parse_i64_spec(h["content-length"@]) matches Some(n)
            && 0 <= n <= 5368709120)) ==> put_object_check_spec(h) is Ok,
        (h.contains_key("content-length"@) && (parse_i64_spec(h["content-length"@]) matches Some(n)
            && n > 5368709120)) ==> put_object_check_spec(h) == Err::<(), ErrorKind>(ErrorKind::InvalidArgument),
        (!h.contains_key("content-length"@) && !h.contains_key("transfer-encoding"@))
            ==> put_object_check_spec(h) == Err::<(), ErrorKind>(ErrorKind::MissingContentLength),
        (!h.contains_key("content-length"@) && h.contains_key("transfer-encoding"@)
            && holds(h["transfer-encoding"@], "chunked"@)) ==> put_object_check_spec(h) is Ok,
{
}

/// The content type a header gives, or `application/octet-stream`.
pub open spec fn content_type_or_default(h: Map<Seq<char>, Seq<char>>) -> Seq<char> {
    match header_value(h, "content-type"@) {
        Some(v) => v,
        None => OCTET_STREAM@,
    }
}

/// The content type a header gives, or `application/octet-stream`.
pub fn content_type_of(headers: &Params) -> (s: String)
    ensures
        s@ == content_type_or_default(headers@),
{
    match headers.get("content-type") {
        Some(v) => v.clone(),
        None => OCTET_STREAM.to_string(),
    }
}

/// A record that is fresh but for the listed fields.
pub open spec fn fresh_but(m: Metadata, bucket: Seq<char>, object: Seq<char>) -> bool {
    &&& m.bucket@ == bucket
    &&& m.object@ == object
    &&& m.acl@ == "default"@
    &&& m.content_disposition@.len() == 0
    &&& m.content_encoding@.len() == 0
    &&& m.part_size == 0
    &&& m.oss_metadata@ == Map::<Seq<char>, Seq<char>>::empty()
    &&& m.custom_metadata@ == Map::<Seq<char>, Seq<char>>::empty()
    &&& m.restore_status is None
}

/// The record of an object written whole: its size, content type and the
/// zero md5; not appendable, no link target, no dates.
pub fn object_metadata(bucket: &str, object: &str, size: i64, content_type: String) -> (m: Metadata)
    ensures
        fresh_but(m, bucket@, object@),
        m.size == size,
        m.content_type@ == content_type@,
        m.md5@ == ZERO_MD5@,
        !m.appendable,
        m.symlink_target@.len() == 0,
        m.creation_date@.len() == 0,
        m.modified_date@.len() == 0,
{
    let mut m = Metadata::new(bucket, object);
    m.size = size;
    m.content_type = content_type;
    m.md5 = ZERO_MD5.to_string();
    m
}

/// What a read of an object answers with: the whole content, or the part a
/// range selects with its `Content-Range`.
pub enum ObjectRead {
    Whole { data: Vec<u8>, content_type: String },
    Part { data: Vec<u8>, content_type: String, content_range: String },
}

/// The type an object is served with: the stored one, or
/// `application/octet-stream` where none is stored.
pub open spec fn served_type(stored: Seq<char>) -> Seq<char> {
    if stored.len() == 0 {
        OCTET_STREAM@
    } else {
        stored
    }
}

/// The range a read asks for, where the `Range` header gives one that can
/// be read.
pub open spec fn read_range(range: Option<Seq<char>>, len: nat) -> Option<(i64, i64)> {
    match range {
        Some(t) => range_spec(t, len as i64),
        None => None,
    }
}

/// The range of a read can be served: where one is asked for, its window
/// lies in the data (elsewhere the service fails).
pub open spec fn read_range_fits(range: Option<Seq<char>>, len: nat) -> bool {
    match read_range(range, len) {
        Some((a, b)) => window_fits(a, b, len),
        None => true,
    }
}

/// `r` is what a read of an object holding `data`, stored with type
/// `stored`, answers with, where the request's `Range` header is `range`.
pub open spec fn is_read(r: ObjectRead, data: Seq<u8>, stored: Seq<char>, range: Option<Seq<char>>) -> bool {
    match read_range(range, data.len()) {
        None => r matches ObjectRead::Whole { data: d, content_type: t } && d@ == data
            && t@ == served_type(stored),
        Some((a, b)) => r matches ObjectRead::Part { data: d, content_type: t, content_range: c }
            && d@ == data.subrange(a as int, window_stop(b, data.len()))
            && t@ == served_type(stored)
            && c@ == content_range_spec(a as int, window_stop(b, data.len()), data.len() as int),
    }
}

/// What a read of an object holding `data` answers with.
pub fn read_object(data: Vec<u8>, stored_type: &String, range: Option<&String>) -> (r: ObjectRead)
    requires
        data@.len() <= i64::MAX,
        read_range_fits(match range {
            Some(t) => Some(t@),
            None => None,
        }, data@.len()),
    ensures
        is_read(r, data@, stored_type@, match range {
            Some(t) => Some(t@),
            None => None,
        }),
{
    let content_type = if stored_type.as_str().is_empty() {
        OCTET_STREAM.to_string()
    } else {
        stored_type.clone()
    };
    let n = data.len();
    if let Some(text) = range {
        if let Some(rg) = parse_range(text.as_str(), n as i64) {
            let (from, to) = range_window(rg.start, rg.end, n);
            let part = vstd::slice::slice_to_vec(vstd::slice::slice_subrange(data.as_slice(), from, to));
            let cr = content_range(rg.start, to as i64, n as u64);
            return ObjectRead::Part { data: part, content_type, content_range: cr };
        }
    }
    ObjectRead::Whole { data, content_type }
}

/// Whether the range of a read can be served.
pub fn read_range_fits_exec(len: usize, range: Option<&String>) -> (r: bool)
    requires
        len <= i64::MAX,
    ensures
        r == read_range_fits(match range {
            Some(t) => Some(t@),
            None => None,
        }, len as nat),
{
    match range {
        None => true,
        Some(text) => match parse_range(text.as_str(), len as i64) {
            None => true,
            Some(rg) => crate::range::window_fits_exec(rg.start, rg.end, len),
        },
    }
}

/// The record of an object after an append: `size` bytes, the given content
/// type, the zero md5, appendable.
pub open spec fn appended_record(m: Metadata, bucket: Seq<char>, object: Seq<char>, size: int, content_type: Seq<char>) -> bool {
    &&& fresh_but(m, bucket, object)
    &&& m.size == size
    &&& m.content_type@ == content_type
    &&& m.md5@ == ZERO_MD5@
    &&& m.appendable
    &&& m.symlink_target@.len() == 0
    &&& m.creation_date@.len() == 0
    &&& m.modified_date@.len() == 0
}

/// An append: refused where the object exists and is not appendable,
/// otherwise the record of the object after it.
pub fn append_object_plan(
    bucket: &str,
    object: &str,
    existing: Option<&Metadata>,
    current_size: i64,
    body_len: usize,
    content_type: String,
) -> (r: Result<Metadata, ErrorKind>)
    requires
        0 <= current_size,
        current_size + body_len <= i64::MAX,
    ensures
        match existing {
            Some(m) if !m.appendable => r == Err::<Metadata, ErrorKind>(ErrorKind::ObjectNotAppendable),
            _ => r matches Ok(m) && appended_record(m, bucket@, object@, current_size + body_len, content_type@),
        },
{
    if let Some(m) = existing {
        if !m.appendable {
            return Err(ErrorKind::ObjectNotAppendable);
        }
    }
    let mut m = Metadata::new(bucket, object);
    m.size = current_size + body_len as i64;
    m.content_type = content_type;
    m.md5 = ZERO_MD5.to_string();
    m.appendable = true;
    Ok(m)
}

/// The source that an `x-oss-copy-source` header names: after its leading
/// `/` characters, the bucket up to the next `/`, and the object after it;
/// nothing where there is no such `/`.
pub open spec fn copy_source_spec(h: Seq<char>) -> Option<(Seq<char>, Seq<char>)> {
    let (b, o, has_slash) = split_from(h, leading_slashes(h) as int);
    if has_slash {
        Some((b, o))
    } else {
        None
    }
}

fn count_leading(v: &Vec<char>) -> (n: usize)
    ensures
        n == leading_slashes(v@),
        n <= v@.len(),
{
    let mut i: usize = 0;
    assert(v@.skip(0) =~= v@);
    while i < v.len() && v[i] == '/'
        invariant
            i <= v@.len(),
            leading_slashes(v@) == i + leading_slashes(v@.skip(i as int)),
        decreases v@.len() - i,
    {
        proof {
            assert(v@.skip(i as int).drop_first() =~= v@.skip(i + 1));
        }
        i = i + 1;
    }
    proof {
        if i < v@.len() {
            assert(v@.skip(i as int)[0] == v@[i as int]);
        }
    }
    i
}

fn split_at_slash(v: &Vec<char>, start: usize) -> (r: (String, String, bool))
    requires
        start <= v@.len(),
    ensures
        (r.0@, r.1@, r.2) == split_from(v@, start as int),
{
    let n = v.len();
    let mut slash: Vec<char> = Vec::new();
    slash.push('/');
    assert(slash@ =~= seq!['/']);
    match find_chars(v.as_slice(), slash.as_slice(), start) {
        Some(k) => {
            proof {
                lemma_find_from(v@, seq!['/'], start as int);
                assert(occurs_at(v@, seq!['/'], k as int));
            }
            assert(k < n);
            (string_of(v.as_slice(), start, k), string_of(v.as_slice(), k + 1, n), true)
        }
        None => (string_of(v.as_slice(), start, n), String::new(), false),
    }
}

/// The bucket and object an `x-oss-copy-source` header names.
pub fn parse_copy_source(header: &String) -> (r: Option<(String, String)>)
    ensures
        match copy_source_spec(header@) {
            Some((b, o)) => r matches Some((x, y)) && x@ == b && y@ == o,
            None => r is None,
        },
{
    let v = chars_of(header.as_str());
    let lead = count_leading(&v);
    let (b, o, has_slash) = split_at_slash(&v, lead);
    if has_slash {
        Some((b, o))
    } else {
        None
    }
}

/// The record of a copied object: its size, binary content, the zero md5,
/// and the two times it was stamped with.
pub fn copied_metadata(bucket: &str, object: &str, size: i64, created: String, modified: String) -> (m: Metadata)
    ensures
        fresh_but(m, bucket@, object@),
        m.size == size,
        m.content_type@ == OCTET_STREAM@,
        m.md5@ == ZERO_MD5@,
        !m.appendable,
        m.symlink_target@.len() == 0,
        m.creation_date@ == created@,
        m.modified_date@ == modified@,
{
    let mut m = Metadata::new(bucket, object);
    m.size = size;
    m.content_type = OCTET_STREAM.to_string();
    m.md5 = ZERO_MD5.to_string();
    m.creation_date = created;
    m.modified_date = modified;
    m
}

/// What a bucket creation does.
pub enum CreateBucketPlan {
    /// There are as many buckets as allowed.
    TooMany,
    /// Store this record for the new bucket.
    Create(Metadata),
    /// The bucket exists already; nothing is stored.
    Keep,
}

/// The access control a new bucket gets: the one the `x-oss-acl` header
/// gives, or `private`.
pub open spec fn bucket_acl_spec(h: Map<Seq<char>, Seq<char>>) -> Seq<char> {
    match header_value(h, "x-oss-acl"@) {
        Some(v) => v,
        None => "private"@,
    }
}

/// What a bucket creation does, given how many buckets there are, whether
/// this one exists, and the two times it is stamped with.
pub fn create_bucket_plan(
    bucket: &str,
    bucket_count: usize,
    exists: bool,
    headers: &Params,
    created: String,
    modified: String,
) -> (r: CreateBucketPlan)
    ensures
        bucket_count >= crate::config::MAX_BUCKET_NUM ==> r is TooMany,
        bucket_count < crate::config::MAX_BUCKET_NUM && exists ==> r is Keep,
        bucket_count < crate::config::MAX_BUCKET_NUM && !exists ==> (r matches CreateBucketPlan::Create(m)
            && m.bucket@ == bucket@ && m.object@.len() == 0 && m.acl@ == bucket_acl_spec(headers@)
            && m.creation_date@ == created@ && m.modified_date@ == modified@
            && m.size == 0 && m.content_type@.len() == 0 && m.md5@.len() == 0 && !m.appendable
            && m.symlink_target@.len() == 0 && m.restore_status is None),
{
    if bucket_count >= crate::config::MAX_BUCKET_NUM {
        return CreateBucketPlan::TooMany;
    }
    if exists {
        return CreateBucketPlan::Keep;
    }
    let acl = match headers.get("x-oss-acl") {
        Some(v) => v.clone(),
        None => "private".to_string(),
    };
    let mut m = Metadata::new(bucket, "");
    proof {
        reveal_strlit("");
    }
    m.acl = acl;
    m.creation_date = created;
    m.modified_date = modified;
    CreateBucketPlan::Create(m)
}

/// The record of a symbolic link: empty, binary, the zero md5, and its target.
pub fn symlink_metadata(bucket: &str, object: &str, target: String) -> (m: Metadata)
    ensures
        fresh_but(m, bucket@, object@),
        m.size == 0,
        m.content_type@ == OCTET_STREAM@,
        m.md5@ == ZERO_MD5@,
        !m.appendable,
        m.symlink_target@ == target@,
        m.creation_date@.len() == 0,
        m.modified_date@.len() == 0,
{
    let mut m = Metadata::new(bucket, object);
    m.content_type = OCTET_STREAM.to_string();
    m.md5 = ZERO_MD5.to_string();
    m.symlink_target = target;
    m
}

/// The bucket and object a link target names: the text up to the first `/`
/// and the text after it; nothing where there is no `/`.
pub open spec fn link_parts_spec(t: Seq<char>) -> Option<(Seq<char>, Seq<char>)> {
    let (b, o, has_slash) = split_from(t, 0);
    if has_slash {
        Some((b, o))
    } else {
        None
    }
}

/// The bucket and object a link target names.
pub fn symlink_target_parts(target: &String) -> (r: Option<(String, String)>)
    ensures
        match link_parts_spec(target@) {
            Some((b, o)) => r matches Some((x, y)) && x@ == b && y@ == o,
            None => r is None,
        },
{
    let v = chars_of(target.as_str());
    let (b, o, has_slash) = split_at_slash(&v, 0);
    if has_slash {
        Some((b, o))
    } else {
        None
    }
}

/// The size and etag a link reports where its target cannot be read.
pub fn default_target_info() -> (r: (i64, String))
    ensures
        r.0 == 0,
        r.1@ == ZERO_MD5@,
{
    (0, ZERO_MD5.to_string())
}

/// The size and etag a link reports: those of its target where the target's
/// record could be read.
pub fn symlink_target_info(target: Option<&Metadata>) -> (r: (i64, String))
    ensures
        match target {
            Some(m) => r.0 == m.size && r.1@ == m.md5@,
            None => r.0 == 0 && r.1@ == ZERO_MD5@,
        },
{
    match target {
        Some(m) => (m.size, m.md5.clone()),
        None => default_target_info(),
    }
}

/// Marks an object as being restored.
pub fn mark_restoring(m: &mut Metadata)
    ensures
        final(m).restore_status matches Some(s) && s@ == "ongoing-request"@,
        final(m).bucket == old(m).bucket,
        final(m).object == old(m).object,
        final(m).size == old(m).size,
        final(m).md5 == old(m).md5,
        final(m).content_type == old(m).content_type,
        final(m).appendable == old(m).appendable,
        final(m).symlink_target == old(m).symlink_target,
{
    m.restore_status = Some("ongoing-request".to_string());
}

/// The object a form upload stores: its key, bytes and content type.
pub struct PostedObject {
    pub key: String,
    pub data: Vec<u8>,
    pub content_type: String,
}

/// The key a form upload names: the `key` field, or the empty text.
pub open spec fn posted_key(body: Seq<u8>) -> Seq<char> {
    match field_spec(body, "key"@) {
        Some(k) => k,
        None => Seq::empty(),
    }
}

/// A form upload: refused where it names no key, otherwise the key and the
/// uploaded file.
pub fn post_object_plan(body: &[u8]) -> (r: Result<PostedObject, ErrorKind>)
    requires
        posted_key(body@).len() > 0 ==> file_slice_fits(body@),
    ensures
        posted_key(body@).len() == 0 ==> r == Err::<PostedObject, ErrorKind>(ErrorKind::BadRequest),
        posted_key(body@).len() > 0 ==> (r matches Ok(p) && p.key@ == posted_key(body@)
            && p.data@ == file_spec(body@).0 && p.content_type@ == file_spec(body@).1),
{
    let key = match extract_multipart_field(body, "key") {
        Some(k) => k,
        None => String::new(),
    };
    if key.as_str().is_empty() {
        return Err(ErrorKind::BadRequest);
    }
    let (data, content_type) = extract_multipart_file(body);
    Ok(PostedObject { key, data, content_type })
}

/// Whether a form upload can be served (where it names a key, the file's
/// positions lie in the body).
pub fn post_object_servable(body: &[u8]) -> (r: bool)
    ensures
        r == (posted_key(body@).len() > 0 ==> file_slice_fits(body@)),
        valid_utf8(body@) ==> r,
{
    let key = match extract_multipart_field(body, "key") {
        Some(k) => k,
        None => String::new(),
    };
    if key.as_str().is_empty() {
        true
    } else {
        crate::form::file_slice_fits_exec(body)
    }
}

/// The part number a query names, or 0 where it names none that can be read.
pub open spec fn part_number_spec(q: Map<Seq<char>, Seq<char>>) -> i32 {
    match header_value(q, "partNumber"@) {
        Some(v) => match parse_i32_spec(v) {
            Some(n) => n,
            None => 0i32,
        },
        None => 0i32,
    }
}

/// The part number a query names, or 0.
pub fn part_number(query: &Params) -> (n: i32)
    ensures
        n == part_number_spec(query@),
{
    match query.get("partNumber") {
        Some(v) => match parse_i32(v.as_str()) {
            Some(n) => n,
            None => 0,
        },
        None => 0,
    }
}

/// The sum of the lengths of the parts that could be read.
pub open spec fn parts_size(parts: Seq<Option<Seq<u8>>>) -> int
    decreases parts.len(),
{
    if parts.len() == 0 {
        0
    } else {
        parts_size(parts.drop_last()) + match parts.last() {
            Some(d) => d.len() as int,
            None => 0,
        }
    }
}

/// The parts that could be read, one after the other.
pub open spec fn parts_data(parts: Seq<Option<Seq<u8>>>) -> Seq<u8>
    decreases parts.len(),
{
    if parts.len() == 0 {
        Seq::empty()
    } else {
        parts_data(parts.drop_last()) + match parts.last() {
            Some(d) => d,
            None => Seq::empty(),
        }
    }
}

/// The parts as plain values.
pub open spec fn parts_view(parts: Seq<Option<Vec<u8>>>) -> Seq<Option<Seq<u8>>> {
    parts.map_values(|p: Option<Vec<u8>>| match p {
        Some(d) => Some(d@),
        None => None,
    })
}

/// The size recorded for a completed multipart upload is the length of the
/// content it stores: the total of the parts that could be read is the
/// length of their concatenation.
pub proof fn law_completed_size_is_content_length(parts: Seq<Option<Seq<u8>>>)
    ensures
        parts_size(parts) == parts_data(parts).len(),
        parts_size(parts) >= 0,
    decreases parts.len(),
{
    if parts.len() > 0 {
        law_completed_size_is_content_length(parts.drop_last());
    }
}

/// The content of a completed multipart upload: the parts that could be
/// read, in order, and their total size.
pub fn merge_parts(parts: &Vec<Option<Vec<u8>>>) -> (r: (Vec<u8>, i64))
    requires
        parts_size(parts_view(parts@)) <= i64::MAX,
    ensures
        r.0@ == parts_data(parts_view(parts@)),
        r.1 == parts_size(parts_view(parts@)),
{
    let ghost pv = parts_view(parts@);
    let mut merged: Vec<u8> = Vec::new();
    let mut total: i64 = 0;
    let mut i: usize = 0;
    while i < parts.len()
        invariant
            i <= parts@.len(),
            pv == parts_view(parts@),
            parts_size(pv) <= i64::MAX,
            merged@ == parts_data(pv.take(i as int)),
            total == parts_size(pv.take(i as int)),
        decreases parts@.len() - i,
    {
        proof {
            assert(pv.take(i + 1).drop_last() =~= pv.take(i as int));
            law_completed_size_is_content_length(pv.take(i + 1));
            law_completed_size_is_content_length(pv);
            lemma_parts_take_size(pv, i + 1);
        }
        match &parts[i] {
            Some(d) => {
                let mut k: usize = 0;
                let ghost start = merged@;
                while k < d.len()
                    invariant
                        k <= d@.len(),
                        merged@ == start + d@.subrange(0, k as int),
                    decreases d@.len() - k,
                {
                    merged.push(d[k]);
                    assert(d@.subrange(0, k + 1) =~= d@.subrange(0, k as int).push(d@[k as int]));
                    k = k + 1;
                }
                assert(d@.subrange(0, d@.len() as int) =~= d@);
                total = total + d.len() as i64;
            }
            None => {}
        }
        i = i + 1;
    }
    assert(pv.take(parts@.len() as int) =~= pv);
    (merged, total)
}

proof fn lemma_parts_take_size(parts: Seq<Option<Seq<u8>>>, k: int)
    requires
        0 <= k <= parts.len(),
    ensures
        parts_size(parts.take(k)) <= parts_size(parts),
    decreases parts.len(),
{
    if k < parts.len() {
        assert(parts.drop_last().take(k) =~= parts.take(k));
        lemma_parts_take_size(parts.drop_last(), k);
    } else {
        assert(parts.take(k) =~= parts);
    }
}

/// The record of a completed multipart upload: its size and the zero md5.
pub fn completed_metadata(bucket: &str, object: &str, size: i64) -> (m: Metadata)
    ensures
        fresh_but(m, bucket@, object@),
        m.size == size,
        m.content_type@.len() == 0,
        m.md5@ == ZERO_MD5@,
        !m.appendable,
        m.symlink_target@.len() == 0,
        m.creation_date@.len() == 0,
        m.modified_date@.len() == 0,
{
    let mut m = Metadata::new(bucket, object);
    m.size = size;
    m.md5 = ZERO_MD5.to_string();
    m
}

/// The parts of an upload as listed: for each part file found, in order of
/// part number from 1, its size where it could be read and the time it was
/// looked at; parts that could not be read are left out but keep their number.
pub fn list_parts_of(found: &Vec<(Option<u64>, String)>) -> (r: Vec<Part>)
    requires
        found@.len() < i32::MAX,
        forall|i: int| 0 <= i < found@.len() ==> ((#[trigger] found@[i]).0 matches Some(n) ==> n <= i64::MAX),
    ensures
        r@.len() <= found@.len(),
        forall|i: int| 0 <= i < r@.len() ==> {
            let p = #[trigger] r@[i];
            &&& 1 <= p.part_number <= found@.len()
            &&& (found@[p.part_number - 1].0 matches Some(n) && p.size == n)
            &&& p.last_modified@ == found@[p.part_number - 1].1@
            &&& p.etag@ == "00000000000"@
        },
        forall|i: int, j: int| 0 <= i < j < r@.len() ==> r@[i].part_number < r@[j].part_number,
        forall|m: int| 0 <= m < found@.len() && (#[trigger] found@[m]).0 is Some ==> exists|i: int|
            0 <= i < r@.len() && (#[trigger] r@[i]).part_number == m + 1,
{
    let mut parts: Vec<Part> = Vec::new();
    let mut i: usize = 0;
    while i < found.len()
        invariant
            i <= found@.len(),
            found@.len() < i32::MAX,
            forall|k: int| 0 <= k < found@.len() ==> ((#[trigger] found@[k]).0 matches Some(n) ==> n <= i64::MAX),
            parts@.len() <= i,
            forall|k: int| 0 <= k < parts@.len() ==> {
                let p = #[trigger] parts@[k];
                &&& 1 <= p.part_number <= i
                &&& (found@[p.part_number - 1].0 matches Some(n) && p.size == n)
                &&& p.last_modified@ == found@[p.part_number - 1].1@
                &&& p.etag@ == "00000000000"@
            },
            forall|a: int, b: int| 0 <= a < b < parts@.len() ==> parts@[a].part_number < parts@[b].part_number,
            forall|m: int| 0 <= m < i && (#[trigger] found@[m]).0 is Some ==> exists|k: int|
                0 <= k < parts@.len() && (#[trigger] parts@[k]).part_number == m + 1,
        decreases found@.len() - i,
    {
        match found[i].0 {
            Some(size) => {
                let ghost old_parts = parts@;
                let p = Part {
                    part_number: (i + 1) as i32,
                    last_modified: found[i].1.clone(),
                    etag: "00000000000".to_string(),
                    size: size as i64,
                };
                parts.push(p);
                proof {
                    let last = parts@.len() - 1;
                    assert(parts@[last].part_number == i + 1);
                    assert forall|m: int| 0 <= m < i + 1 && (#[trigger] found@[m]).0 is Some implies exists|k: int|
                        0 <= k < parts@.len() && (#[trigger] parts@[k]).part_number == m + 1 by {
                        if m == i {
                            assert(parts@[last].part_number == m + 1);
                        } else {
                            assert(found@[m].0 is Some);
                            let k = choose|k: int| 0 <= k < old_parts.len() && (#[trigger] old_parts[k]).part_number == m + 1;
                            assert(parts@[k] == old_parts[k]);
                            assert(parts@[k].part_number == m + 1);
                        }
                    }
                }
            }
            None => {
                proof {
                    assert forall|m: int| 0 <= m < i + 1 && (#[trigger] found@[m]).0 is Some implies exists|k: int|
                        0 <= k < parts@.len() && (#[trigger] parts@[k]).part_number == m + 1 by {
                        if m < i {
                            let k = choose|k: int| 0 <= k < parts@.len() && (#[trigger] parts@[k]).part_number == m + 1;
                        }
                    }
                }
            }
        }
        i = i + 1;
    }
    parts
}

/// The keys a multiple delete names, in order: each is removed and reported.
pub fn deleted_keys(req: &DeleteRequest) -> (r: Vec<String>)
    ensures
        r@.len() == req.objects@.len(),
        forall|i: int| 0 <= i < r@.len() ==> (#[trigger] r@[i])@ == req.objects@[i].key@,
{
    let mut keys: Vec<String> = Vec::new();
    let mut i: usize = 0;
    while i < req.objects.len()
        invariant
            i <= req.objects@.len(),
            keys@.len() == i,
            forall|k: int| 0 <= k < i ==> (#[trigger] keys@[k])@ == req.objects@[k].key@,
        decreases req.objects@.len() - i,
    {
        keys.push(req.objects[i].key.clone());
        i = i + 1;
    }
    keys
}

/// The listing a bucket read asks for: prefix, marker, page size and
/// delimiter, each defaulting where the query does not give it (the page
/// size to 100, also where it cannot be read).
pub struct ListingQuery {
    pub prefix: String,
    pub marker: String,
    pub max_keys: i32,
    pub delimiter: String,
}

/// The page size a query asks for.
pub open spec fn max_keys_spec(q: Map<Seq<char>, Seq<char>>) -> i32 {
    let t = match header_value(q, "max-keys"@) {
        Some(v) => v,
        None => "100"@,
    };
    match parse_i32_spec(t) {
        Some(n) => n,
        None => 100i32,
    }
}

/// The listing a bucket read asks for.
pub fn listing_query(query: &Params) -> (r: ListingQuery)
    ensures
        r.prefix@ == header_or_empty(query@, "prefix"@),
        r.marker@ == header_or_empty(query@, "marker"@),
        r.delimiter@ == header_or_empty(query@, "delimiter"@),
        r.max_keys == max_keys_spec(query@),
{
    let max_text = match query.get("max-keys") {
        Some(v) => v.clone(),
        None => "100".to_string(),
    };
    let max_keys = match parse_i32(max_text.as_str()) {
        Some(n) => n,
        None => 100,
    };
    ListingQuery {
        prefix: query.get_or_empty("prefix"),
        marker: query.get_or_empty("marker"),
        max_keys,
        delimiter: query.get_or_empty("delimiter"),
    }
}

/// The bytes a part copy takes from its source: the window of the range the
/// `x-oss-copy-source-range` header asks for, or all of them.
pub fn copy_part_data(data: Vec<u8>, range: Option<&String>) -> (r: Vec<u8>)
    requires
        data@.len() <= i64::MAX,
        read_range_fits(match range {
            Some(t) => Some(t@),
            None => None,
        }, data@.len()),
    ensures
        match read_range(match range {
            Some(t) => Some(t@),
            None => None,
        }, data@.len()) {
            None => r@ == data@,
            Some((a, b)) => r@ == data@.subrange(a as int, window_stop(b, data@.len())),
        },
{
    let n = data.len();
    if let Some(text) = range {
        if let Some(rg) = parse_part_copy_range(text.as_str(), n as i64) {
            let (from, to) = range_window(rg.start, rg.end, n);
            return vstd::slice::slice_to_vec(vstd::slice::slice_subrange(data.as_slice(), from, to));
        }
    }
    data
}


// ------------------------------------------------------------------
// Steps of a handler
// ------------------------------------------------------------------

/// What a request is answered with. Each answer is written out by the
/// `OssResponse` function of the same name.
pub enum Answer {
    NoSuchBucket(String),
    /// An object that does not exist: its bucket and key.
    NoSuchObject(String, String),
    Error(ErrorKind),
    NotImplemented,
    NoSuchConfiguration,
    /// The bare failure of a write.
    ServerError,
    PutBucket,
    PutObject,
    NoContent,
    Accepted,
    PutSymlink,
    CopyObject,
    OkBucketConfig,
    UploadPartCopy,
    BucketInfo(String),
    BucketAcl,
    BucketLocation,
    ObjectAcl,
    HeadObject(i64),
    ObjectMeta(i64),
    AppendObject(i64),
    /// The start of a multipart upload: bucket and key.
    Initiated(String, String),
    /// The completion of a multipart upload: bucket and key.
    Completed(String, String),
    Buckets(Vec<ListBucketInfo>),
    /// A page of a bucket listing: the bucket, what was asked, what was found.
    Objects(String, ListingQuery, ListObjectsResult),
    /// The parts of an upload: bucket, key, parts.
    Parts(String, String, Vec<Part>),
    /// The pending uploads of a bucket: bucket, (key, upload id) pairs.
    Uploads(String, Vec<(String, String)>),
    Deleted(Vec<String>),
    Content(ObjectRead),
    /// A link: its target, and the target's etag and size.
    Symlink(String, String, i64),
    ConfigDocument(String),
}

/// A change to the store, made on the request's bucket.
pub enum Effect {
    /// Remove an object's directory with all it holds.
    RemoveObject(String),
    /// Create an object's directory.
    MakeObjectDir(String),
    /// Write an object's content.
    WriteContent(String, Vec<u8>),
    /// Add bytes to the end of an object's content.
    AppendContent(String, Vec<u8>),
    /// Write a part of a multipart upload: key, part number, bytes.
    WritePart(String, i32, Vec<u8>),
    /// Store an object's record.
    SaveObjectMeta(String, Metadata),
    /// Create the bucket's directory.
    MakeBucketDir,
    /// Store the bucket's record.
    SaveBucketMeta(Metadata),
    /// Remove the bucket with all it holds.
    DeleteBucket,
    /// Store the bucket's configuration.
    SaveBucketConfig(BucketConfig),
}

/// An effect as plain values.
pub enum EffectView {
    RemoveObject(Seq<char>),
    MakeObjectDir(Seq<char>),
    WriteContent(Seq<char>, Seq<u8>),
    AppendContent(Seq<char>, Seq<u8>),
    WritePart(Seq<char>, i32, Seq<u8>),
    SaveObjectMeta(Seq<char>, Metadata),
    MakeBucketDir,
    SaveBucketMeta(Metadata),
    DeleteBucket,
    SaveBucketConfig(BucketConfig),
}

impl View for Effect {
    type V = EffectView;

    open spec fn view(&self) -> EffectView {
        match *self {
            Effect::RemoveObject(k) => EffectView::RemoveObject(k@),
            Effect::MakeObjectDir(k) => EffectView::MakeObjectDir(k@),
            Effect::WriteContent(k, d) => EffectView::WriteContent(k@, d@),
            Effect::AppendContent(k, d) => EffectView::AppendContent(k@, d@),
            Effect::WritePart(k, n, d) => EffectView::WritePart(k@, n, d@),
            Effect::SaveObjectMeta(k, m) => EffectView::SaveObjectMeta(k@, m),
            Effect::MakeBucketDir => EffectView::MakeBucketDir,
            Effect::SaveBucketMeta(m) => EffectView::SaveBucketMeta(m),
            Effect::DeleteBucket => EffectView::DeleteBucket,
            Effect::SaveBucketConfig(c) => EffectView::SaveBucketConfig(c),
        }
    }
}

/// The effects of a step as plain values.
pub open spec fn effects_view(e: Seq<Effect>) -> Seq<EffectView> {
    e.map_values(|x: Effect| x@)
}

/// What a handler does once it has read what it needs: the changes to make,
/// in order, and the answer. Where `guarded` names an effect by its
/// position, a failure of that effect ends the request with the answer
/// given beside it; failures of the other effects are passed over.
pub struct Step {
    pub effects: Vec<Effect>,
    pub answer: Answer,
    pub guarded: Option<(usize, Answer)>,
}

/// A step that changes nothing.
pub fn answer_only(answer: Answer) -> (s: Step)
    ensures
        s.effects@.len() == 0,
        s.answer == answer,
        s.guarded is None,
{
    Step { effects: Vec::new(), answer, guarded: None }
}

} // verus!
