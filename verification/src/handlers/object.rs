//! The decisions of the object handlers.

use vstd::prelude::*;
use crate::error::ErrorKind;
use crate::form::{body_text, field_pattern, file_layout, file_slice_fits, file_spec};
use vstd::utf8::{encode_utf8, valid_utf8};
use crate::handlers::bucket::{no_bucket, only_answers, refused_no_bucket};
use crate::handlers::{
    answer_only, append_object_plan, appended_record, content_type_of, content_type_or_default,
    copied_metadata, copy_source_spec, effects_view, fresh_but, header_value, is_read,
    link_parts_spec, mark_restoring, object_metadata, parse_copy_source, post_object_plan,
    post_object_servable, posted_key, put_object_check, put_object_check_spec, read_object, read_range, read_range_fits,
    served_type, window_stop, ObjectRead,
    symlink_metadata, symlink_target_info, symlink_target_parts, Answer, Effect, EffectView, Step,
    OCTET_STREAM, ZERO_MD5,
};
use crate::models::{DeleteRequest, Metadata, fresh_metadata};
use crate::params::Params;
use crate::response::{is_utc_stamp, rfc3339_now};
use crate::text::{find_from, lemma_find_from};

verus! {

/// The record of an object written whole: `size` bytes of the given content
/// type, the zero md5; not appendable, no link target, no dates.
pub open spec fn written_record(m: Metadata, bucket: Seq<char>, object: Seq<char>, size: int, content_type: Seq<char>) -> bool {
    &&& fresh_but(m, bucket, object)
    &&& m.size == size
    &&& m.content_type@ == content_type
    &&& m.md5@ == ZERO_MD5@
    &&& !m.appendable
    &&& m.symlink_target@.len() == 0
    &&& m.creation_date@.len() == 0
    &&& m.modified_date@.len() == 0
}

/// `r` answers that the object does not exist.
pub open spec fn no_object(r: Answer, bucket: Seq<char>, object: Seq<char>) -> bool {
    r matches Answer::NoSuchObject(b, o) && b@ == bucket && o@ == object
}

/// An option of text as plain values.
pub open spec fn text_opt(t: Option<&String>) -> Option<Seq<char>> {
    match t {
        Some(x) => Some(x@),
        None => None,
    }
}

/// Stores an object from a write: the object's directory is made anew,
/// the body written (a failure ends the request with a bare server error)
/// and the record stored. Refused where the headers give no length and the
/// body does not come in chunks, or a length past the largest object size.
pub fn put_object(bucket: &str, object: &str, exists: bool, headers: &Params, body: Vec<u8>) -> (r: Step)
    requires
        body@.len() <= i64::MAX,
    ensures
        !exists ==> refused_no_bucket(r, bucket@),
        exists ==> match put_object_check_spec(headers@) {
            Err(e) => only_answers(r, Answer::Error(e)),
            Ok(_) => {
                &&& r.answer is PutObject
                &&& r.guarded matches Some((i, a)) && i == 2 && a is ServerError
                &&& r.effects@.len() == 4
                &&& r.effects@[0]@ == EffectView::RemoveObject(object@)
                &&& r.effects@[1]@ == EffectView::MakeObjectDir(object@)
                &&& r.effects@[2]@ == EffectView::WriteContent(object@, body@)
                &&& r.effects@[3] matches Effect::SaveObjectMeta(k, m) && k@ == object@
                    && written_record(m, bucket@, object@, body@.len() as int, content_type_or_default(headers@))
            },
        },
{
    if !exists {
        return answer_only(Answer::NoSuchBucket(bucket.to_string()));
    }
    if let Err(e) = put_object_check(headers) {
        return answer_only(Answer::Error(e));
    }
    let size = body.len() as i64;
    let meta = object_metadata(bucket, object, size, content_type_of(headers));
    let mut effects: Vec<Effect> = Vec::new();
    effects.push(Effect::RemoveObject(object.to_string()));
    effects.push(Effect::MakeObjectDir(object.to_string()));
    effects.push(Effect::WriteContent(object.to_string(), body));
    effects.push(Effect::SaveObjectMeta(object.to_string(), meta));
    Step { effects, answer: Answer::PutObject, guarded: Some((2, Answer::ServerError)) }
}

/// Reads an object: its record `meta` and its content `data` where they
/// could be read, and the request's `Range` header.
pub fn get_object(
    bucket: &str,
    object: &str,
    exists: bool,
    meta: Option<&Metadata>,
    data: Option<Vec<u8>>,
    range: Option<&String>,
) -> (r: Answer)
    requires
        exists && meta is Some ==> match data {
            Some(d) => d@.len() <= i64::MAX && read_range_fits(text_opt(range), d@.len()),
            None => true,
        },
    ensures
        !exists ==> no_bucket(r, bucket@),
        exists ==> match (meta, data) {
            (Some(m), Some(d)) => r matches Answer::Content(x) && is_read(x, d@, m.content_type@, text_opt(range)),
            _ => no_object(r, bucket@, object@),
        },
{
    if !exists {
        return Answer::NoSuchBucket(bucket.to_string());
    }
    match (meta, data) {
        (Some(m), Some(d)) => Answer::Content(read_object(d, &m.content_type, range)),
        _ => Answer::NoSuchObject(bucket.to_string(), object.to_string()),
    }
}

/// The headers of an object, from its record where it could be read.
pub fn head_object(bucket: &str, object: &str, exists: bool, meta: Option<&Metadata>) -> (r: Answer)
    ensures
        !exists ==> no_bucket(r, bucket@),
        exists ==> match meta {
            Some(m) => r == Answer::HeadObject(m.size),
            None => no_object(r, bucket@, object@),
        },
{
    if !exists {
        return Answer::NoSuchBucket(bucket.to_string());
    }
    match meta {
        Some(m) => Answer::HeadObject(m.size),
        None => Answer::NoSuchObject(bucket.to_string(), object.to_string()),
    }
}

/// Deletes an object: its directory is removed, whether or not it existed.
pub fn delete_object(bucket: &str, object: &str, exists: bool) -> (r: Step)
    ensures
        !exists ==> refused_no_bucket(r, bucket@),
        exists ==> {
            &&& effects_view(r.effects@) == seq![EffectView::RemoveObject(object@)]
            &&& r.answer is NoContent
            &&& r.guarded is None
        },
{
    if !exists {
        return answer_only(Answer::NoSuchBucket(bucket.to_string()));
    }
    let mut effects: Vec<Effect> = Vec::new();
    effects.push(Effect::RemoveObject(object.to_string()));
    assert(effects_view(effects@) =~= seq![EffectView::RemoveObject(object@)]);
    Step { effects, answer: Answer::NoContent, guarded: None }
}

/// The metadata of an object, from its record where it could be read.
pub fn get_object_meta_handler(bucket: &str, object: &str, exists: bool, meta: Option<&Metadata>) -> (r: Answer)
    ensures
        !exists ==> no_bucket(r, bucket@),
        exists ==> match meta {
            Some(m) => r == Answer::ObjectMeta(m.size),
            None => no_object(r, bucket@, object@),
        },
{
    if !exists {
        return Answer::NoSuchBucket(bucket.to_string());
    }
    match meta {
        Some(m) => Answer::ObjectMeta(m.size),
        None => Answer::NoSuchObject(bucket.to_string(), object.to_string()),
    }
}

/// The access control of an object, given whether its record could be read.
pub fn get_object_acl_handler(bucket: &str, object: &str, exists: bool, has_record: bool) -> (r: Answer)
    ensures
        !exists ==> no_bucket(r, bucket@),
        exists && !has_record ==> no_object(r, bucket@, object@),
        exists && has_record ==> r is ObjectAcl,
{
    if !exists {
        return Answer::NoSuchBucket(bucket.to_string());
    }
    if !has_record {
        return Answer::NoSuchObject(bucket.to_string(), object.to_string());
    }
    Answer::ObjectAcl
}

/// A write of an object's access control, given whether its record could
/// be read: accepted, nothing is stored.
pub fn put_object_acl_handler(bucket: &str, object: &str, exists: bool, has_record: bool) -> (r: Answer)
    ensures
        !exists ==> no_bucket(r, bucket@),
        exists && !has_record ==> no_object(r, bucket@, object@),
        exists && has_record ==> r is PutObject,
{
    if !exists {
        return Answer::NoSuchBucket(bucket.to_string());
    }
    if !has_record {
        return Answer::NoSuchObject(bucket.to_string(), object.to_string());
    }
    Answer::PutObject
}

/// Appends to an object. `existing` is its record where one is stored and
/// could be read, `current_size` the length of its content (0 where there
/// is none). The object's directory is made first, also where the append is
/// refused because the object is not appendable.
pub fn append_object(
    bucket: &str,
    object: &str,
    exists: bool,
    existing: Option<&Metadata>,
    current_size: u64,
    headers: &Params,
    body: Vec<u8>,
) -> (r: Step)
    requires
        current_size + body@.len() <= i64::MAX,
    ensures
        !exists ==> refused_no_bucket(r, bucket@),
        exists ==> r.guarded is None && match existing {
            Some(m) if !m.appendable => {
                &&& effects_view(r.effects@) == seq![EffectView::MakeObjectDir(object@)]
                &&& r.answer == Answer::Error(ErrorKind::ObjectNotAppendable)
            },
            _ => {
                &&& r.answer == Answer::AppendObject((current_size + body@.len()) as i64)
                &&& r.effects@.len() == 3
                &&& r.effects@[0]@ == EffectView::MakeObjectDir(object@)
                &&& r.effects@[1]@ == EffectView::AppendContent(object@, body@)
                &&& r.effects@[2] matches Effect::SaveObjectMeta(k, m) && k@ == object@
                    && appended_record(m, bucket@, object@, current_size + body@.len(), content_type_or_default(headers@))
            },
        },
{
    if !exists {
        return answer_only(Answer::NoSuchBucket(bucket.to_string()));
    }
    let mut effects: Vec<Effect> = Vec::new();
    effects.push(Effect::MakeObjectDir(object.to_string()));
    let n = body.len();
    match append_object_plan(bucket, object, existing, current_size as i64, n, content_type_of(headers)) {
        Err(e) => {
            assert(effects_view(effects@) =~= seq![EffectView::MakeObjectDir(object@)]);
            Step { effects, answer: Answer::Error(e), guarded: None }
        },
        Ok(m) => {
            let next = m.size;
            effects.push(Effect::AppendContent(object.to_string(), body));
            effects.push(Effect::SaveObjectMeta(object.to_string(), m));
            Step { effects, answer: Answer::AppendObject(next), guarded: None }
        },
    }
}

/// The record of a copied object: its size, binary content, the zero md5,
/// not appendable, no link target.
pub open spec fn copied_record(m: Metadata, bucket: Seq<char>, object: Seq<char>, size: int) -> bool {
    &&& fresh_but(m, bucket, object)
    &&& m.size == size
    &&& m.content_type@ == OCTET_STREAM@
    &&& m.md5@ == ZERO_MD5@
    &&& !m.appendable
    &&& m.symlink_target@.len() == 0
}

/// Copies an object into the request's bucket and key. `copy_source` is the
/// `x-oss-copy-source` header; `src_exists` and `data` are whether the
/// source bucket exists and the source's content where it could be read.
/// A destination bucket that does not exist is made, with a fresh record.
/// The copy's record is stamped with the current time (in UTC).
pub fn copy_object(
    dst_bucket: &str,
    dst_object: &str,
    copy_source: Option<&String>,
    src_exists: bool,
    data: Option<Vec<u8>>,
    dst_exists: bool,
) -> (r: Step)
    requires
        data matches Some(d) ==> d@.len() <= i64::MAX,
    ensures
        r.guarded is None,
        match copy_source {
            None => only_answers(r, Answer::NotImplemented),
            Some(h) => match copy_source_spec(h@) {
                None => only_answers(r, Answer::NotImplemented),
                Some((sb, so)) => if !src_exists {
                    r.effects@.len() == 0 && no_bucket(r.answer, sb)
                } else {
                    match data {
                        None => r.effects@.len() == 0 && no_object(r.answer, sb, so),
                        Some(d) => {
                            let k: int = if dst_exists { 0 } else { 2 };
                            &&& r.answer is CopyObject
                            &&& r.effects@.len() == k + 3
                            &&& !dst_exists ==> r.effects@[0]@ == EffectView::MakeBucketDir
                                && (r.effects@[1] matches Effect::SaveBucketMeta(m) && fresh_metadata(m, dst_bucket@, ""@))
                            &&& r.effects@[k]@ == EffectView::MakeObjectDir(dst_object@)
                            &&& r.effects@[k + 1]@ == EffectView::WriteContent(dst_object@, d@)
                            &&& r.effects@[k + 2] matches Effect::SaveObjectMeta(o, m) && o@ == dst_object@
                                && copied_record(m, dst_bucket@, dst_object@, d@.len() as int)
                                && is_utc_stamp(m.creation_date@) && is_utc_stamp(m.modified_date@)
                        },
                    }
                },
            },
        },
{
    let header = match copy_source {
        Some(h) => h,
        None => return answer_only(Answer::NotImplemented),
    };
    let (src_bucket, src_object) = match parse_copy_source(header) {
        Some(p) => p,
        None => return answer_only(Answer::NotImplemented),
    };
    if !src_exists {
        return answer_only(Answer::NoSuchBucket(src_bucket));
    }
    let d = match data {
        Some(d) => d,
        None => return answer_only(Answer::NoSuchObject(src_bucket, src_object)),
    };
    let mut effects: Vec<Effect> = Vec::new();
    if !dst_exists {
        effects.push(Effect::MakeBucketDir);
        effects.push(Effect::SaveBucketMeta(Metadata::new(dst_bucket, "")));
    }
    let size = d.len() as i64;
    let created = rfc3339_now();
    let modified = rfc3339_now();
    let meta = copied_metadata(dst_bucket, dst_object, size, created, modified);
    effects.push(Effect::MakeObjectDir(dst_object.to_string()));
    effects.push(Effect::WriteContent(dst_object.to_string(), d));
    effects.push(Effect::SaveObjectMeta(dst_object.to_string(), meta));
    Step { effects, answer: Answer::CopyObject, guarded: None }
}

/// Deletes the objects a multiple delete names, in order. `request` is the
/// body read as such a request, or nothing where it could not be read.
pub fn delete_multiple_objects(bucket: &str, exists: bool, request: Option<&DeleteRequest>) -> (r: Step)
    ensures
        !exists ==> refused_no_bucket(r, bucket@),
        exists ==> r.guarded is None && match request {
            None => r.effects@.len() == 0 && r.answer == Answer::Error(ErrorKind::BadRequest),
            Some(req) => {
                &&& r.effects@.len() == req.objects@.len()
                &&& forall|i: int| 0 <= i < r.effects@.len() ==>
                    (#[trigger] r.effects@[i])@ == EffectView::RemoveObject(req.objects@[i].key@)
                &&& r.answer matches Answer::Deleted(keys) && keys@.len() == req.objects@.len()
                    && forall|i: int| 0 <= i < keys@.len() ==> (#[trigger] keys@[i])@ == req.objects@[i].key@
            },
        },
{
    if !exists {
        return answer_only(Answer::NoSuchBucket(bucket.to_string()));
    }
    let req = match request {
        Some(q) => q,
        None => return answer_only(Answer::Error(ErrorKind::BadRequest)),
    };
    let mut effects: Vec<Effect> = Vec::new();
    let mut keys: Vec<String> = Vec::new();
    let mut i: usize = 0;
    while i < req.objects.len()
        invariant
            i <= req.objects@.len(),
            effects@.len() == i,
            keys@.len() == i,
            forall|j: int| 0 <= j < i ==> (#[trigger] effects@[j])@ == EffectView::RemoveObject(req.objects@[j].key@),
            forall|j: int| 0 <= j < i ==> (#[trigger] keys@[j])@ == req.objects@[j].key@,
        decreases req.objects@.len() - i,
    {
        effects.push(Effect::RemoveObject(req.objects[i].key.clone()));
        keys.push(req.objects[i].key.clone());
        i = i + 1;
    }
    Step { effects, answer: Answer::Deleted(keys), guarded: None }
}

/// Stores a symbolic link: an empty object whose record names the target
/// the `x-oss-symlink-target` header gives. Refused without that header.
pub fn put_symlink(bucket: &str, object: &str, exists: bool, headers: &Params) -> (r: Step)
    ensures
        !exists ==> refused_no_bucket(r, bucket@),
        exists ==> r.guarded is None && match header_value(headers@, "x-oss-symlink-target"@) {
            None => r.effects@.len() == 0 && r.answer == Answer::Error(ErrorKind::BadRequest),
            Some(t) => {
                &&& r.answer is PutSymlink
                &&& r.effects@.len() == 3
                &&& r.effects@[0]@ == EffectView::MakeObjectDir(object@)
                &&& r.effects@[1]@ == EffectView::WriteContent(object@, Seq::empty())
                &&& r.effects@[2] matches Effect::SaveObjectMeta(k, m) && k@ == object@
                    && fresh_but(m, bucket@, object@) && m.size == 0 && m.content_type@ == OCTET_STREAM@
                    && m.md5@ == ZERO_MD5@ && !m.appendable && m.symlink_target@ == t
                    && m.creation_date@.len() == 0 && m.modified_date@.len() == 0
            },
        },
{
    if !exists {
        return answer_only(Answer::NoSuchBucket(bucket.to_string()));
    }
    let target = match headers.get("x-oss-symlink-target") {
        Some(t) => t.clone(),
        None => return answer_only(Answer::Error(ErrorKind::BadRequest)),
    };
    let meta = symlink_metadata(bucket, object, target);
    let mut effects: Vec<Effect> = Vec::new();
    effects.push(Effect::MakeObjectDir(object.to_string()));
    let empty: Vec<u8> = Vec::new();
    effects.push(Effect::WriteContent(object.to_string(), empty));
    effects.push(Effect::SaveObjectMeta(object.to_string(), meta));
    Step { effects, answer: Answer::PutSymlink, guarded: None }
}

/// Reads a symbolic link. `meta` is the link's record and `target` the
/// record of the object it names, each where it could be read.
pub fn get_symlink(
    bucket: &str,
    object: &str,
    exists: bool,
    meta: Option<&Metadata>,
    target: Option<&Metadata>,
) -> (r: Answer)
    ensures
        !exists ==> no_bucket(r, bucket@),
        exists ==> match meta {
            None => no_object(r, bucket@, object@),
            Some(m) => if m.symlink_target@.len() == 0 {
                no_object(r, bucket@, object@)
            } else {
                r matches Answer::Symlink(t, etag, size) && t@ == m.symlink_target@
                    && match (link_parts_spec(m.symlink_target@), target) {
                        (Some(_), Some(x)) => etag@ == x.md5@ && size == x.size,
                        _ => etag@ == ZERO_MD5@ && size == 0,
                    }
            },
        },
{
    if !exists {
        return Answer::NoSuchBucket(bucket.to_string());
    }
    let m = match meta {
        Some(m) => m,
        None => return Answer::NoSuchObject(bucket.to_string(), object.to_string()),
    };
    if m.symlink_target.as_str().is_empty() {
        return Answer::NoSuchObject(bucket.to_string(), object.to_string());
    }
    let (size, etag) = match symlink_target_parts(&m.symlink_target) {
        Some(_) => symlink_target_info(target),
        None => symlink_target_info(None),
    };
    Answer::Symlink(m.symlink_target.clone(), etag, size)
}

/// Restores an archived object: its record, where it could be read, is
/// marked as being restored and stored again.
pub fn restore_object(bucket: &str, object: &str, exists: bool, meta: Option<Metadata>) -> (r: Step)
    ensures
        !exists ==> refused_no_bucket(r, bucket@),
        exists ==> r.guarded is None && match meta {
            None => r.effects@.len() == 0 && no_object(r.answer, bucket@, object@),
            Some(m) => {
                &&& r.answer is Accepted
                &&& r.effects@.len() == 1
                &&& r.effects@[0] matches Effect::SaveObjectMeta(k, x) && k@ == object@
                    && (x.restore_status matches Some(s) && s@ == "ongoing-request"@)
                    && x.bucket == m.bucket && x.object == m.object && x.size == m.size
                    && x.md5 == m.md5 && x.content_type == m.content_type
                    && x.appendable == m.appendable && x.symlink_target == m.symlink_target
            },
        },
{
    if !exists {
        return answer_only(Answer::NoSuchBucket(bucket.to_string()));
    }
    let mut m = match meta {
        Some(m) => m,
        None => return answer_only(Answer::NoSuchObject(bucket.to_string(), object.to_string())),
    };
    mark_restoring(&mut m);
    let mut effects: Vec<Effect> = Vec::new();
    effects.push(Effect::SaveObjectMeta(object.to_string(), m));
    Step { effects, answer: Answer::Accepted, guarded: None }
}

/// The file of a form upload is no longer than the body.
proof fn lemma_file_within_body(body: Seq<u8>)
    requires
        file_slice_fits(body),
    ensures
        file_spec(body).0.len() <= body.len(),
{
    let t = body_text(body);
    lemma_find_from(t, field_pattern("file"@), 0);
    if let Some(pos) = find_from(t, field_pattern("file"@), 0) {
        lemma_find_from(t, encode_utf8("Content-Type: "@), pos);
        if let Some(c) = find_from(t, encode_utf8("Content-Type: "@), pos) {
            lemma_find_from(t, encode_utf8("\r\n\r\n"@), c);
            if let Some(blank) = find_from(t, encode_utf8("\r\n\r\n"@), c) {
                lemma_find_from(t, encode_utf8("\r\n"@), blank + 4);
            }
        }
    }
}

/// What a form upload does: refused where the bucket does not exist or the
/// form names no key; otherwise the object the `key` field names is made
/// anew from the `file` field, a failure to write it ending the request
/// with a bare server error.
pub open spec fn posts(r: Step, bucket: Seq<char>, exists: bool, body: Seq<u8>) -> bool {
    &&& !exists ==> refused_no_bucket(r, bucket)
    &&& exists && posted_key(body).len() == 0 ==> only_answers(r, Answer::Error(ErrorKind::BadRequest))
    &&& exists && posted_key(body).len() > 0 ==> {
        let key = posted_key(body);
        let (data, content_type) = file_spec(body);
        &&& r.answer is NoContent
        &&& r.guarded matches Some((i, a)) && i == 2 && a is ServerError
        &&& r.effects@.len() == 4
        &&& r.effects@[0]@ == EffectView::RemoveObject(key)
        &&& r.effects@[1]@ == EffectView::MakeObjectDir(key)
        &&& r.effects@[2]@ == EffectView::WriteContent(key, data)
        &&& r.effects@[3] matches Effect::SaveObjectMeta(k, m) && k@ == key
            && written_record(m, bucket, key, data.len() as int, content_type)
    }
}

/// Stores an object from a form upload (see `posts`). The positions of the
/// file found in the body text must lie in the body; `post_object_checked`
/// tests that first.
pub fn post_object(bucket: &str, exists: bool, body: &[u8]) -> (r: Step)
    requires
        body@.len() <= i64::MAX,
        exists && posted_key(body@).len() > 0 ==> file_slice_fits(body@),
    ensures
        posts(r, bucket@, exists, body@),
{
    if !exists {
        return answer_only(Answer::NoSuchBucket(bucket.to_string()));
    }
    let posted = match post_object_plan(body) {
        Ok(p) => p,
        Err(e) => return answer_only(Answer::Error(e)),
    };
    proof {
        lemma_file_within_body(body@);
    }
    let size = posted.data.len() as i64;
    let meta = object_metadata(bucket, posted.key.as_str(), size, posted.content_type);
    let mut effects: Vec<Effect> = Vec::new();
    effects.push(Effect::RemoveObject(posted.key.clone()));
    effects.push(Effect::MakeObjectDir(posted.key.clone()));
    effects.push(Effect::WriteContent(posted.key.clone(), posted.data));
    effects.push(Effect::SaveObjectMeta(posted.key, meta));
    Step { effects, answer: Answer::NoContent, guarded: Some((2, Answer::ServerError)) }
}

/// A form upload whose file positions are tested first: nothing where the
/// bucket exists, the form names a key, and the positions of its file found
/// in the body text do not lie in the body (a body that is valid UTF-8
/// always passes); otherwise what `post_object` does.
pub fn post_object_checked(bucket: &str, exists: bool, body: &[u8]) -> (r: Option<Step>)
    requires
        body@.len() <= i64::MAX,
    ensures
        r is None <==> (exists && posted_key(body@).len() > 0 && !file_slice_fits(body@)),
        valid_utf8(body@) ==> r is Some,
        r matches Some(s) ==> posts(s, bucket@, exists, body@),
{
    if exists && !post_object_servable(body) {
        return None;
    }
    Some(post_object(bucket, exists, body))
}

/// What a read gives back of a write: an object that a write stored whole,
/// with `body` as content and a record `m` for it, is read back as the
/// bytes written, served with the content type the write gave (or
/// `application/octet-stream` where it gave an empty one), its length that
/// of the bytes written; with a range
/// that can be served, as the window of those bytes that the range selects.
pub proof fn law_read_after_write(
    bucket: Seq<char>,
    object: Seq<char>,
    body: Seq<u8>,
    headers: Map<Seq<char>, Seq<char>>,
    m: Metadata,
    x: ObjectRead,
    range: Option<Seq<char>>,
)
    requires
        written_record(m, bucket, object, body.len() as int, content_type_or_default(headers)),
        is_read(x, body, m.content_type@, range),
    ensures
        match read_range(range, body.len()) {
            None => x matches ObjectRead::Whole { data: d, content_type: t }
                && d@ == body && t@ == served_type(content_type_or_default(headers))
                && (content_type_or_default(headers).len() > 0 ==> t@ == content_type_or_default(headers))
                && d@.len() == body.len(),
            Some((a, b)) => x matches ObjectRead::Part { data: d, content_type: t, content_range: _ }
                && d@ == body.subrange(a as int, window_stop(b, body.len()))
                && t@ == served_type(content_type_or_default(headers)),
        },
{
}

} // verus!
