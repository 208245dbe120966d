//! The decisions of the multipart upload handlers.

use vstd::prelude::*;
use crate::error::ErrorKind;
use crate::handlers::bucket::{no_bucket, only_answers, refused_no_bucket};
use crate::handlers::object::{no_object, text_opt};
use crate::handlers::{
    answer_only, completed_metadata, copy_part_data, copy_source_spec, effects_view, fresh_but,
    list_parts_of, merge_parts, parse_copy_source, part_number, part_number_spec, parts_data,
    parts_size, parts_view, read_range, read_range_fits, window_stop, Answer, Effect, EffectView,
    Step, ZERO_MD5,
};
use crate::models::Part;
use crate::params::Params;
use crate::response::{is_utc_stamp, rfc3339_now};
use crate::storage::{pending_spec, pending_uploads, BucketEntry, UPLOAD_ID};

verus! {

/// Starts a multipart upload: the object's directory is made.
pub fn initiate_multipart_upload(bucket: &str, object: &str, exists: bool) -> (r: Step)
    ensures
        !exists ==> refused_no_bucket(r, bucket@),
        exists ==> {
            &&& effects_view(r.effects@) == seq![EffectView::MakeObjectDir(object@)]
            &&& r.answer matches Answer::Initiated(b, o) && b@ == bucket@ && o@ == object@
            &&& r.guarded is None
        },
{
    if !exists {
        return answer_only(Answer::NoSuchBucket(bucket.to_string()));
    }
    let mut effects: Vec<Effect> = Vec::new();
    effects.push(Effect::MakeObjectDir(object.to_string()));
    assert(effects_view(effects@) =~= seq![EffectView::MakeObjectDir(object@)]);
    Step { effects, answer: Answer::Initiated(bucket.to_string(), object.to_string()), guarded: None }
}

/// Stores a part of a multipart upload under the part number the query
/// gives (0 where it gives none that can be read).
pub fn upload_part(bucket: &str, object: &str, exists: bool, query: &Params, body: Vec<u8>) -> (r: Step)
    ensures
        !exists ==> refused_no_bucket(r, bucket@),
        exists ==> {
            &&& effects_view(r.effects@) == seq![
                EffectView::MakeObjectDir(object@),
                EffectView::WritePart(object@, part_number_spec(query@), body@),
            ]
            &&& r.answer is PutObject
            &&& r.guarded is None
        },
{
    if !exists {
        return answer_only(Answer::NoSuchBucket(bucket.to_string()));
    }
    let n = part_number(query);
    let ghost data = body@;
    let mut effects: Vec<Effect> = Vec::new();
    effects.push(Effect::MakeObjectDir(object.to_string()));
    effects.push(Effect::WritePart(object.to_string(), n, body));
    assert(effects_view(effects@) =~= seq![
        EffectView::MakeObjectDir(object@),
        EffectView::WritePart(object@, part_number_spec(query@), data),
    ]);
    Step { effects, answer: Answer::PutObject, guarded: None }
}

/// Completes a multipart upload. `parts` holds, for each part file found,
/// from number 1 on until one is missing, its bytes where it could be read.
/// The parts that could be read make up the object's content, in order.
pub fn complete_multipart_upload(
    bucket: &str,
    object: &str,
    exists: bool,
    parts: &Vec<Option<Vec<u8>>>,
) -> (r: Step)
    requires
        parts_size(parts_view(parts@)) <= i64::MAX,
    ensures
        !exists ==> refused_no_bucket(r, bucket@),
        exists ==> {
            &&& r.answer matches Answer::Completed(b, o) && b@ == bucket@ && o@ == object@
            &&& r.guarded is None
            &&& r.effects@.len() == 2
            &&& r.effects@[0]@ == EffectView::WriteContent(object@, parts_data(parts_view(parts@)))
            &&& r.effects@[1] matches Effect::SaveObjectMeta(k, m) && k@ == object@
                && fresh_but(m, bucket@, object@) && m.size == parts_size(parts_view(parts@))
                && m.content_type@.len() == 0 && m.md5@ == ZERO_MD5@ && !m.appendable
                && m.symlink_target@.len() == 0 && m.creation_date@.len() == 0
                && m.modified_date@.len() == 0
        },
{
    if !exists {
        return answer_only(Answer::NoSuchBucket(bucket.to_string()));
    }
    let (merged, total) = merge_parts(parts);
    let meta = completed_metadata(bucket, object, total);
    let mut effects: Vec<Effect> = Vec::new();
    effects.push(Effect::WriteContent(object.to_string(), merged));
    effects.push(Effect::SaveObjectMeta(object.to_string(), meta));
    Step { effects, answer: Answer::Completed(bucket.to_string(), object.to_string()), guarded: None }
}

/// Abandons a multipart upload: the object's directory is removed.
pub fn abort_multipart_upload(bucket: &str, object: &str, exists: bool) -> (r: Step)
    ensures
        !exists ==> refused_no_bucket(r, bucket@),
        exists ==> {
            &&& effects_view(r.effects@) == seq![EffectView::RemoveObject(object@)]
            &&& r.answer is NoContent
            &&& r.guarded is None
        },
{
    if !exists {
        return answer_only(Answer::NoSuchBucket(bucket.to_string()));
    }
    let mut effects: Vec<Effect> = Vec::new();
    effects.push(Effect::RemoveObject(object.to_string()));
    assert(effects_view(effects@) =~= seq![EffectView::RemoveObject(object@)]);
    Step { effects, answer: Answer::NoContent, guarded: None }
}

/// The parts of an upload, each reported as looked at now (in UTC). `sizes` holds,
/// for each part file found, from number 1 on until one is missing, its
/// size where it could be read.
pub fn list_parts_now(sizes: &Vec<Option<u64>>) -> (r: Vec<Part>)
    requires
        sizes@.len() < i32::MAX,
        forall|i: int| 0 <= i < sizes@.len() ==> ((#[trigger] sizes@[i]) matches Some(n) ==> n <= i64::MAX),
    ensures
        r@.len() <= sizes@.len(),
        forall|i: int| 0 <= i < r@.len() ==> {
            let p = #[trigger] r@[i];
            &&& 1 <= p.part_number <= sizes@.len()
            &&& (sizes@[p.part_number - 1] matches Some(n) && p.size == n)
            &&& p.etag@ == "00000000000"@
            &&& is_utc_stamp(p.last_modified@)
        },
        forall|i: int, j: int| 0 <= i < j < r@.len() ==> r@[i].part_number < r@[j].part_number,
        forall|m: int| 0 <= m < sizes@.len() && (#[trigger] sizes@[m]) is Some ==> exists|i: int|
            0 <= i < r@.len() && (#[trigger] r@[i]).part_number == m + 1,
{
    let mut found: Vec<(Option<u64>, String)> = Vec::new();
    let mut i: usize = 0;
    while i < sizes.len()
        invariant
            i <= sizes@.len(),
            found@.len() == i,
            forall|k: int| 0 <= k < i ==> (#[trigger] found@[k]).0 == sizes@[k] && is_utc_stamp(found@[k].1@),
        decreases sizes@.len() - i,
    {
        found.push((sizes[i], rfc3339_now()));
        i = i + 1;
    }
    let r = list_parts_of(&found);
    assert forall|m: int| 0 <= m < sizes@.len() && (#[trigger] sizes@[m]) is Some implies exists|i: int|
        0 <= i < r@.len() && (#[trigger] r@[i]).part_number == m + 1 by {
        assert(found@[m].0 == sizes@[m]);
    }
    assert forall|i: int| 0 <= i < r@.len() implies is_utc_stamp((#[trigger] r@[i]).last_modified@) by {
        assert(is_utc_stamp(found@[r@[i].part_number - 1].1@));
    }
    r
}

/// Lists the parts of an upload, given whether the object's directory
/// exists and the sizes of the part files found (see `list_parts_now`).
pub fn list_parts(
    bucket: &str,
    object: &str,
    exists: bool,
    dir_exists: bool,
    sizes: &Vec<Option<u64>>,
) -> (r: Answer)
    requires
        sizes@.len() < i32::MAX,
        forall|i: int| 0 <= i < sizes@.len() ==> ((#[trigger] sizes@[i]) matches Some(n) ==> n <= i64::MAX),
    ensures
        !exists ==> no_bucket(r, bucket@),
        exists && !dir_exists ==> no_object(r, bucket@, object@),
        exists && dir_exists ==> (r matches Answer::Parts(b, o, parts) && b@ == bucket@ && o@ == object@
            && parts@.len() <= sizes@.len()
            && (forall|i: int| 0 <= i < parts@.len() ==> {
                let p = #[trigger] parts@[i];
                &&& 1 <= p.part_number <= sizes@.len()
                &&& (sizes@[p.part_number - 1] matches Some(n) && p.size == n)
                &&& p.etag@ == "00000000000"@
                &&& is_utc_stamp(p.last_modified@)
            })
            && (forall|i: int, j: int| 0 <= i < j < parts@.len() ==> parts@[i].part_number < parts@[j].part_number)
            && (forall|m: int| 0 <= m < sizes@.len() && (#[trigger] sizes@[m]) is Some ==> exists|i: int|
                0 <= i < parts@.len() && (#[trigger] parts@[i]).part_number == m + 1)),
{
    if !exists {
        return Answer::NoSuchBucket(bucket.to_string());
    }
    if !dir_exists {
        return Answer::NoSuchObject(bucket.to_string(), object.to_string());
    }
    Answer::Parts(bucket.to_string(), object.to_string(), list_parts_now(sizes))
}

/// Lists the uploads of a bucket that are not complete. `entries` are the
/// entries of the bucket's directory (none where there is no directory),
/// or nothing where it could not be read.
pub fn list_multipart_uploads(bucket: &str, exists: bool, entries: Option<&Vec<BucketEntry>>) -> (r: Answer)
    ensures
        !exists ==> no_bucket(r, bucket@),
        exists ==> match entries {
            None => r == Answer::Error(ErrorKind::InternalError),
            Some(e) => r matches Answer::Uploads(b, u) && b@ == bucket@
                && u@.map_values(|x: (String, String)| x.0@) == pending_spec(e@)
                && forall|i: int| 0 <= i < u@.len() ==> (#[trigger] u@[i]).1@ == UPLOAD_ID@,
        },
{
    if !exists {
        return Answer::NoSuchBucket(bucket.to_string());
    }
    match entries {
        None => Answer::Error(ErrorKind::InternalError),
        Some(e) => Answer::Uploads(bucket.to_string(), pending_uploads(e)),
    }
}

/// Copies (a range of) an object into a part of a multipart upload. The
/// `x-oss-copy-source` header names the source, `src_exists` and `data` say
/// whether its bucket exists and what it holds where it could be read, and
/// the `x-oss-copy-source-range` header may select a window of it.
pub fn upload_part_copy(
    bucket: &str,
    object: &str,
    exists: bool,
    query: &Params,
    copy_source: Option<&String>,
    src_exists: bool,
    data: Option<Vec<u8>>,
    range: Option<&String>,
) -> (r: Step)
    requires
        data matches Some(d) ==> d@.len() <= i64::MAX && read_range_fits(text_opt(range), d@.len()),
    ensures
        !exists ==> refused_no_bucket(r, bucket@),
        exists ==> r.guarded is None && match copy_source {
            None => only_answers(r, Answer::Error(ErrorKind::BadRequest)),
            Some(h) => match copy_source_spec(h@) {
                None => only_answers(r, Answer::Error(ErrorKind::BadRequest)),
                Some((sb, so)) => if !src_exists {
                    r.effects@.len() == 0 && no_bucket(r.answer, sb)
                } else {
                    match data {
                        None => r.effects@.len() == 0 && no_object(r.answer, sb, so),
                        Some(d) => {
                            let copied = match read_range(text_opt(range), d@.len()) {
                                None => d@,
                                Some((a, b)) => d@.subrange(a as int, window_stop(b, d@.len())),
                            };
                            &&& r.answer is UploadPartCopy
                            &&& effects_view(r.effects@) == seq![
                                EffectView::MakeObjectDir(object@),
                                EffectView::WritePart(object@, part_number_spec(query@), copied),
                            ]
                        },
                    }
                },
            },
        },
{
    if !exists {
        return answer_only(Answer::NoSuchBucket(bucket.to_string()));
    }
    let n = part_number(query);
    let header = match copy_source {
        Some(h) => h,
        None => return answer_only(Answer::Error(ErrorKind::BadRequest)),
    };
    let (src_bucket, src_object) = match parse_copy_source(header) {
        Some(p) => p,
        None => return answer_only(Answer::Error(ErrorKind::BadRequest)),
    };
    if !src_exists {
        return answer_only(Answer::NoSuchBucket(src_bucket));
    }
    let d = match data {
        Some(d) => d,
        None => return answer_only(Answer::NoSuchObject(src_bucket, src_object)),
    };
    let copied = copy_part_data(d, range);
    let ghost cv = copied@;
    let mut effects: Vec<Effect> = Vec::new();
    effects.push(Effect::MakeObjectDir(object.to_string()));
    effects.push(Effect::WritePart(object.to_string(), n, copied));
    assert(effects_view(effects@) =~= seq![
        EffectView::MakeObjectDir(object@),
        EffectView::WritePart(object@, part_number_spec(query@), cv),
    ]);
    Step { effects, answer: Answer::UploadPartCopy, guarded: None }
}


/// The next step of the scan of an upload's part files, which runs from part
/// number 1 upwards and ends at the first number without a file.
pub enum PartScan {
    /// Read the part with this number.
    Read(i32),
    /// No file for the next number: the scan is over.
    Stop,
}

/// The scan's next step, given how many parts it has gathered and whether a
/// file exists for the next part number.
pub fn scan_parts(gathered: usize, next_exists: bool) -> (r: PartScan)
    requires
        gathered < i32::MAX,
    ensures
        next_exists ==> r == PartScan::Read((gathered + 1) as i32),
        !next_exists ==> r is Stop,
{
    if next_exists {
        PartScan::Read((gathered + 1) as i32)
    } else {
        PartScan::Stop
    }
}

/// The number of the part the scan looks at after gathering `gathered` parts.
pub fn next_part_number(gathered: usize) -> (n: i32)
    requires
        gathered < i32::MAX,
    ensures
        n == gathered + 1,
{
    (gathered + 1) as i32
}

} // verus!
