//! The decisions of the bucket handlers.

use vstd::prelude::*;
use crate::config::MAX_BUCKET_NUM;
use crate::error::ErrorKind;
use crate::handlers::{
    answer_only, bucket_acl_spec, create_bucket_plan, effects_view, listing_query, max_keys_spec,
    Answer, CreateBucketPlan, Effect, EffectView, Step,
};
use crate::models::Metadata;
use crate::params::Params;
use crate::request::header_or_empty;
use crate::response::{is_utc_stamp, rfc3339_now};
use crate::storage::{
    bucket_infos, holds_only_metadata, infos_spec, is_listing, list_objects, FoundObject,
    ListBucketInfo, BUCKET_METADATA,
};

verus! {

/// `r` answers that `bucket` does not exist.
pub open spec fn no_bucket(r: Answer, bucket: Seq<char>) -> bool {
    r matches Answer::NoSuchBucket(b) && b@ == bucket
}

/// A step that changes nothing and answers that `bucket` does not exist.
pub open spec fn refused_no_bucket(s: Step, bucket: Seq<char>) -> bool {
    s.effects@.len() == 0 && s.guarded is None && no_bucket(s.answer, bucket)
}

/// A step that changes nothing and answers `a`.
pub open spec fn only_answers(s: Step, a: Answer) -> bool {
    s.effects@.len() == 0 && s.guarded is None && s.answer == a
}

/// The record of a new bucket: its name, no object, the access control it
/// was given, and nothing else but the times it was stamped with.
pub open spec fn new_bucket_record(m: Metadata, bucket: Seq<char>, acl: Seq<char>) -> bool {
    &&& m.bucket@ == bucket
    &&& m.object@.len() == 0
    &&& m.acl@ == acl
    &&& m.size == 0
    &&& m.content_type@.len() == 0
    &&& m.md5@.len() == 0
    &&& !m.appendable
    &&& m.symlink_target@.len() == 0
    &&& m.restore_status is None
}

/// Lists the buckets. `listed` holds, for each bucket of the store in the
/// order they were read, its name and the creation date its record holds
/// where the record could be read; it is nothing where the store's root
/// could not be read.
pub fn list_buckets(listed: Option<&Vec<(String, Option<String>)>>) -> (r: Answer)
    ensures
        match listed {
            None => r == Answer::Error(ErrorKind::NoSuchBucket),
            Some(f) => r matches Answer::Buckets(b)
                && b@.map_values(|x: ListBucketInfo| (x.name@, x.creation_date@)) == infos_spec(f@),
        },
{
    match listed {
        None => Answer::Error(ErrorKind::NoSuchBucket),
        Some(f) => Answer::Buckets(bucket_infos(f)),
    }
}

/// Creates a bucket, given how many buckets there are and whether this one
/// exists. A new bucket's record is stamped with the current time (in UTC).
pub fn create_bucket(bucket: &str, bucket_count: usize, exists: bool, headers: &Params) -> (r: Step)
    ensures
        bucket_count >= MAX_BUCKET_NUM ==> only_answers(r, Answer::Error(ErrorKind::TooManyBuckets)),
        bucket_count < MAX_BUCKET_NUM && exists ==> only_answers(r, Answer::PutBucket),
        bucket_count < MAX_BUCKET_NUM && !exists ==> {
            &&& r.answer is PutBucket
            &&& r.guarded is None
            &&& r.effects@.len() == 1
            &&& r.effects@[0] matches Effect::SaveBucketMeta(m)
            &&& new_bucket_record(m, bucket@, bucket_acl_spec(headers@))
            &&& is_utc_stamp(m.creation_date@) && is_utc_stamp(m.modified_date@)
        },
{
    let created = rfc3339_now();
    let modified = rfc3339_now();
    match create_bucket_plan(bucket, bucket_count, exists, headers, created, modified) {
        CreateBucketPlan::TooMany => answer_only(Answer::Error(ErrorKind::TooManyBuckets)),
        CreateBucketPlan::Keep => answer_only(Answer::PutBucket),
        CreateBucketPlan::Create(m) => {
            let mut effects: Vec<Effect> = Vec::new();
            effects.push(Effect::SaveBucketMeta(m));
            Step { effects, answer: Answer::PutBucket, guarded: None }
        },
    }
}

/// Lists a page of a bucket's objects, from the object records found while
/// walking the bucket, in walk order, and the query of the request.
pub fn get_bucket(bucket: &str, exists: bool, query: &Params, found: &Vec<FoundObject>) -> (r: Answer)
    ensures
        !exists ==> no_bucket(r, bucket@),
        exists ==> (r matches Answer::Objects(b, q, page) && b@ == bucket@
            && q.prefix@ == header_or_empty(query@, "prefix"@)
            && q.marker@ == header_or_empty(query@, "marker"@)
            && q.delimiter@ == header_or_empty(query@, "delimiter"@)
            && q.max_keys == max_keys_spec(query@)
            && is_listing(page, found@, q.prefix@, q.marker@, q.delimiter@, q.max_keys)),
{
    if !exists {
        return Answer::NoSuchBucket(bucket.to_string());
    }
    let q = listing_query(query);
    let page = list_objects(found, q.prefix.as_str(), q.marker.as_str(), q.max_keys, q.delimiter.as_str());
    Answer::Objects(bucket.to_string(), q, page)
}

/// Deletes a bucket that holds nothing but its record. `entries` are the
/// names in the bucket's directory (none where there is no directory), or
/// nothing where the directory could not be read.
pub fn delete_bucket(bucket: &str, exists: bool, entries: Option<&Vec<String>>) -> (r: Step)
    ensures
        !exists ==> refused_no_bucket(r, bucket@),
        exists ==> match entries {
            None => only_answers(r, Answer::Error(ErrorKind::InternalError)),
            Some(names) => if forall|i: int| 0 <= i < names@.len() ==> (#[trigger] names@[i])@ == BUCKET_METADATA@ {
                &&& effects_view(r.effects@) == seq![EffectView::DeleteBucket]
                &&& r.answer is NoContent
                &&& r.guarded is None
            } else {
                only_answers(r, Answer::Error(ErrorKind::BucketNotEmpty))
            },
        },
{
    if !exists {
        return answer_only(Answer::NoSuchBucket(bucket.to_string()));
    }
    match entries {
        None => answer_only(Answer::Error(ErrorKind::InternalError)),
        Some(names) => {
            if holds_only_metadata(names) {
                let mut effects: Vec<Effect> = Vec::new();
                effects.push(Effect::DeleteBucket);
                assert(effects_view(effects@) =~= seq![EffectView::DeleteBucket]);
                Step { effects, answer: Answer::NoContent, guarded: None }
            } else {
                answer_only(Answer::Error(ErrorKind::BucketNotEmpty))
            }
        },
    }
}

/// The access control of a bucket.
pub fn get_bucket_acl(bucket: &str, exists: bool) -> (r: Answer)
    ensures
        !exists ==> no_bucket(r, bucket@),
        exists ==> r is BucketAcl,
{
    if !exists {
        return Answer::NoSuchBucket(bucket.to_string());
    }
    Answer::BucketAcl
}

/// A write of a bucket's access control: accepted, nothing is stored.
pub fn put_bucket_acl(bucket: &str, exists: bool) -> (r: Answer)
    ensures
        !exists ==> no_bucket(r, bucket@),
        exists ==> r is PutBucket,
{
    if !exists {
        return Answer::NoSuchBucket(bucket.to_string());
    }
    Answer::PutBucket
}

/// The information of a bucket.
pub fn get_bucket_info(bucket: &str, exists: bool) -> (r: Answer)
    ensures
        !exists ==> no_bucket(r, bucket@),
        exists ==> (r matches Answer::BucketInfo(b) && b@ == bucket@),
{
    if !exists {
        return Answer::NoSuchBucket(bucket.to_string());
    }
    Answer::BucketInfo(bucket.to_string())
}

/// The location of a bucket.
pub fn get_bucket_location(bucket: &str, exists: bool) -> (r: Answer)
    ensures
        !exists ==> no_bucket(r, bucket@),
        exists ==> r is BucketLocation,
{
    if !exists {
        return Answer::NoSuchBucket(bucket.to_string());
    }
    Answer::BucketLocation
}

} // verus!
