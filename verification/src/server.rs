//! Routing: which handler serves a request, from its method, path, query
//! and headers.

use vstd::prelude::*;
use crate::params::Params;
use crate::request::{known_method, parse_spec, path_sliceable, text_is, OssRequest, RequestView};
use crate::request::{
    LIST_BUCKETS, PUT_BUCKET, GET_BUCKET, DELETE_BUCKET, GET_BUCKET_ACL, PUT_BUCKET_ACL, GET_BUCKET_INFO, GET_BUCKET_LOCATION, PUT_OBJECT, PUT_UPLOAD_PART, GET_OBJECT, HEAD_OBJECT, DELETE_OBJECT, GET_OBJECT_META, GET_OBJECT_ACL, PUT_OBJECT_ACL, POST_APPEND_OBJECT, PUT_COPY_OBJECT, POST_INIT_MULTIPART_UPLOAD, POST_COMPLETE_MULTIPART_UPLOAD, DELETE_ABORT_MULTIPART_UPLOAD, DELETE_MULTIPLE_OBJECTS, GET_LIST_PARTS, GET_LIST_MULTIPART_UPLOADS, PUT_BUCKET_LOGGING, GET_BUCKET_LOGGING, DELETE_BUCKET_LOGGING, PUT_BUCKET_WEBSITE, GET_BUCKET_WEBSITE, DELETE_BUCKET_WEBSITE, PUT_BUCKET_REFERER, GET_BUCKET_REFERER, DELETE_BUCKET_REFERER, PUT_BUCKET_LIFECYCLE, GET_BUCKET_LIFECYCLE, DELETE_BUCKET_LIFECYCLE, PUT_SYMLINK, GET_SYMLINK, PUT_UPLOAD_PART_COPY, POST_RESTORE_OBJECT, POST_OBJECT,
};
use crate::text::{lower_text, lowercase_ascii};

verus! {

/// The handlers of the service. `Options` answers a CORS preflight request;
/// `BadRequest` is what a request that no handler serves is answered with.
#[derive(Clone, Copy, PartialEq, Eq, Structural, Debug)]
pub enum Handler {
    Options,
    ListBuckets,
    CreateBucket,
    GetBucket,
    DeleteBucket,
    GetBucketAcl,
    PutBucketAcl,
    GetBucketInfo,
    GetBucketLocation,
    PutObject,
    UploadPart,
    GetObject,
    HeadObject,
    DeleteObject,
    GetObjectMeta,
    GetObjectAcl,
    PutObjectAcl,
    AppendObject,
    CopyObject,
    InitiateMultipartUpload,
    CompleteMultipartUpload,
    AbortMultipartUpload,
    DeleteMultipleObjects,
    ListParts,
    ListMultipartUploads,
    PutBucketLogging,
    GetBucketLogging,
    DeleteBucketLogging,
    PutBucketWebsite,
    GetBucketWebsite,
    DeleteBucketWebsite,
    PutBucketReferer,
    GetBucketReferer,
    DeleteBucketReferer,
    PutBucketLifecycle,
    GetBucketLifecycle,
    DeleteBucketLifecycle,
    PutSymlink,
    GetSymlink,
    UploadPartCopy,
    RestoreObject,
    PostObject,
    BadRequest,
}

/// The handler that serves the command a request was parsed as.
pub open spec fn handler_of(cmd: Seq<char>) -> Handler {
    if cmd == LIST_BUCKETS@ {
        Handler::ListBuckets
    } else if cmd == PUT_BUCKET@ {
        Handler::CreateBucket
    } else if cmd == GET_BUCKET@ {
        Handler::GetBucket
    } else if cmd == DELETE_BUCKET@ {
        Handler::DeleteBucket
    } else if cmd == GET_BUCKET_ACL@ {
        Handler::GetBucketAcl
    } else if cmd == PUT_BUCKET_ACL@ {
        Handler::PutBucketAcl
    } else if cmd == GET_BUCKET_INFO@ {
        Handler::GetBucketInfo
    } else if cmd == GET_BUCKET_LOCATION@ {
        Handler::GetBucketLocation
    } else if cmd == PUT_OBJECT@ {
        Handler::PutObject
    } else if cmd == PUT_UPLOAD_PART@ {
        Handler::UploadPart
    } else if cmd == GET_OBJECT@ {
        Handler::GetObject
    } else if cmd == HEAD_OBJECT@ {
        Handler::HeadObject
    } else if cmd == DELETE_OBJECT@ {
        Handler::DeleteObject
    } else if cmd == GET_OBJECT_META@ {
        Handler::GetObjectMeta
    } else if cmd == GET_OBJECT_ACL@ {
        Handler::GetObjectAcl
    } else if cmd == PUT_OBJECT_ACL@ {
        Handler::PutObjectAcl
    } else if cmd == POST_APPEND_OBJECT@ {
        Handler::AppendObject
    } else if cmd == PUT_COPY_OBJECT@ {
        Handler::CopyObject
    } else if cmd == POST_INIT_MULTIPART_UPLOAD@ {
        Handler::InitiateMultipartUpload
    } else if cmd == POST_COMPLETE_MULTIPART_UPLOAD@ {
        Handler::CompleteMultipartUpload
    } else if cmd == DELETE_ABORT_MULTIPART_UPLOAD@ {
        Handler::AbortMultipartUpload
    } else if cmd == DELETE_MULTIPLE_OBJECTS@ {
        Handler::DeleteMultipleObjects
    } else if cmd == GET_LIST_PARTS@ {
        Handler::ListParts
    } else if cmd == GET_LIST_MULTIPART_UPLOADS@ {
        Handler::ListMultipartUploads
    } else if cmd == PUT_BUCKET_LOGGING@ {
        Handler::PutBucketLogging
    } else if cmd == GET_BUCKET_LOGGING@ {
        Handler::GetBucketLogging
    } else if cmd == DELETE_BUCKET_LOGGING@ {
        Handler::DeleteBucketLogging
    } else if cmd == PUT_BUCKET_WEBSITE@ {
        Handler::PutBucketWebsite
    } else if cmd == GET_BUCKET_WEBSITE@ {
        Handler::GetBucketWebsite
    } else if cmd == DELETE_BUCKET_WEBSITE@ {
        Handler::DeleteBucketWebsite
    } else if cmd == PUT_BUCKET_REFERER@ {
        Handler::PutBucketReferer
    } else if cmd == GET_BUCKET_REFERER@ {
        Handler::GetBucketReferer
    } else if cmd == DELETE_BUCKET_REFERER@ {
        Handler::DeleteBucketReferer
    } else if cmd == PUT_BUCKET_LIFECYCLE@ {
        Handler::PutBucketLifecycle
    } else if cmd == GET_BUCKET_LIFECYCLE@ {
        Handler::GetBucketLifecycle
    } else if cmd == DELETE_BUCKET_LIFECYCLE@ {
        Handler::DeleteBucketLifecycle
    } else if cmd == PUT_SYMLINK@ {
        Handler::PutSymlink
    } else if cmd == GET_SYMLINK@ {
        Handler::GetSymlink
    } else if cmd == PUT_UPLOAD_PART_COPY@ {
        Handler::UploadPartCopy
    } else if cmd == POST_RESTORE_OBJECT@ {
        Handler::RestoreObject
    } else if cmd == POST_OBJECT@ {
        Handler::PostObject
    } else {
        Handler::BadRequest
    }
}

/// The handler that serves a command.
pub fn handler_for(cmd: &String) -> (h: Handler)
    ensures
        h == handler_of(cmd@),
{
    if text_is(cmd, LIST_BUCKETS) {
        Handler::ListBuckets
    } else if text_is(cmd, PUT_BUCKET) {
        Handler::CreateBucket
    } else if text_is(cmd, GET_BUCKET) {
        Handler::GetBucket
    } else if text_is(cmd, DELETE_BUCKET) {
        Handler::DeleteBucket
    } else if text_is(cmd, GET_BUCKET_ACL) {
        Handler::GetBucketAcl
    } else if text_is(cmd, PUT_BUCKET_ACL) {
        Handler::PutBucketAcl
    } else if text_is(cmd, GET_BUCKET_INFO) {
        Handler::GetBucketInfo
    } else if text_is(cmd, GET_BUCKET_LOCATION) {
        Handler::GetBucketLocation
    } else if text_is(cmd, PUT_OBJECT) {
        Handler::PutObject
    } else if text_is(cmd, PUT_UPLOAD_PART) {
        Handler::UploadPart
    } else if text_is(cmd, GET_OBJECT) {
        Handler::GetObject
    } else if text_is(cmd, HEAD_OBJECT) {
        Handler::HeadObject
    } else if text_is(cmd, DELETE_OBJECT) {
        Handler::DeleteObject
    } else if text_is(cmd, GET_OBJECT_META) {
        Handler::GetObjectMeta
    } else if text_is(cmd, GET_OBJECT_ACL) {
        Handler::GetObjectAcl
    } else if text_is(cmd, PUT_OBJECT_ACL) {
        Handler::PutObjectAcl
    } else if text_is(cmd, POST_APPEND_OBJECT) {
        Handler::AppendObject
    } else if text_is(cmd, PUT_COPY_OBJECT) {
        Handler::CopyObject
    } else if text_is(cmd, POST_INIT_MULTIPART_UPLOAD) {
        Handler::InitiateMultipartUpload
    } else if text_is(cmd, POST_COMPLETE_MULTIPART_UPLOAD) {
        Handler::CompleteMultipartUpload
    } else if text_is(cmd, DELETE_ABORT_MULTIPART_UPLOAD) {
        Handler::AbortMultipartUpload
    } else if text_is(cmd, DELETE_MULTIPLE_OBJECTS) {
        Handler::DeleteMultipleObjects
    } else if text_is(cmd, GET_LIST_PARTS) {
        Handler::ListParts
    } else if text_is(cmd, GET_LIST_MULTIPART_UPLOADS) {
        Handler::ListMultipartUploads
    } else if text_is(cmd, PUT_BUCKET_LOGGING) {
        Handler::PutBucketLogging
    } else if text_is(cmd, GET_BUCKET_LOGGING) {
        Handler::GetBucketLogging
    } else if text_is(cmd, DELETE_BUCKET_LOGGING) {
        Handler::DeleteBucketLogging
    } else if text_is(cmd, PUT_BUCKET_WEBSITE) {
        Handler::PutBucketWebsite
    } else if text_is(cmd, GET_BUCKET_WEBSITE) {
        Handler::GetBucketWebsite
    } else if text_is(cmd, DELETE_BUCKET_WEBSITE) {
        Handler::DeleteBucketWebsite
    } else if text_is(cmd, PUT_BUCKET_REFERER) {
        Handler::PutBucketReferer
    } else if text_is(cmd, GET_BUCKET_REFERER) {
        Handler::GetBucketReferer
    } else if text_is(cmd, DELETE_BUCKET_REFERER) {
        Handler::DeleteBucketReferer
    } else if text_is(cmd, PUT_BUCKET_LIFECYCLE) {
        Handler::PutBucketLifecycle
    } else if text_is(cmd, GET_BUCKET_LIFECYCLE) {
        Handler::GetBucketLifecycle
    } else if text_is(cmd, DELETE_BUCKET_LIFECYCLE) {
        Handler::DeleteBucketLifecycle
    } else if text_is(cmd, PUT_SYMLINK) {
        Handler::PutSymlink
    } else if text_is(cmd, GET_SYMLINK) {
        Handler::GetSymlink
    } else if text_is(cmd, PUT_UPLOAD_PART_COPY) {
        Handler::UploadPartCopy
    } else if text_is(cmd, POST_RESTORE_OBJECT) {
        Handler::RestoreObject
    } else if text_is(cmd, POST_OBJECT) {
        Handler::PostObject
    } else {
        Handler::BadRequest
    }
}

/// The map that a list of pairs makes, a later pair with a name replacing
/// an earlier one.
pub open spec fn pairs_map(p: Seq<(Seq<char>, Seq<char>)>) -> Map<Seq<char>, Seq<char>>
    decreases p.len(),
{
    if p.len() == 0 {
        Map::empty()
    } else {
        pairs_map(p.drop_last()).insert(p.last().0, p.last().1)
    }
}

/// Pairs of texts as plain values.
pub open spec fn pairs_view(p: Seq<(String, String)>) -> Seq<(Seq<char>, Seq<char>)> {
    p.map_values(|x: (String, String)| (x.0@, x.1@))
}

/// Pairs of texts as plain values, the names made small.
pub open spec fn lowered_pairs(p: Seq<(String, String)>) -> Seq<(Seq<char>, Seq<char>)> {
    p.map_values(|x: (String, String)| (lower_text(x.0@), x.1@))
}

/// The query parameters of a request, from its pairs in order; a later
/// pair replaces an earlier one of the same name.
pub fn query_params(pairs: &Vec<(String, String)>) -> (p: Params)
    ensures
        p@ == pairs_map(pairs_view(pairs@)),
{
    let mut p = Params::new();
    let mut i: usize = 0;
    while i < pairs.len()
        invariant
            i <= pairs@.len(),
            p@ == pairs_map(pairs_view(pairs@.subrange(0, i as int))),
        decreases pairs@.len() - i,
    {
        p.insert(pairs[i].0.clone(), pairs[i].1.clone());
        proof {
            let s = pairs_view(pairs@.subrange(0, i + 1));
            assert(s.drop_last() =~= pairs_view(pairs@.subrange(0, i as int)));
        }
        i = i + 1;
    }
    assert(pairs@.subrange(0, pairs@.len() as int) =~= pairs@);
    p
}

/// The headers of a request, from its pairs in order, with their names in
/// lowercase; a later pair replaces an earlier one of the same name.
pub fn header_params(pairs: &Vec<(String, String)>) -> (p: Params)
    ensures
        p@ == pairs_map(lowered_pairs(pairs@)),
{
    let mut p = Params::new();
    let mut i: usize = 0;
    while i < pairs.len()
        invariant
            i <= pairs@.len(),
            p@ == pairs_map(lowered_pairs(pairs@.subrange(0, i as int))),
        decreases pairs@.len() - i,
    {
        p.insert(lowercase_ascii(pairs[i].0.as_str()), pairs[i].1.clone());
        proof {
            let s = lowered_pairs(pairs@.subrange(0, i + 1));
            assert(s.drop_last() =~= lowered_pairs(pairs@.subrange(0, i as int)));
        }
        i = i + 1;
    }
    assert(pairs@.subrange(0, pairs@.len() as int) =~= pairs@);
    p
}

/// A request as it comes in, before parsing.
pub open spec fn incoming(method: Seq<char>, path: Seq<char>, query: Map<Seq<char>, Seq<char>>, headers: Map<Seq<char>, Seq<char>>) -> RequestView {
    RequestView {
        method,
        path,
        query,
        headers,
        cmd: Seq::empty(),
        bucket: Seq::empty(),
        object: Seq::empty(),
        src_bucket: Seq::empty(),
        src_object: Seq::empty(),
    }
}

/// Routes a request: an `OPTIONS` request is answered as a CORS preflight
/// without parsing; any other is parsed, and the command it was parsed as
/// names its handler. The parsed request comes back beside the handler.
pub fn route_request(method: &str, path: &str, query: &Params, headers: &Params) -> (r: (Handler, OssRequest))
    requires
        known_method(method@) ==> path_sliceable(path@),
    ensures
        method@ == "OPTIONS"@ ==> r.0 == Handler::Options && r.1@ == incoming(method@, path@, query@, headers@),
        method@ != "OPTIONS"@ ==> r.1@ == parse_spec(incoming(method@, path@, query@, headers@))
            && r.0 == handler_of(r.1@.cmd),
{
    let mut req = OssRequest::new(method, path, query, headers);
    if text_is(&req.method, "OPTIONS") {
        return (Handler::Options, req);
    }
    req.parse();
    let h = handler_for(&req.cmd);
    (h, req)
}

/// The lengths and a few characters of the command names, enough to tell
/// any two of them apart.
proof fn lemma_command_names()
    ensures
        "PUT_BUCKET"@.len() == 10,
        "PUT_BUCKET"@[0] == 'P',
        "PUT_BUCKET"@[7] == 'K',
        "PUT_BUCKET_ACL"@.len() == 14,
        "PUT_BUCKET_ACL"@[0] == 'P',
        "PUT_BUCKET_ACL"@[7] == 'K',
        "PUT_BUCKET_LOGGING"@.len() == 18,
        "PUT_BUCKET_LOGGING"@[0] == 'P',
        "PUT_BUCKET_LOGGING"@[7] == 'K',
        "PUT_BUCKET_LOGGING"@[14] == 'G',
        "PUT_BUCKET_REFERER"@.len() == 18,
        "PUT_BUCKET_REFERER"@[0] == 'P',
        "PUT_BUCKET_REFERER"@[7] == 'K',
        "PUT_BUCKET_REFERER"@[14] == 'E',
        "PUT_BUCKET_WEBSITE"@.len() == 18,
        "PUT_BUCKET_WEBSITE"@[0] == 'P',
        "PUT_BUCKET_WEBSITE"@[7] == 'K',
        "PUT_BUCKET_WEBSITE"@[14] == 'S',
        "PUT_BUCKET_LIFECYCLE"@.len() == 20,
        "PUT_BUCKET_LIFECYCLE"@[0] == 'P',
        "PUT_BUCKET_LIFECYCLE"@[7] == 'K',
        "PUT_BUCKET_LIFECYCLE"@[14] == 'E',
        "PUT_OBJECT"@.len() == 10,
        "PUT_OBJECT"@[0] == 'P',
        "PUT_OBJECT"@[7] == 'E',
        "PUT_OBJECT_ACL"@.len() == 14,
        "PUT_OBJECT_ACL"@[0] == 'P',
        "PUT_OBJECT_ACL"@[7] == 'E',
        "PUT_SYMLINK"@.len() == 11,
        "PUT_SYMLINK"@[0] == 'P',
        "PUT_SYMLINK"@[7] == 'L',
        "PUT_UPLOAD_PART"@.len() == 15,
        "PUT_UPLOAD_PART"@[0] == 'P',
        "PUT_UPLOAD_PART"@[7] == 'O',
        "PUT_UPLOAD_PART"@[14] == 'T',
        "PUT_UPLOAD_PART_COPY"@.len() == 20,
        "PUT_UPLOAD_PART_COPY"@[0] == 'P',
        "PUT_UPLOAD_PART_COPY"@[7] == 'O',
        "PUT_UPLOAD_PART_COPY"@[14] == 'T',
        "PUT_COPY_OBJECT"@.len() == 15,
        "PUT_COPY_OBJECT"@[0] == 'P',
        "PUT_COPY_OBJECT"@[7] == 'Y',
        "PUT_COPY_OBJECT"@[14] == 'T',
        "LIST_BUCKETS"@.len() == 12,
        "LIST_BUCKETS"@[0] == 'L',
        "LIST_BUCKETS"@[7] == 'C',
        "GET_BUCKET"@.len() == 10,
        "GET_BUCKET"@[0] == 'G',
        "GET_BUCKET"@[7] == 'K',
        "GET_BUCKET_ACL"@.len() == 14,
        "GET_BUCKET_ACL"@[0] == 'G',
        "GET_BUCKET_ACL"@[7] == 'K',
        "GET_BUCKET_INFO"@.len() == 15,
        "GET_BUCKET_INFO"@[0] == 'G',
        "GET_BUCKET_INFO"@[7] == 'K',
        "GET_BUCKET_INFO"@[14] == 'O',
        "GET_BUCKET_LOCATION"@.len() == 19,
        "GET_BUCKET_LOCATION"@[0] == 'G',
        "GET_BUCKET_LOCATION"@[7] == 'K',
        "GET_BUCKET_LOCATION"@[14] == 'A',
        "GET_BUCKET_LOGGING"@.len() == 18,
        "GET_BUCKET_LOGGING"@[0] == 'G',
        "GET_BUCKET_LOGGING"@[7] == 'K',
        "GET_BUCKET_LOGGING"@[14] == 'G',
        "GET_BUCKET_REFERER"@.len() == 18,
        "GET_BUCKET_REFERER"@[0] == 'G',
        "GET_BUCKET_REFERER"@[7] == 'K',
        "GET_BUCKET_REFERER"@[14] == 'E',
        "GET_BUCKET_WEBSITE"@.len() == 18,
        "GET_BUCKET_WEBSITE"@[0] == 'G',
        "GET_BUCKET_WEBSITE"@[7] == 'K',
        "GET_BUCKET_WEBSITE"@[14] == 'S',
        "GET_BUCKET_LIFECYCLE"@.len() == 20,
        "GET_BUCKET_LIFECYCLE"@[0] == 'G',
        "GET_BUCKET_LIFECYCLE"@[7] == 'K',
        "GET_BUCKET_LIFECYCLE"@[14] == 'E',
        "GET_OBJECT"@.len() == 10,
        "GET_OBJECT"@[0] == 'G',
        "GET_OBJECT"@[7] == 'E',
        "GET_OBJECT_ACL"@.len() == 14,
        "GET_OBJECT_ACL"@[0] == 'G',
        "GET_OBJECT_ACL"@[7] == 'E',
        "GET_OBJECT_META"@.len() == 15,
        "GET_OBJECT_META"@[0] == 'G',
        "GET_OBJECT_META"@[7] == 'E',
        "GET_OBJECT_META"@[14] == 'A',
        "GET_SYMLINK"@.len() == 11,
        "GET_SYMLINK"@[0] == 'G',
        "GET_SYMLINK"@[7] == 'L',
        "GET_LIST_MULTIPART_UPLOADS"@.len() == 26,
        "GET_LIST_MULTIPART_UPLOADS"@[0] == 'G',
        "GET_LIST_MULTIPART_UPLOADS"@[7] == 'T',
        "GET_LIST_MULTIPART_UPLOADS"@[14] == 'P',
        "GET_LIST_PARTS"@.len() == 14,
        "GET_LIST_PARTS"@[0] == 'G',
        "GET_LIST_PARTS"@[7] == 'T',
        "HEAD_OBJECT"@.len() == 11,
        "HEAD_OBJECT"@[0] == 'H',
        "HEAD_OBJECT"@[7] == 'J',
        "DELETE_BUCKET"@.len() == 13,
        "DELETE_BUCKET"@[0] == 'D',
        "DELETE_BUCKET"@[7] == 'B',
        "DELETE_BUCKET_LOGGING"@.len() == 21,
        "DELETE_BUCKET_LOGGING"@[0] == 'D',
        "DELETE_BUCKET_LOGGING"@[7] == 'B',
        "DELETE_BUCKET_LOGGING"@[14] == 'L',
        "DELETE_BUCKET_WEBSITE"@.len() == 21,
        "DELETE_BUCKET_WEBSITE"@[0] == 'D',
        "DELETE_BUCKET_WEBSITE"@[7] == 'B',
        "DELETE_BUCKET_WEBSITE"@[14] == 'W',
        "DELETE_BUCKET_REFERER"@.len() == 21,
        "DELETE_BUCKET_REFERER"@[0] == 'D',
        "DELETE_BUCKET_REFERER"@[7] == 'B',
        "DELETE_BUCKET_REFERER"@[14] == 'R',
        "DELETE_BUCKET_LIFECYCLE"@.len() == 23,
        "DELETE_BUCKET_LIFECYCLE"@[0] == 'D',
        "DELETE_BUCKET_LIFECYCLE"@[7] == 'B',
        "DELETE_BUCKET_LIFECYCLE"@[14] == 'L',
        "DELETE_ABORT_MULTIPART_UPLOAD"@.len() == 29,
        "DELETE_ABORT_MULTIPART_UPLOAD"@[0] == 'D',
        "DELETE_ABORT_MULTIPART_UPLOAD"@[7] == 'A',
        "DELETE_ABORT_MULTIPART_UPLOAD"@[14] == 'U',
        "DELETE_OBJECT"@.len() == 13,
        "DELETE_OBJECT"@[0] == 'D',
        "DELETE_OBJECT"@[7] == 'O',
        "DELETE_MULTIPLE_OBJECTS"@.len() == 23,
        "DELETE_MULTIPLE_OBJECTS"@[0] == 'D',
        "DELETE_MULTIPLE_OBJECTS"@[7] == 'M',
        "DELETE_MULTIPLE_OBJECTS"@[14] == 'E',
        "POST_RESTORE_OBJECT"@.len() == 19,
        "POST_RESTORE_OBJECT"@[0] == 'P',
        "POST_RESTORE_OBJECT"@[7] == 'S',
        "POST_RESTORE_OBJECT"@[14] == 'B',
        "POST_APPEND_OBJECT"@.len() == 18,
        "POST_APPEND_OBJECT"@[0] == 'P',
        "POST_APPEND_OBJECT"@[7] == 'P',
        "POST_APPEND_OBJECT"@[14] == 'J',
        "POST_INIT_MULTIPART_UPLOAD"@.len() == 26,
        "POST_INIT_MULTIPART_UPLOAD"@[0] == 'P',
        "POST_INIT_MULTIPART_UPLOAD"@[7] == 'I',
        "POST_INIT_MULTIPART_UPLOAD"@[14] == 'I',
        "POST_COMPLETE_MULTIPART_UPLOAD"@.len() == 30,
        "POST_COMPLETE_MULTIPART_UPLOAD"@[0] == 'P',
        "POST_COMPLETE_MULTIPART_UPLOAD"@[7] == 'M',
        "POST_COMPLETE_MULTIPART_UPLOAD"@[14] == 'M',
        "POST_OBJECT"@.len() == 11,
        "POST_OBJECT"@[0] == 'P',
        "POST_OBJECT"@[7] == 'J',
        "POST_ELSE"@.len() == 9,
        "POST_ELSE"@[0] == 'P',
        "POST_ELSE"@[7] == 'S',
        "REQUEST_ERROR"@.len() == 13,
        "REQUEST_ERROR"@[0] == 'R',
        "REQUEST_ERROR"@[7] == '_',
{
    broadcast use vstd::string::group_string_axioms;
    reveal_strlit("PUT_BUCKET");
    reveal_strlit("PUT_BUCKET_ACL");
    reveal_strlit("PUT_BUCKET_LOGGING");
    reveal_strlit("PUT_BUCKET_REFERER");
    reveal_strlit("PUT_BUCKET_WEBSITE");
    reveal_strlit("PUT_BUCKET_LIFECYCLE");
    reveal_strlit("PUT_OBJECT");
    reveal_strlit("PUT_OBJECT_ACL");
    reveal_strlit("PUT_SYMLINK");
    reveal_strlit("PUT_UPLOAD_PART");
    reveal_strlit("PUT_UPLOAD_PART_COPY");
    reveal_strlit("PUT_COPY_OBJECT");
    reveal_strlit("LIST_BUCKETS");
    reveal_strlit("GET_BUCKET");
    reveal_strlit("GET_BUCKET_ACL");
    reveal_strlit("GET_BUCKET_INFO");
    reveal_strlit("GET_BUCKET_LOCATION");
    reveal_strlit("GET_BUCKET_LOGGING");
    reveal_strlit("GET_BUCKET_REFERER");
    reveal_strlit("GET_BUCKET_WEBSITE");
    reveal_strlit("GET_BUCKET_LIFECYCLE");
    reveal_strlit("GET_OBJECT");
    reveal_strlit("GET_OBJECT_ACL");
    reveal_strlit("GET_OBJECT_META");
    reveal_strlit("GET_SYMLINK");
    reveal_strlit("GET_LIST_MULTIPART_UPLOADS");
    reveal_strlit("GET_LIST_PARTS");
    reveal_strlit("HEAD_OBJECT");
    reveal_strlit("DELETE_BUCKET");
    reveal_strlit("DELETE_BUCKET_LOGGING");
    reveal_strlit("DELETE_BUCKET_WEBSITE");
    reveal_strlit("DELETE_BUCKET_REFERER");
    reveal_strlit("DELETE_BUCKET_LIFECYCLE");
    reveal_strlit("DELETE_ABORT_MULTIPART_UPLOAD");
    reveal_strlit("DELETE_OBJECT");
    reveal_strlit("DELETE_MULTIPLE_OBJECTS");
    reveal_strlit("POST_RESTORE_OBJECT");
    reveal_strlit("POST_APPEND_OBJECT");
    reveal_strlit("POST_INIT_MULTIPART_UPLOAD");
    reveal_strlit("POST_COMPLETE_MULTIPART_UPLOAD");
    reveal_strlit("POST_OBJECT");
    reveal_strlit("POST_ELSE");
    reveal_strlit("REQUEST_ERROR");
}

/// Each command is served by the handler of its name, and the two commands
/// that no handler serves (a post that is neither a form nor a known
/// operation, and a removal of `/`) are answered as bad requests.
pub proof fn law_each_command_has_its_handler()
    ensures
        handler_of("PUT_BUCKET"@) == Handler::CreateBucket,
        handler_of("PUT_BUCKET_ACL"@) == Handler::PutBucketAcl,
        handler_of("PUT_BUCKET_LOGGING"@) == Handler::PutBucketLogging,
        handler_of("PUT_BUCKET_REFERER"@) == Handler::PutBucketReferer,
        handler_of("PUT_BUCKET_WEBSITE"@) == Handler::PutBucketWebsite,
        handler_of("PUT_BUCKET_LIFECYCLE"@) == Handler::PutBucketLifecycle,
        handler_of("PUT_OBJECT"@) == Handler::PutObject,
        handler_of("PUT_OBJECT_ACL"@) == Handler::PutObjectAcl,
        handler_of("PUT_SYMLINK"@) == Handler::PutSymlink,
        handler_of("PUT_UPLOAD_PART"@) == Handler::UploadPart,
        handler_of("PUT_UPLOAD_PART_COPY"@) == Handler::UploadPartCopy,
        handler_of("PUT_COPY_OBJECT"@) == Handler::CopyObject,
        handler_of("LIST_BUCKETS"@) == Handler::ListBuckets,
        handler_of("GET_BUCKET"@) == Handler::GetBucket,
        handler_of("GET_BUCKET_ACL"@) == Handler::GetBucketAcl,
        handler_of("GET_BUCKET_INFO"@) == Handler::GetBucketInfo,
        handler_of("GET_BUCKET_LOCATION"@) == Handler::GetBucketLocation,
        handler_of("GET_BUCKET_LOGGING"@) == Handler::GetBucketLogging,
        handler_of("GET_BUCKET_REFERER"@) == Handler::GetBucketReferer,
        handler_of("GET_BUCKET_WEBSITE"@) == Handler::GetBucketWebsite,
        handler_of("GET_BUCKET_LIFECYCLE"@) == Handler::GetBucketLifecycle,
        handler_of("GET_OBJECT"@) == Handler::GetObject,
        handler_of("GET_OBJECT_ACL"@) == Handler::GetObjectAcl,
        handler_of("GET_OBJECT_META"@) == Handler::GetObjectMeta,
        handler_of("GET_SYMLINK"@) == Handler::GetSymlink,
        handler_of("GET_LIST_MULTIPART_UPLOADS"@) == Handler::ListMultipartUploads,
        handler_of("GET_LIST_PARTS"@) == Handler::ListParts,
        handler_of("HEAD_OBJECT"@) == Handler::HeadObject,
        handler_of("DELETE_BUCKET"@) == Handler::DeleteBucket,
        handler_of("DELETE_BUCKET_LOGGING"@) == Handler::DeleteBucketLogging,
        handler_of("DELETE_BUCKET_WEBSITE"@) == Handler::DeleteBucketWebsite,
        handler_of("DELETE_BUCKET_REFERER"@) == Handler::DeleteBucketReferer,
        handler_of("DELETE_BUCKET_LIFECYCLE"@) == Handler::DeleteBucketLifecycle,
        handler_of("DELETE_ABORT_MULTIPART_UPLOAD"@) == Handler::AbortMultipartUpload,
        handler_of("DELETE_OBJECT"@) == Handler::DeleteObject,
        handler_of("DELETE_MULTIPLE_OBJECTS"@) == Handler::DeleteMultipleObjects,
        handler_of("POST_RESTORE_OBJECT"@) == Handler::RestoreObject,
        handler_of("POST_APPEND_OBJECT"@) == Handler::AppendObject,
        handler_of("POST_INIT_MULTIPART_UPLOAD"@) == Handler::InitiateMultipartUpload,
        handler_of("POST_COMPLETE_MULTIPART_UPLOAD"@) == Handler::CompleteMultipartUpload,
        handler_of("POST_OBJECT"@) == Handler::PostObject,
        handler_of("POST_ELSE"@) == Handler::BadRequest,
        handler_of("REQUEST_ERROR"@) == Handler::BadRequest,
{
    lemma_command_names();
}

/// A handler serves one command only: whatever it is given, a handler
/// other than `BadRequest` is chosen for its own command alone.
pub proof fn law_handler_serves_one_command(c: Seq<char>)
    ensures
        handler_of(c) == Handler::CreateBucket ==> c == "PUT_BUCKET"@,
        handler_of(c) == Handler::PutBucketAcl ==> c == "PUT_BUCKET_ACL"@,
        handler_of(c) == Handler::PutBucketLogging ==> c == "PUT_BUCKET_LOGGING"@,
        handler_of(c) == Handler::PutBucketReferer ==> c == "PUT_BUCKET_REFERER"@,
        handler_of(c) == Handler::PutBucketWebsite ==> c == "PUT_BUCKET_WEBSITE"@,
        handler_of(c) == Handler::PutBucketLifecycle ==> c == "PUT_BUCKET_LIFECYCLE"@,
        handler_of(c) == Handler::PutObject ==> c == "PUT_OBJECT"@,
        handler_of(c) == Handler::PutObjectAcl ==> c == "PUT_OBJECT_ACL"@,
        handler_of(c) == Handler::PutSymlink ==> c == "PUT_SYMLINK"@,
        handler_of(c) == Handler::UploadPart ==> c == "PUT_UPLOAD_PART"@,
        handler_of(c) == Handler::UploadPartCopy ==> c == "PUT_UPLOAD_PART_COPY"@,
        handler_of(c) == Handler::CopyObject ==> c == "PUT_COPY_OBJECT"@,
        handler_of(c) == Handler::ListBuckets ==> c == "LIST_BUCKETS"@,
        handler_of(c) == Handler::GetBucket ==> c == "GET_BUCKET"@,
        handler_of(c) == Handler::GetBucketAcl ==> c == "GET_BUCKET_ACL"@,
        handler_of(c) == Handler::GetBucketInfo ==> c == "GET_BUCKET_INFO"@,
        handler_of(c) == Handler::GetBucketLocation ==> c == "GET_BUCKET_LOCATION"@,
        handler_of(c) == Handler::GetBucketLogging ==> c == "GET_BUCKET_LOGGING"@,
        handler_of(c) == Handler::GetBucketReferer ==> c == "GET_BUCKET_REFERER"@,
        handler_of(c) == Handler::GetBucketWebsite ==> c == "GET_BUCKET_WEBSITE"@,
        handler_of(c) == Handler::GetBucketLifecycle ==> c == "GET_BUCKET_LIFECYCLE"@,
        handler_of(c) == Handler::GetObject ==> c == "GET_OBJECT"@,
        handler_of(c) == Handler::GetObjectAcl ==> c == "GET_OBJECT_ACL"@,
        handler_of(c) == Handler::GetObjectMeta ==> c == "GET_OBJECT_META"@,
        handler_of(c) == Handler::GetSymlink ==> c == "GET_SYMLINK"@,
        handler_of(c) == Handler::ListMultipartUploads ==> c == "GET_LIST_MULTIPART_UPLOADS"@,
        handler_of(c) == Handler::ListParts ==> c == "GET_LIST_PARTS"@,
        handler_of(c) == Handler::HeadObject ==> c == "HEAD_OBJECT"@,
        handler_of(c) == Handler::DeleteBucket ==> c == "DELETE_BUCKET"@,
        handler_of(c) == Handler::DeleteBucketLogging ==> c == "DELETE_BUCKET_LOGGING"@,
        handler_of(c) == Handler::DeleteBucketWebsite ==> c == "DELETE_BUCKET_WEBSITE"@,
        handler_of(c) == Handler::DeleteBucketReferer ==> c == "DELETE_BUCKET_REFERER"@,
        handler_of(c) == Handler::DeleteBucketLifecycle ==> c == "DELETE_BUCKET_LIFECYCLE"@,
        handler_of(c) == Handler::AbortMultipartUpload ==> c == "DELETE_ABORT_MULTIPART_UPLOAD"@,
        handler_of(c) == Handler::DeleteObject ==> c == "DELETE_OBJECT"@,
        handler_of(c) == Handler::DeleteMultipleObjects ==> c == "DELETE_MULTIPLE_OBJECTS"@,
        handler_of(c) == Handler::RestoreObject ==> c == "POST_RESTORE_OBJECT"@,
        handler_of(c) == Handler::AppendObject ==> c == "POST_APPEND_OBJECT"@,
        handler_of(c) == Handler::InitiateMultipartUpload ==> c == "POST_INIT_MULTIPART_UPLOAD"@,
        handler_of(c) == Handler::CompleteMultipartUpload ==> c == "POST_COMPLETE_MULTIPART_UPLOAD"@,
        handler_of(c) == Handler::PostObject ==> c == "POST_OBJECT"@,
{
}

/// No two commands are served by the same handler, except the ones that
/// are answered as bad requests.
pub proof fn law_handlers_tell_commands_apart(c1: Seq<char>, c2: Seq<char>)
    requires
        handler_of(c1) == handler_of(c2),
        handler_of(c1) != Handler::BadRequest,
    ensures
        c1 == c2,
{
    law_handler_serves_one_command(c1);
    law_handler_serves_one_command(c2);
}

} // verus!
