//! The replies of the service: status, headers and body. A body is empty,
//! raw bytes, a ready text, or a document that is written out as XML after
//! the XML declaration.

use vstd::prelude::*;
use crate::config::{ALIYUN_OSS_SERVER, HOST, OWNER_DISPLAY_NAME, OWNER_ID};
use crate::error::{ErrorCode, ErrorKind};
use crate::models::{
    AccessControlList, AccessControlPolicy, Bucket, BucketInfo, BucketsInner, CommonPrefix,
    CompleteMultipartUploadResult, Content, DeleteResult, Deleted, ErrorResult,
    InitiateMultipartUploadResult, ListAllMyBucketsResult, ListBucketResult,
    ListMultipartUploadsResult, ListPartsResult, Owner, Part, SymlinkTargetResponse, Upload,
    UploadPartCopyResult, XmlBucket,
};
use crate::storage::{ListBucketInfo, ListObjectEntry};
use crate::text::{decimal_text, format_i64, format_u64};

verus! {

/// A document of a reply.
pub enum Document {
    Error(ErrorResult),
    Buckets(ListAllMyBucketsResult),
    Objects(ListBucketResult),
    Info(BucketInfo),
    Policy(AccessControlPolicy),
    Initiated(InitiateMultipartUploadResult),
    Completed(CompleteMultipartUploadResult),
    Deletion(DeleteResult),
    Parts(ListPartsResult),
    Uploads(ListMultipartUploadsResult),
    Symlink(SymlinkTargetResponse),
    PartCopy(UploadPartCopyResult),
}

/// The body of a reply.
pub enum ReplyBody {
    Empty,
    Bytes(Vec<u8>),
    Text(String),
    Document(Document),
}

/// A reply.
pub struct Reply {
    pub status: u16,
    pub headers: Vec<(String, String)>,
    pub body: ReplyBody,
}

/// The replies of the service.
pub struct OssResponse;

// ------------------------------------------------------------------
// Request ids and times
// ------------------------------------------------------------------

/// `c` is a lowercase hexadecimal digit.
pub open spec fn is_lower_hex(c: char) -> bool {
    ('0' <= c && c <= '9') || ('a' <= c && c <= 'f')
}

/// The hyphenated lowercase form of a UUID: 36 characters, hyphens at 8,
/// 13, 18 and 23, lowercase hexadecimal digits elsewhere.
pub open spec fn is_uuid_text(s: Seq<char>) -> bool {
    &&& s.len() == 36
    &&& forall|i: int| 0 <= i < 36 ==> if i == 8 || i == 13 || i == 18 || i == 23 {
        #[trigger] s[i] == '-'
    } else {
        is_lower_hex(s[i])
    }
}

/// A fresh request id.
///
/// Calls `uuid::Uuid::new_v4` and writes the id out with `to_string`. The
/// id is random; the contract claims only its form, the hyphenated
/// lowercase one that the crate's `Display` writes.
#[verifier::external_body]
fn new_request_id() -> (s: String)
    ensures
        is_uuid_text(s@),
{
    uuid::Uuid::new_v4().to_string()
}

/// `s` ends with `t`.
pub open spec fn has_suffix(s: Seq<char>, t: Seq<char>) -> bool {
    t.len() <= s.len() && s.subrange(s.len() - t.len(), s.len() as int) == t
}

/// The current time in the form of HTTP dates.
///
/// Calls `chrono::Utc::now` and writes the time with the format
/// `%a, %d %b %Y %H:%M:%S GMT`. The time is the machine's; the contract
/// claims only that the text ends with the format's literal ` GMT`.
#[verifier::external_body]
pub(crate) fn http_date_now() -> (s: String)
    ensures
        has_suffix(s@, " GMT"@),
{
    chrono::Utc::now().format("%a, %d %b %Y %H:%M:%S GMT").to_string()
}

/// The time ends with the offset that `to_rfc3339` writes for UTC.
pub open spec fn is_utc_stamp(s: Seq<char>) -> bool {
    has_suffix(s, "+00:00"@)
}

/// The current time in RFC 3339 form.
///
/// Calls `chrono::Utc::now` and `to_rfc3339`. The time is the machine's;
/// the contract claims only that the text ends with `+00:00`, the offset
/// that `to_rfc3339` writes for UTC (its offset format has minutes, colons
/// and no `Z`).
#[verifier::external_body]
pub(crate) fn rfc3339_now() -> (s: String)
    ensures
        is_utc_stamp(s@),
{
    chrono::Utc::now().to_rfc3339()
}

// ------------------------------------------------------------------
// Headers
// ------------------------------------------------------------------

/// Headers as plain values.
pub open spec fn hv(h: Seq<(String, String)>) -> Seq<(Seq<char>, Seq<char>)> {
    h.map_values(|p: (String, String)| (p.0@, p.1@))
}

/// The headers every reply of the service begins with.
pub open spec fn served(id: Seq<char>) -> Seq<(Seq<char>, Seq<char>)> {
    seq![("server"@, ALIYUN_OSS_SERVER@), ("x-oss-request-id"@, id)]
}

/// The request id a reply carries.
pub open spec fn reply_id(r: Reply) -> Seq<char> {
    r.headers@[1].1@
}

/// The XML content type header.
pub open spec fn xml_type() -> (Seq<char>, Seq<char>) {
    ("content-type"@, "application/xml"@)
}

fn served_headers() -> (h: Vec<(String, String)>)
    ensures
        h@.len() == 2,
        hv(h@) == served(h@[1].1@),
        is_uuid_text(h@[1].1@),
{
    let mut h: Vec<(String, String)> = Vec::new();
    h.push(("server".to_string(), ALIYUN_OSS_SERVER.to_string()));
    h.push(("x-oss-request-id".to_string(), new_request_id()));
    assert(hv(h@) =~= served(h@[1].1@));
    h
}

fn push_header(h: &mut Vec<(String, String)>, name: &str, value: String)
    ensures
        final(h)@.len() == old(h)@.len() + 1,
        hv(final(h)@) == hv(old(h)@).push((name@, value@)),
        forall|i: int| 0 <= i < old(h)@.len() ==> final(h)@[i] == old(h)@[i],
        final(h)@[old(h)@.len() as int].1@ == value@,
{
    h.push((name.to_string(), value));
    assert(hv(h@) =~= hv(old(h)@).push((name@, value@)));
}

/// The owner the service reports.
pub open spec fn is_service_owner(o: Owner) -> bool {
    o.display_name@ == OWNER_DISPLAY_NAME@ && o.id@ == OWNER_ID@
}

fn service_owner() -> (o: Owner)
    ensures
        is_service_owner(o),
{
    Owner { display_name: OWNER_DISPLAY_NAME.to_string(), id: OWNER_ID.to_string() }
}

/// An error document for `code`, naming `bucket`.
pub open spec fn error_doc(e: ErrorResult, code: ErrorCode, bucket: Option<Seq<char>>) -> bool {
    &&& e.code@ == code.error_code@
    &&& e.message@ == code.message@
    &&& is_uuid_text(e.request_id@)
    &&& e.host_id@ == HOST@
    &&& match (e.bucket_name, bucket) {
        (Some(x), Some(y)) => x@ == y,
        (None, None) => true,
        _ => false,
    }
}

/// A reply that carries a document, with the headers the service begins
/// with and the XML content type.
pub open spec fn xml_reply(r: Reply, status: u16) -> bool {
    &&& r.status == status
    &&& is_uuid_text(reply_id(r))
    &&& hv(r.headers@) == served(reply_id(r)).push(xml_type())
}

/// A reply without body or other headers than the ones the service begins with.
pub open spec fn bare_reply(r: Reply, status: u16) -> bool {
    &&& r.status == status
    &&& is_uuid_text(reply_id(r))
    &&& hv(r.headers@) == served(reply_id(r))
    &&& r.body is Empty
}

fn error_reply(code: ErrorCode, bucket: Option<&str>) -> (r: Reply)
    ensures
        xml_reply(r, code.status_code),
        r.body matches ReplyBody::Document(Document::Error(e)) && error_doc(e, code, match bucket {
            Some(b) => Some(b@),
            None => None,
        }),
{
    let err = ErrorResult {
        code: code.error_code.to_string(),
        message: code.message.to_string(),
        request_id: new_request_id(),
        host_id: HOST.to_string(),
        bucket_name: match bucket {
            Some(b) => Some(b.to_string()),
            None => None,
        },
    };
    let mut h = served_headers();
    push_header(&mut h, "content-type", "application/xml".to_string());
    Reply { status: code.status_code, headers: h, body: ReplyBody::Document(Document::Error(err)) }
}

fn xml_document(status: u16, doc: Document) -> (r: Reply)
    ensures
        xml_reply(r, status),
        r.body == ReplyBody::Document(doc),
{
    let mut h = served_headers();
    push_header(&mut h, "content-type", "application/xml".to_string());
    Reply { status, headers: h, body: ReplyBody::Document(doc) }
}

fn bare(status: u16) -> (r: Reply)
    ensures
        bare_reply(r, status),
{
    Reply { status, headers: served_headers(), body: ReplyBody::Empty }
}

/// The headers of a reply that serves an object's content.
pub open spec fn content_headers(id: Seq<char>, content_type: Seq<char>, len: nat, range: Option<Seq<char>>, now: Seq<char>) -> Seq<(Seq<char>, Seq<char>)> {
    let head = served(id) + seq![("content-type"@, content_type), ("content-length"@, decimal_text(len as int))];
    let head = match range {
        Some(c) => head.push(("Content-Range"@, c)),
        None => head,
    };
    head + seq![
        ("Accept-Ranges"@, "bytes"@),
        ("ETag"@, "\"00000000000\""@),
        ("Last-Modified"@, now),
        ("x-oss-object-type"@, "Appendable"@),
        ("x-oss-storage-class"@, "Standard"@),
        ("Access-Control-Allow-Origin"@, "*"@),
    ]
}

fn content_reply(status: u16, body: Vec<u8>, content_type: &str, range: Option<&str>) -> (r: Reply)
    ensures
        r.status == status,
        is_uuid_text(reply_id(r)),
        exists|now: Seq<char>| has_suffix(now, " GMT"@) && hv(r.headers@) == content_headers(
            reply_id(r),
            content_type@,
            body@.len(),
            match range {
                Some(c) => Some(c@),
                None => None,
            },
            now,
        ),
        r.body matches ReplyBody::Bytes(b) && b@ == body@,
{
    let now = http_date_now();
    let ghost nv = now@;
    let mut h = served_headers();
    let ghost id = h@[1].1@;
    push_header(&mut h, "content-type", content_type.to_string());
    push_header(&mut h, "content-length", format_u64(body.len() as u64));
    let ghost mid = hv(h@);
    match range {
        Some(c) => push_header(&mut h, "Content-Range", c.to_string()),
        None => {},
    }
    let ghost with_range = hv(h@);
    push_header(&mut h, "Accept-Ranges", "bytes".to_string());
    push_header(&mut h, "ETag", "\"00000000000\"".to_string());
    push_header(&mut h, "Last-Modified", now);
    push_header(&mut h, "x-oss-object-type", "Appendable".to_string());
    push_header(&mut h, "x-oss-storage-class", "Standard".to_string());
    push_header(&mut h, "Access-Control-Allow-Origin", "*".to_string());
    assert(h@[1].1@ == id);
    assert(hv(h@) =~= content_headers(id, content_type@, body@.len(), match range {
        Some(c) => Some(c@),
        None => None,
    }, nv));
    Reply { status, headers: h, body: ReplyBody::Bytes(body) }
}

impl OssResponse {
    /// The reply for an error.
    pub fn error(code: ErrorCode) -> (r: Reply)
        ensures
            xml_reply(r, code.status_code),
            r.body matches ReplyBody::Document(Document::Error(e)) && error_doc(e, code, None),
    {
        error_reply(code, None)
    }

    /// The reply for an error about a bucket.
    pub fn error_with_bucket(code: ErrorCode, bucket: &str) -> (r: Reply)
        ensures
            xml_reply(r, code.status_code),
            r.body matches ReplyBody::Document(Document::Error(e)) && error_doc(e, code, Some(bucket@)),
    {
        error_reply(code, Some(bucket))
    }

    /// The reply for what the service does not do.
    pub fn not_implemented() -> (r: Reply)
        ensures
            xml_reply(r, 501),
            r.body matches ReplyBody::Document(Document::Error(e)) && error_doc(e, ErrorKind::NotImplemented.answer(), None),
    {
        let c = ErrorKind::NotImplemented.code();
        let r = error_reply(c, None);
        r
    }

    /// The reply to a CORS preflight request.
    pub fn options() -> (r: Reply)
        ensures
            r.status == 200,
            hv(r.headers@) == seq![
                ("server"@, ALIYUN_OSS_SERVER@),
                ("Access-Control-Allow-Origin"@, "*"@),
                ("Access-Control-Allow-Methods"@, "PUT, POST, HEAD, GET, OPTIONS"@),
                ("Access-Control-Allow-Headers"@, "Accept, Content-Type, Authorization, Content-Length, ETag, X-CSRF-Token, Content-Disposition"@),
                ("Access-Control-Expose-Headers"@, "ETag"@),
            ],
            r.body is Empty,
    {
        let mut h: Vec<(String, String)> = Vec::new();
        push_header(&mut h, "server", ALIYUN_OSS_SERVER.to_string());
        push_header(&mut h, "Access-Control-Allow-Origin", "*".to_string());
        push_header(&mut h, "Access-Control-Allow-Methods", "PUT, POST, HEAD, GET, OPTIONS".to_string());
        push_header(&mut h, "Access-Control-Allow-Headers", "Accept, Content-Type, Authorization, Content-Length, ETag, X-CSRF-Token, Content-Disposition".to_string());
        push_header(&mut h, "Access-Control-Expose-Headers", "ETag".to_string());
        Reply { status: 200, headers: h, body: ReplyBody::Empty }
    }

    /// The reply for a bucket that does not exist.
    pub fn no_such_bucket(bucket: &str) -> (r: Reply)
        ensures
            xml_reply(r, 404),
            r.body matches ReplyBody::Document(Document::Error(e)) && error_doc(e, ErrorKind::NoSuchBucket.answer(), Some(bucket@)),
    {
        error_reply(ErrorKind::NoSuchBucket.code(), Some(bucket))
    }

    /// The reply for an object that does not exist (it names the bucket).
    pub fn no_such_object(bucket: &str, _object: &str) -> (r: Reply)
        ensures
            xml_reply(r, 404),
            r.body matches ReplyBody::Document(Document::Error(e)) && error_doc(e, ErrorKind::NotFound.answer(), Some(bucket@)),
    {
        error_reply(ErrorKind::NotFound.code(), Some(bucket))
    }

    /// The reply where a bucket does not exist, or nothing where it does.
    pub fn check_bucket_exists(exists: bool, bucket: &str) -> (r: Option<Reply>)
        ensures
            exists ==> r is None,
            !exists ==> match r {
                Some(x) => xml_reply(x, 404) && match x.body {
                    ReplyBody::Document(Document::Error(e)) => error_doc(e, ErrorKind::NoSuchBucket.answer(), Some(bucket@)),
                    _ => false,
                },
                None => false,
            },
    {
        if !exists {
            return Some(Self::no_such_bucket(bucket));
        }
        None
    }

    /// A success with the given headers and body.
    pub fn ok(_cmd: &str, headers: Vec<(&str, String)>, body: Vec<u8>) -> (r: Reply)
        ensures
            r.status == 200,
            is_uuid_text(reply_id(r)),
            hv(r.headers@) == served(reply_id(r)) + headers@.map_values(|p: (&str, String)| (p.0@, p.1@)),
            r.body matches ReplyBody::Bytes(b) && b@ == body@,
    {
        let mut h = served_headers();
        let ghost id = h@[1].1@;
        let mut i: usize = 0;
        while i < headers.len()
            invariant
                i <= headers@.len(),
                h@.len() >= 2,
                h@[1].1@ == id,
                hv(h@) == served(id) + headers@.take(i as int).map_values(|p: (&str, String)| (p.0@, p.1@)),
            decreases headers@.len() - i,
        {
            let (k, v) = (headers[i].0, headers[i].1.clone());
            push_header(&mut h, k, v);
            proof {
                assert(headers@.take(i + 1) =~= headers@.take(i as int).push(headers@[i as int]));
                assert(hv(h@) =~= served(id) + headers@.take(i + 1).map_values(|p: (&str, String)| (p.0@, p.1@)));
            }
            i = i + 1;
        }
        assert(headers@.take(headers@.len() as int) =~= headers@);
        Reply { status: 200, headers: h, body: ReplyBody::Bytes(body) }
    }

    /// A success without content.
    pub fn ok_no_content() -> (r: Reply)
        ensures
            bare_reply(r, 204),
    {
        bare(204)
    }

    /// The listing of the buckets.
    pub fn list_buckets(buckets: &[ListBucketInfo]) -> (r: Reply)
        ensures
            xml_reply(r, 200),
            r.body matches ReplyBody::Document(Document::Buckets(d)) && is_service_owner(d.owner)
                && d.buckets.bucket@.map_values(|b: Bucket| (b.name@, b.creation_date@))
                == buckets@.map_values(|b: ListBucketInfo| (b.name@, b.creation_date@)),
    {
        let mut list: Vec<Bucket> = Vec::new();
        let mut i: usize = 0;
        while i < buckets.len()
            invariant
                i <= buckets@.len(),
                list@.map_values(|b: Bucket| (b.name@, b.creation_date@)) == buckets@.take(i as int).map_values(|b: ListBucketInfo| (b.name@, b.creation_date@)),
            decreases buckets@.len() - i,
        {
            let ghost before = list@;
            list.push(Bucket { name: buckets[i].name.clone(), creation_date: buckets[i].creation_date.clone() });
            proof {
                assert(buckets@.take(i + 1) =~= buckets@.take(i as int).push(buckets@[i as int]));
                assert(list@.map_values(|b: Bucket| (b.name@, b.creation_date@)) =~= before.map_values(|b: Bucket| (b.name@, b.creation_date@)).push((buckets@[i as int].name@, buckets@[i as int].creation_date@)));
                assert(buckets@.take(i + 1).map_values(|b: ListBucketInfo| (b.name@, b.creation_date@)) =~= buckets@.take(i as int).map_values(|b: ListBucketInfo| (b.name@, b.creation_date@)).push((buckets@[i as int].name@, buckets@[i as int].creation_date@)));
            }
            i = i + 1;
        }
        assert(buckets@.take(buckets@.len() as int) =~= buckets@);
        let doc = ListAllMyBucketsResult { owner: service_owner(), buckets: BucketsInner { bucket: list } };
        xml_document(200, Document::Buckets(doc))
    }

    /// A page of the listing of a bucket.
    pub fn list_objects(
        bucket: &str,
        contents: &[ListObjectEntry],
        common_prefixes: &[String],
        prefix: &str,
        marker: &str,
        max_keys: i32,
        delimiter: &str,
        next_marker: &str,
        is_truncated: bool,
    ) -> (r: Reply)
        ensures
            xml_reply(r, 200),
            r.body matches ReplyBody::Document(Document::Objects(d)) && d.name@ == bucket@
                && d.prefix@ == prefix@ && d.marker@ == marker@
                && d.max_keys@ == decimal_text(max_keys as int) && d.delimiter@ == delimiter@
                && d.encoding_type@ == "url"@ && d.next_marker@ == next_marker@
                && d.is_truncated == is_truncated
                && d.contents@.len() == contents@.len()
                && (forall|i: int| 0 <= i < contents@.len() ==> {
                    let c = #[trigger] d.contents@[i];
                    let e = contents@[i];
                    &&& c.key@ == e.key@ && c.last_modified@ == e.last_modified@ && c.etag@ == e.etag@
                    &&& c.object_type@ == "Normal"@ && c.size == e.size
                    &&& c.storage_class@ == e.storage_class@ && is_service_owner(c.owner)
                })
                && d.common_prefixes@.map_values(|p: CommonPrefix| p.prefix@) == common_prefixes@.map_values(|s: String| s@),
    {
        let mut items: Vec<Content> = Vec::new();
        let mut i: usize = 0;
        while i < contents.len()
            invariant
                i <= contents@.len(),
                items@.len() == i,
                forall|k: int| 0 <= k < i ==> {
                    let c = #[trigger] items@[k];
                    let e = contents@[k];
                    &&& c.key@ == e.key@ && c.last_modified@ == e.last_modified@ && c.etag@ == e.etag@
                    &&& c.object_type@ == "Normal"@ && c.size == e.size
                    &&& c.storage_class@ == e.storage_class@ && is_service_owner(c.owner)
                },
            decreases contents@.len() - i,
        {
            let e = &contents[i];
            items.push(Content {
                key: e.key.clone(),
                last_modified: e.last_modified.clone(),
                etag: e.etag.clone(),
                object_type: "Normal".to_string(),
                size: e.size,
                storage_class: e.storage_class.clone(),
                owner: service_owner(),
            });
            i = i + 1;
        }
        let mut prefixes: Vec<CommonPrefix> = Vec::new();
        let mut j: usize = 0;
        while j < common_prefixes.len()
            invariant
                j <= common_prefixes@.len(),
                prefixes@.map_values(|p: CommonPrefix| p.prefix@) == common_prefixes@.take(j as int).map_values(|s: String| s@),
            decreases common_prefixes@.len() - j,
        {
            let ghost before = prefixes@;
            prefixes.push(CommonPrefix { prefix: common_prefixes[j].clone() });
            proof {
                assert(common_prefixes@.take(j + 1) =~= common_prefixes@.take(j as int).push(common_prefixes@[j as int]));
                assert(prefixes@.map_values(|p: CommonPrefix| p.prefix@) =~= before.map_values(|p: CommonPrefix| p.prefix@).push(common_prefixes@[j as int]@));
                assert(common_prefixes@.take(j + 1).map_values(|s: String| s@) =~= common_prefixes@.take(j as int).map_values(|s: String| s@).push(common_prefixes@[j as int]@));
            }
            j = j + 1;
        }
        assert(common_prefixes@.take(common_prefixes@.len() as int) =~= common_prefixes@);
        let doc = ListBucketResult {
            name: bucket.to_string(),
            prefix: prefix.to_string(),
            marker: marker.to_string(),
            max_keys: format_i64(max_keys as i64),
            delimiter: delimiter.to_string(),
            encoding_type: "url".to_string(),
            next_marker: next_marker.to_string(),
            is_truncated,
            contents: items,
            common_prefixes: prefixes,
        };
        xml_document(200, Document::Objects(doc))
    }

    /// The reply to a bucket creation or access control write.
    pub fn put_bucket() -> (r: Reply)
        ensures
            r.status == 200,
            is_uuid_text(reply_id(r)),
            hv(r.headers@) == served(reply_id(r)) + seq![("Location"@, "oss-example"@), ("Access-Control-Allow-Origin"@, "*"@)],
            r.body is Empty,
    {
        let mut h = served_headers();
        push_header(&mut h, "Location", "oss-example".to_string());
        push_header(&mut h, "Access-Control-Allow-Origin", "*".to_string());
        assert(hv(h@) =~= served(h@[1].1@) + seq![("Location"@, "oss-example"@), ("Access-Control-Allow-Origin"@, "*"@)]);
        Reply { status: 200, headers: h, body: ReplyBody::Empty }
    }

    /// The information of a bucket.
    pub fn get_bucket_info(bucket: &str) -> (r: Reply)
        ensures
            r.status == 200,
            is_uuid_text(reply_id(r)),
            exists|now: Seq<char>| has_suffix(now, " GMT"@) && hv(r.headers@) == served(reply_id(r)) + seq![("x-oss-server-time"@, now), xml_type()],
            r.body matches ReplyBody::Document(Document::Info(d)) && d.bucket.name@ == bucket@
                && d.bucket.creation_date@.len() == 0
                && d.bucket.extranet_endpoint@ == "oss-cn-hangzhou-zmf.aliyuncs.com"@
                && d.bucket.intranet_endpoint@ == "oss-cn-hangzhou-zmf-internal.aliyuncs.com"@
                && d.bucket.location@ == "cn-hangzhou"@ && d.bucket.storage_class@ == "Standard"@
                && d.bucket.owner.display_name@ == "1390402650033793"@ && d.bucket.owner.id@ == "1390402650033793"@
                && d.bucket.access_control_list.grant@ == "private"@,
    {
        let info = BucketInfo {
            bucket: XmlBucket {
                creation_date: String::new(),
                extranet_endpoint: "oss-cn-hangzhou-zmf.aliyuncs.com".to_string(),
                intranet_endpoint: "oss-cn-hangzhou-zmf-internal.aliyuncs.com".to_string(),
                location: "cn-hangzhou".to_string(),
                name: bucket.to_string(),
                storage_class: "Standard".to_string(),
                owner: Owner { display_name: "1390402650033793".to_string(), id: "1390402650033793".to_string() },
                access_control_list: AccessControlList { grant: "private".to_string() },
            },
        };
        let mut h = served_headers();
        let now = http_date_now();
        push_header(&mut h, "x-oss-server-time", now);
        push_header(&mut h, "content-type", "application/xml".to_string());
        assert(hv(h@) =~= served(h@[1].1@) + seq![("x-oss-server-time"@, h@[2].1@), xml_type()]);
        Reply { status: 200, headers: h, body: ReplyBody::Document(Document::Info(info)) }
    }

    /// The access control of a bucket.
    pub fn get_bucket_acl() -> (r: Reply)
        ensures
            xml_reply(r, 200),
            r.body matches ReplyBody::Document(Document::Policy(p)) && is_service_owner(p.owner)
                && p.access_control_list.grant@ == "private"@,
    {
        let p = AccessControlPolicy {
            owner: service_owner(),
            access_control_list: AccessControlList { grant: "private".to_string() },
        };
        xml_document(200, Document::Policy(p))
    }

    /// The location of a bucket.
    pub fn get_bucket_location() -> (r: Reply)
        ensures
            xml_reply(r, 200),
            r.body matches ReplyBody::Text(t) && t@ == "<?xml version=\"1.0\" encoding=\"UTF-8\"?><LocationConstraint>oss-cn-hangzhou</LocationConstraint>"@,
    {
        let mut h = served_headers();
        push_header(&mut h, "content-type", "application/xml".to_string());
        Reply {
            status: 200,
            headers: h,
            body: ReplyBody::Text("<?xml version=\"1.0\" encoding=\"UTF-8\"?><LocationConstraint>oss-cn-hangzhou</LocationConstraint>".to_string()),
        }
    }

    /// The reply to an object write.
    pub fn put_object() -> (r: Reply)
        ensures
            r.status == 200,
            is_uuid_text(reply_id(r)),
            hv(r.headers@) == served(reply_id(r)) + seq![("ETag"@, "00000000000"@), ("x-oss-bucket-version"@, "1418321259"@)],
            r.body is Empty,
    {
        let mut h = served_headers();
        push_header(&mut h, "ETag", "00000000000".to_string());
        push_header(&mut h, "x-oss-bucket-version", "1418321259".to_string());
        assert(hv(h@) =~= served(h@[1].1@) + seq![("ETag"@, "00000000000"@), ("x-oss-bucket-version"@, "1418321259"@)]);
        Reply { status: 200, headers: h, body: ReplyBody::Empty }
    }

    /// An object's whole content.
    pub fn get_object(body: Vec<u8>, content_type: &str) -> (r: Reply)
        ensures
            r.status == 200,
            is_uuid_text(reply_id(r)),
            exists|now: Seq<char>| has_suffix(now, " GMT"@) && hv(r.headers@) == content_headers(reply_id(r), content_type@, body@.len(), None, now),
            r.body matches ReplyBody::Bytes(b) && b@ == body@,
    {
        content_reply(200, body, content_type, None)
    }

    /// A part of an object's content.
    pub fn get_object_range(body: Vec<u8>, content_type: &str, content_range: &str) -> (r: Reply)
        ensures
            r.status == 206,
            is_uuid_text(reply_id(r)),
            exists|now: Seq<char>| has_suffix(now, " GMT"@) && hv(r.headers@) == content_headers(reply_id(r), content_type@, body@.len(), Some(content_range@), now),
            r.body matches ReplyBody::Bytes(b) && b@ == body@,
    {
        content_reply(206, body, content_type, Some(content_range))
    }

    /// The headers of an object.
    pub fn head_object(size: i64) -> (r: Reply)
        ensures
            r.status == 200,
            is_uuid_text(reply_id(r)),
            exists|now: Seq<char>| has_suffix(now, " GMT"@) && hv(r.headers@) == served(reply_id(r)) + seq![
                ("Accept-Ranges"@, "bytes"@),
                ("ETag"@, "\"00000000000\""@),
                ("content-length"@, decimal_text(size as int)),
                ("Last-Modified"@, now),
                ("x-oss-object-type"@, "Appendable"@),
                ("x-oss-storage-class"@, "Standard"@),
                ("x-oss-server-time"@, now),
                ("x-oss-next-append-position"@, decimal_text(size as int)),
            ],
            r.body is Empty,
    {
        let now = http_date_now();
        let ghost nv = now@;
        let mut h = served_headers();
        push_header(&mut h, "Accept-Ranges", "bytes".to_string());
        push_header(&mut h, "ETag", "\"00000000000\"".to_string());
        push_header(&mut h, "content-length", format_i64(size));
        push_header(&mut h, "Last-Modified", now.clone());
        push_header(&mut h, "x-oss-object-type", "Appendable".to_string());
        push_header(&mut h, "x-oss-storage-class", "Standard".to_string());
        push_header(&mut h, "x-oss-server-time", now);
        push_header(&mut h, "x-oss-next-append-position", format_i64(size));
        assert(hv(h@) =~= served(h@[1].1@) + seq![
            ("Accept-Ranges"@, "bytes"@),
            ("ETag"@, "\"00000000000\""@),
            ("content-length"@, decimal_text(size as int)),
            ("Last-Modified"@, nv),
            ("x-oss-object-type"@, "Appendable"@),
            ("x-oss-storage-class"@, "Standard"@),
            ("x-oss-server-time"@, nv),
            ("x-oss-next-append-position"@, decimal_text(size as int)),
        ]);
        Reply { status: 200, headers: h, body: ReplyBody::Empty }
    }

    /// The metadata of an object.
    pub fn get_object_meta(size: i64) -> (r: Reply)
        ensures
            r.status == 200,
            is_uuid_text(reply_id(r)),
            exists|now: Seq<char>| has_suffix(now, " GMT"@) && hv(r.headers@) == served(reply_id(r)) + seq![
                ("content-length"@, decimal_text(size as int)),
                ("Last-Modified"@, now),
                ("ETag"@, "00000000000"@),
            ],
            r.body is Empty,
    {
        let mut h = served_headers();
        push_header(&mut h, "content-length", format_i64(size));
        push_header(&mut h, "Last-Modified", http_date_now());
        push_header(&mut h, "ETag", "00000000000".to_string());
        assert(hv(h@) =~= served(h@[1].1@) + seq![
            ("content-length"@, decimal_text(size as int)),
            ("Last-Modified"@, h@[3].1@),
            ("ETag"@, "00000000000"@),
        ]);
        Reply { status: 200, headers: h, body: ReplyBody::Empty }
    }

    /// The access control of an object.
    pub fn get_object_acl() -> (r: Reply)
        ensures
            xml_reply(r, 200),
            r.body matches ReplyBody::Document(Document::Policy(p)) && is_service_owner(p.owner)
                && p.access_control_list.grant@ == "default"@,
    {
        let p = AccessControlPolicy {
            owner: service_owner(),
            access_control_list: AccessControlList { grant: "default".to_string() },
        };
        xml_document(200, Document::Policy(p))
    }

    /// The reply to an append: where the next append goes.
    pub fn append_object(next_position: i64) -> (r: Reply)
        ensures
            r.status == 200,
            is_uuid_text(reply_id(r)),
            hv(r.headers@) == served(reply_id(r)).push(("x-oss-next-append-position"@, decimal_text(next_position as int))),
            r.body is Empty,
    {
        let mut h = served_headers();
        push_header(&mut h, "x-oss-next-append-position", format_i64(next_position));
        Reply { status: 200, headers: h, body: ReplyBody::Empty }
    }

    /// The reply to the start of a multipart upload.
    pub fn initiate_multipart_upload(bucket: &str, object: &str) -> (r: Reply)
        ensures
            xml_reply(r, 200),
            r.body matches ReplyBody::Document(Document::Initiated(d)) && d.bucket@ == bucket@
                && d.key@ == object@ && d.upload_id@ == "0000000"@,
    {
        let d = InitiateMultipartUploadResult {
            bucket: bucket.to_string(),
            key: object.to_string(),
            upload_id: "0000000".to_string(),
        };
        xml_document(200, Document::Initiated(d))
    }

    /// The reply to the completion of a multipart upload.
    pub fn complete_multipart_upload(bucket: &str, object: &str) -> (r: Reply)
        ensures
            xml_reply(r, 200),
            r.body matches ReplyBody::Document(Document::Completed(d)) && d.location@ == "Location"@
                && d.bucket@ == bucket@ && d.key@ == object@ && d.etag@ == "00000000000"@,
    {
        let d = CompleteMultipartUploadResult {
            location: "Location".to_string(),
            bucket: bucket.to_string(),
            key: object.to_string(),
            etag: "00000000000".to_string(),
        };
        xml_document(200, Document::Completed(d))
    }

    /// The reply to an object copy.
    pub fn copy_object() -> (r: Reply)
        ensures
            r.status == 200,
            is_uuid_text(reply_id(r)),
            exists|now: Seq<char>| has_suffix(now, " GMT"@) && hv(r.headers@) == served(reply_id(r)) + seq![xml_type(), ("Last-Modified"@, now)],
            r.body matches ReplyBody::Text(t) && t@ == "<?xml version=\"1.0\" encoding=\"UTF-8\"?><CopyObjectResult><LastModified>2012-02-24T08:42:32.000Z</LastModified><ETag>\"00000000\"</ETag></CopyObjectResult>"@,
    {
        let mut h = served_headers();
        push_header(&mut h, "content-type", "application/xml".to_string());
        push_header(&mut h, "Last-Modified", http_date_now());
        assert(hv(h@) =~= served(h@[1].1@) + seq![xml_type(), ("Last-Modified"@, h@[3].1@)]);
        Reply {
            status: 200,
            headers: h,
            body: ReplyBody::Text("<?xml version=\"1.0\" encoding=\"UTF-8\"?><CopyObjectResult><LastModified>2012-02-24T08:42:32.000Z</LastModified><ETag>\"00000000\"</ETag></CopyObjectResult>".to_string()),
        }
    }

    /// The reply to a multiple delete: the keys removed.
    pub fn delete_multiple_objects(deleted_keys: &[String]) -> (r: Reply)
        ensures
            xml_reply(r, 200),
            r.body matches ReplyBody::Document(Document::Deletion(d))
                && d.deleted@.map_values(|x: Deleted| x.key@) == deleted_keys@.map_values(|s: String| s@),
    {
        let mut list: Vec<Deleted> = Vec::new();
        let mut i: usize = 0;
        while i < deleted_keys.len()
            invariant
                i <= deleted_keys@.len(),
                list@.map_values(|x: Deleted| x.key@) == deleted_keys@.take(i as int).map_values(|s: String| s@),
            decreases deleted_keys@.len() - i,
        {
            let ghost before = list@;
            list.push(Deleted { key: deleted_keys[i].clone() });
            proof {
                assert(deleted_keys@.take(i + 1) =~= deleted_keys@.take(i as int).push(deleted_keys@[i as int]));
                assert(list@.map_values(|x: Deleted| x.key@) =~= before.map_values(|x: Deleted| x.key@).push(deleted_keys@[i as int]@));
                assert(deleted_keys@.take(i + 1).map_values(|s: String| s@) =~= deleted_keys@.take(i as int).map_values(|s: String| s@).push(deleted_keys@[i as int]@));
            }
            i = i + 1;
        }
        assert(deleted_keys@.take(deleted_keys@.len() as int) =~= deleted_keys@);
        xml_document(200, Document::Deletion(DeleteResult { deleted: list }))
    }

    /// The parts of a multipart upload.
    pub fn list_parts(bucket: &str, object: &str, parts: &[Part]) -> (r: Reply)
        ensures
            xml_reply(r, 200),
            r.body matches ReplyBody::Document(Document::Parts(d)) && d.bucket@ == bucket@
                && d.key@ == object@ && d.upload_id@ == "0000000"@ && d.part_number_marker == 0
                && d.next_part_number_marker == 0 && d.max_parts == 1000 && !d.is_truncated
                && d.parts@.len() == parts@.len()
                && (forall|i: int| 0 <= i < parts@.len() ==> {
                    let p = #[trigger] d.parts@[i];
                    &&& p.part_number == parts@[i].part_number
                    &&& p.last_modified@ == parts@[i].last_modified@
                    &&& p.etag@ == parts@[i].etag@
                    &&& p.size == parts@[i].size
                }),
    {
        let mut list: Vec<Part> = Vec::new();
        let mut i: usize = 0;
        while i < parts.len()
            invariant
                i <= parts@.len(),
                list@.len() == i,
                forall|k: int| 0 <= k < i ==> {
                    let p = #[trigger] list@[k];
                    &&& p.part_number == parts@[k].part_number
                    &&& p.last_modified@ == parts@[k].last_modified@
                    &&& p.etag@ == parts@[k].etag@
                    &&& p.size == parts@[k].size
                },
            decreases parts@.len() - i,
        {
            let p = &parts[i];
            list.push(Part {
                part_number: p.part_number,
                last_modified: p.last_modified.clone(),
                etag: p.etag.clone(),
                size: p.size,
            });
            i = i + 1;
        }
        let d = ListPartsResult {
            bucket: bucket.to_string(),
            key: object.to_string(),
            upload_id: "0000000".to_string(),
            part_number_marker: 0,
            next_part_number_marker: 0,
            max_parts: 1000,
            is_truncated: false,
            parts: list,
        };
        xml_document(200, Document::Parts(d))
    }

    /// The multipart uploads of a bucket that are not complete, each
    /// reported as started now.
    pub fn list_multipart_uploads(bucket: &str, uploads: &[(String, String)]) -> (r: Reply)
        ensures
            xml_reply(r, 200),
            r.body matches ReplyBody::Document(Document::Uploads(d)) && d.bucket@ == bucket@
                && d.key_marker@.len() == 0 && d.upload_id_marker@.len() == 0
                && d.next_key_marker@.len() == 0 && d.next_upload_id_marker@.len() == 0
                && d.max_uploads == 1000 && d.delimiter@.len() == 0 && !d.is_truncated
                && d.uploads@.len() == uploads@.len()
                && (forall|i: int| 0 <= i < uploads@.len() ==> {
                    let u = #[trigger] d.uploads@[i];
                    &&& u.key@ == uploads@[i].0@
                    &&& u.upload_id@ == uploads@[i].1@
                    &&& u.initiated@ == d.uploads@[0].initiated@
                    &&& is_utc_stamp(u.initiated@)
                }),
    {
        let now = rfc3339_now();
        let mut list: Vec<Upload> = Vec::new();
        let mut i: usize = 0;
        while i < uploads.len()
            invariant
                i <= uploads@.len(),
                list@.len() == i,
                forall|k: int| 0 <= k < i ==> {
                    let u = #[trigger] list@[k];
                    &&& u.key@ == uploads@[k].0@
                    &&& u.upload_id@ == uploads@[k].1@
                    &&& u.initiated@ == now@
                },
                is_utc_stamp(now@),
            decreases uploads@.len() - i,
        {
            list.push(Upload {
                key: uploads[i].0.clone(),
                upload_id: uploads[i].1.clone(),
                initiated: now.clone(),
            });
            i = i + 1;
        }
        let d = ListMultipartUploadsResult {
            bucket: bucket.to_string(),
            key_marker: String::new(),
            upload_id_marker: String::new(),
            next_key_marker: String::new(),
            next_upload_id_marker: String::new(),
            max_uploads: 1000,
            delimiter: String::new(),
            is_truncated: false,
            uploads: list,
        };
        xml_document(200, Document::Uploads(d))
    }

    /// The reply to a configuration write or removal.
    pub fn ok_bucket_config() -> (r: Reply)
        ensures
            bare_reply(r, 200),
    {
        bare(200)
    }

    /// The reply where a bucket has no such configuration.
    pub fn no_such_configuration() -> (r: Reply)
        ensures
            xml_reply(r, 404),
            r.body matches ReplyBody::Document(Document::Error(e)) && error_doc(e, ErrorKind::NoSuchConfiguration.answer(), None),
    {
        error_reply(ErrorKind::NoSuchConfiguration.code(), None)
    }

    /// The reply to a restore: accepted.
    pub fn accepted() -> (r: Reply)
        ensures
            bare_reply(r, 202),
    {
        bare(202)
    }

    /// The reply to a link write.
    pub fn put_symlink() -> (r: Reply)
        ensures
            bare_reply(r, 200),
    {
        bare(200)
    }

    /// A link: its target, and the target's etag, size and time.
    pub fn get_symlink(target: &str, etag: &str, size: i64, last_modified: &str) -> (r: Reply)
        ensures
            r.status == 200,
            is_uuid_text(reply_id(r)),
            hv(r.headers@) == served(reply_id(r)) + seq![("x-oss-symlink-target"@, target@), xml_type()],
            r.body matches ReplyBody::Document(Document::Symlink(d)) && d.target@ == target@
                && d.etag@ == etag@ && d.size@ == decimal_text(size as int)
                && d.last_modified@ == last_modified@,
    {
        let d = SymlinkTargetResponse {
            target: target.to_string(),
            etag: etag.to_string(),
            size: format_i64(size),
            last_modified: last_modified.to_string(),
        };
        let mut h = served_headers();
        push_header(&mut h, "x-oss-symlink-target", target.to_string());
        push_header(&mut h, "content-type", "application/xml".to_string());
        assert(hv(h@) =~= served(h@[1].1@) + seq![("x-oss-symlink-target"@, target@), xml_type()]);
        Reply { status: 200, headers: h, body: ReplyBody::Document(Document::Symlink(d)) }
    }

    /// A link, reported as modified now.
    pub fn get_symlink_now(target: &str, etag: &str, size: i64) -> (r: Reply)
        ensures
            r.status == 200,
            is_uuid_text(reply_id(r)),
            hv(r.headers@) == served(reply_id(r)) + seq![("x-oss-symlink-target"@, target@), xml_type()],
            r.body matches ReplyBody::Document(Document::Symlink(d)) && d.target@ == target@
                && d.etag@ == etag@ && d.size@ == decimal_text(size as int)
                && is_utc_stamp(d.last_modified@),
    {
        let now = rfc3339_now();
        Self::get_symlink(target, etag, size, now.as_str())
    }

    /// The reply to a part copy.
    pub fn upload_part_copy() -> (r: Reply)
        ensures
            xml_reply(r, 200),
            r.body matches ReplyBody::Document(Document::PartCopy(d)) && d.etag@ == "00000000000"@
                && is_utc_stamp(d.last_modified@),
    {
        let d = UploadPartCopyResult { last_modified: rfc3339_now(), etag: "00000000000".to_string() };
        xml_document(200, Document::PartCopy(d))
    }

    /// The reply to a read of a bucket configuration: its document, without
    /// the server header.
    pub fn bucket_config_document(doc: String) -> (r: Reply)
        ensures
            r.status == 200,
            r.headers@.len() == 2,
            is_uuid_text(r.headers@[0].1@),
            hv(r.headers@) == seq![("x-oss-request-id"@, r.headers@[0].1@), ("Content-Type"@, "application/xml"@)],
            r.body matches ReplyBody::Text(t) && t@ == doc@,
    {
        let mut h: Vec<(String, String)> = Vec::new();
        push_header(&mut h, "x-oss-request-id", new_request_id());
        push_header(&mut h, "Content-Type", "application/xml".to_string());
        Reply { status: 200, headers: h, body: ReplyBody::Text(doc) }
    }

    /// The bare failure a write that could not be done answers with.
    pub fn internal_server_error() -> (r: Reply)
        ensures
            r.status == 500,
            r.headers@.len() == 0,
            r.body is Empty,
    {
        Reply { status: 500, headers: Vec::new(), body: ReplyBody::Empty }
    }
}

} // verus!
