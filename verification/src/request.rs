//! Classification of an incoming request into the command that serves it,
//! with the bucket and object names that the path carries.

use vstd::prelude::*;
use crate::params::Params;
use crate::text::{chars_of, find_chars, find_from, string_of, str_contains, holds, occurs_at,
    lemma_find_from};

verus! {

pub const PUT_BUCKET: &'static str = "PUT_BUCKET";
pub const PUT_BUCKET_ACL: &'static str = "PUT_BUCKET_ACL";
pub const PUT_BUCKET_LOGGING: &'static str = "PUT_BUCKET_LOGGING";
pub const PUT_BUCKET_REFERER: &'static str = "PUT_BUCKET_REFERER";
pub const PUT_BUCKET_WEBSITE: &'static str = "PUT_BUCKET_WEBSITE";
pub const PUT_BUCKET_LIFECYCLE: &'static str = "PUT_BUCKET_LIFECYCLE";

pub const PUT_OBJECT: &'static str = "PUT_OBJECT";
pub const PUT_OBJECT_ACL: &'static str = "PUT_OBJECT_ACL";
pub const PUT_SYMLINK: &'static str = "PUT_SYMLINK";
pub const PUT_UPLOAD_PART: &'static str = "PUT_UPLOAD_PART";
pub const PUT_UPLOAD_PART_COPY: &'static str = "PUT_UPLOAD_PART_COPY";
pub const PUT_COPY_OBJECT: &'static str = "PUT_COPY_OBJECT";

pub const LIST_BUCKETS: &'static str = "LIST_BUCKETS";
pub const GET_BUCKET: &'static str = "GET_BUCKET";
pub const GET_BUCKET_ACL: &'static str = "GET_BUCKET_ACL";
pub const GET_BUCKET_INFO: &'static str = "GET_BUCKET_INFO";
pub const GET_BUCKET_LOCATION: &'static str = "GET_BUCKET_LOCATION";
pub const GET_BUCKET_LOGGING: &'static str = "GET_BUCKET_LOGGING";
pub const GET_BUCKET_REFERER: &'static str = "GET_BUCKET_REFERER";
pub const GET_BUCKET_WEBSITE: &'static str = "GET_BUCKET_WEBSITE";
pub const GET_BUCKET_LIFECYCLE: &'static str = "GET_BUCKET_LIFECYCLE";

pub const GET_OBJECT: &'static str = "GET_OBJECT";
pub const GET_OBJECT_ACL: &'static str = "GET_OBJECT_ACL";
pub const GET_OBJECT_META: &'static str = "GET_OBJECT_META";
pub const GET_SYMLINK: &'static str = "GET_SYMLINK";

pub const GET_LIST_MULTIPART_UPLOADS: &'static str = "GET_LIST_MULTIPART_UPLOADS";
pub const GET_LIST_PARTS: &'static str = "GET_LIST_PARTS";

pub const HEAD_OBJECT: &'static str = "HEAD_OBJECT";

pub const DELETE_BUCKET: &'static str = "DELETE_BUCKET";
pub const DELETE_BUCKET_LOGGING: &'static str = "DELETE_BUCKET_LOGGING";
pub const DELETE_BUCKET_WEBSITE: &'static str = "DELETE_BUCKET_WEBSITE";
pub const DELETE_BUCKET_REFERER: &'static str = "DELETE_BUCKET_REFERER";
pub const DELETE_BUCKET_LIFECYCLE: &'static str = "DELETE_BUCKET_LIFECYCLE";
pub const DELETE_ABORT_MULTIPART_UPLOAD: &'static str = "DELETE_ABORT_MULTIPART_UPLOAD";

pub const DELETE_OBJECT: &'static str = "DELETE_OBJECT";
pub const DELETE_MULTIPLE_OBJECTS: &'static str = "DELETE_MULTIPLE_OBJECTS";

pub const POST_RESTORE_OBJECT: &'static str = "POST_RESTORE_OBJECT";
pub const POST_APPEND_OBJECT: &'static str = "POST_APPEND_OBJECT";
pub const POST_INIT_MULTIPART_UPLOAD: &'static str = "POST_INIT_MULTIPART_UPLOAD";
pub const POST_COMPLETE_MULTIPART_UPLOAD: &'static str = "POST_COMPLETE_MULTIPART_UPLOAD";
pub const POST_OBJECT: &'static str = "POST_OBJECT";
pub const POST_ELSE: &'static str = "POST_ELSE";

pub const REQUEST_ERROR: &'static str = "REQUEST_ERROR";

/// A request as the router sees it, and what parsing made of it.
pub struct OssRequest {
    pub method: String,
    pub path: String,
    pub query: Params,
    pub headers: Params,
    pub cmd: String,
    pub bucket: String,
    pub object: String,
    pub src_bucket: String,
    pub src_object: String,
}

/// The mathematical content of an `OssRequest`.
pub struct RequestView {
    pub method: Seq<char>,
    pub path: Seq<char>,
    pub query: Map<Seq<char>, Seq<char>>,
    pub headers: Map<Seq<char>, Seq<char>>,
    pub cmd: Seq<char>,
    pub bucket: Seq<char>,
    pub object: Seq<char>,
    pub src_bucket: Seq<char>,
    pub src_object: Seq<char>,
}

impl View for OssRequest {
    type V = RequestView;

    open spec fn view(&self) -> RequestView {
        RequestView {
            method: self.method@,
            path: self.path@,
            query: self.query@,
            headers: self.headers@,
            cmd: self.cmd@,
            bucket: self.bucket@,
            object: self.object@,
            src_bucket: self.src_bucket@,
            src_object: self.src_object@,
        }
    }
}

// ------------------------------------------------------------------
// The rules
// ------------------------------------------------------------------

/// Dropping the leading byte of `path` (as `&path[1..]` does) is possible:
/// the path is not empty and begins with a one-byte character.
pub open spec fn path_sliceable(path: Seq<char>) -> bool {
    path.len() > 0 && (path[0] as u32) < 0x80
}

/// The text of `s` from `start` up to the next `/`, the text after that
/// `/`, and whether there was one.
pub open spec fn split_from(s: Seq<char>, start: int) -> (Seq<char>, Seq<char>, bool) {
    match find_from(s, seq!['/'], start) {
        Some(k) => (s.subrange(start, k), s.subrange(k + 1, s.len() as int), true),
        None => (s.subrange(start, s.len() as int), Seq::<char>::empty(), false),
    }
}

/// The object that a path names: all the text after the second `/` (empty if none).
pub open spec fn path_object(path: Seq<char>) -> Seq<char> {
    split_from(path, 1).1
}

/// The path holds a `/` after its leading character.
pub open spec fn path_has_object_part(path: Seq<char>) -> bool {
    split_from(path, 1).2
}

/// The number of `/` characters at the start of `s`.
pub open spec fn leading_slashes(s: Seq<char>) -> nat
    decreases s.len(),
{
    if s.len() > 0 && s[0] == '/' {
        1 + leading_slashes(s.drop_first())
    } else {
        0
    }
}

/// `GET /` (or `HEAD /`): the service-level command the query selects.
pub open spec fn root_get_cmd(q: Map<Seq<char>, Seq<char>>) -> Seq<char> {
    if q.contains_key("uploads"@) {
        GET_LIST_MULTIPART_UPLOADS@
    } else if q.contains_key("logging"@) {
        GET_BUCKET_LOGGING@
    } else if q.contains_key("website"@) {
        GET_BUCKET_WEBSITE@
    } else if q.contains_key("referer"@) {
        GET_BUCKET_REFERER@
    } else if q.contains_key("lifecycle"@) {
        GET_BUCKET_LIFECYCLE@
    } else {
        LIST_BUCKETS@
    }
}

/// A read of a bucket: the command the query selects.
pub open spec fn bucket_get_cmd(q: Map<Seq<char>, Seq<char>>) -> Seq<char> {
    if q.contains_key("uploads"@) {
        GET_LIST_MULTIPART_UPLOADS@
    } else if q.contains_key("acl"@) {
        GET_BUCKET_ACL@
    } else if q.contains_key("location"@) {
        GET_BUCKET_LOCATION@
    } else if q.contains_key("bucketInfo"@) {
        GET_BUCKET_INFO@
    } else if q.contains_key("logging"@) {
        GET_BUCKET_LOGGING@
    } else if q.contains_key("website"@) {
        GET_BUCKET_WEBSITE@
    } else if q.contains_key("referer"@) {
        GET_BUCKET_REFERER@
    } else if q.contains_key("lifecycle"@) {
        GET_BUCKET_LIFECYCLE@
    } else {
        GET_BUCKET@
    }
}

/// A read of an object: the command the query and the method select.
pub open spec fn object_get_cmd(is_head: bool, q: Map<Seq<char>, Seq<char>>) -> Seq<char> {
    if q.contains_key("acl"@) {
        GET_BUCKET_ACL@
    } else if q.contains_key("objectMeta"@) {
        GET_OBJECT_META@
    } else if q.contains_key("symlink"@) {
        GET_SYMLINK@
    } else if q.contains_key("uploadId"@) {
        GET_LIST_PARTS@
    } else if is_head {
        HEAD_OBJECT@
    } else {
        GET_OBJECT@
    }
}

/// A write to a bucket: the command the query selects.
pub open spec fn bucket_put_cmd(q: Map<Seq<char>, Seq<char>>) -> Seq<char> {
    if q.contains_key("acl"@) {
        PUT_BUCKET_ACL@
    } else if q.contains_key("logging"@) {
        PUT_BUCKET_LOGGING@
    } else if q.contains_key("website"@) {
        PUT_BUCKET_WEBSITE@
    } else if q.contains_key("referer"@) {
        PUT_BUCKET_REFERER@
    } else if q.contains_key("lifecycle"@) {
        PUT_BUCKET_LIFECYCLE@
    } else {
        PUT_BUCKET@
    }
}

/// A write to an object: the command the query selects.
pub open spec fn object_put_cmd(q: Map<Seq<char>, Seq<char>>) -> Seq<char> {
    if q.contains_key("acl"@) {
        PUT_BUCKET_ACL@
    } else if q.contains_key("symlink"@) {
        PUT_SYMLINK@
    } else if q.contains_key("partNumber"@) {
        PUT_UPLOAD_PART@
    } else {
        PUT_OBJECT@
    }
}

/// A copy into an object: a part copy when the query names a part of an upload.
pub open spec fn copy_cmd(q: Map<Seq<char>, Seq<char>>) -> Seq<char> {
    if q.contains_key("partNumber"@) && q.contains_key("uploadId"@) {
        PUT_UPLOAD_PART_COPY@
    } else {
        PUT_COPY_OBJECT@
    }
}

/// A removal from a bucket: the command the query selects.
pub open spec fn bucket_delete_cmd(q: Map<Seq<char>, Seq<char>>) -> Seq<char> {
    if q.contains_key("logging"@) {
        DELETE_BUCKET_LOGGING@
    } else if q.contains_key("website"@) {
        DELETE_BUCKET_WEBSITE@
    } else if q.contains_key("referer"@) {
        DELETE_BUCKET_REFERER@
    } else if q.contains_key("lifecycle"@) {
        DELETE_BUCKET_LIFECYCLE@
    } else {
        DELETE_BUCKET@
    }
}

/// A post: the command the query and the content type select.
pub open spec fn post_cmd(q: Map<Seq<char>, Seq<char>>, content_type: Seq<char>) -> Seq<char> {
    if q.contains_key("uploads"@) {
        POST_INIT_MULTIPART_UPLOAD@
    } else if q.contains_key("append"@) {
        POST_APPEND_OBJECT@
    } else if q.contains_key("uploadId"@) {
        POST_COMPLETE_MULTIPART_UPLOAD@
    } else if q.contains_key("delete"@) {
        DELETE_MULTIPLE_OBJECTS@
    } else if q.contains_key("restore"@) {
        POST_RESTORE_OBJECT@
    } else if holds(content_type, "multipart/form-data"@) {
        POST_OBJECT@
    } else {
        POST_ELSE@
    }
}

/// The value of header `name`, or the empty text.
pub open spec fn header_or_empty(h: Map<Seq<char>, Seq<char>>, name: Seq<char>) -> Seq<char> {
    if h.contains_key(name) {
        h[name]
    } else {
        Seq::<char>::empty()
    }
}

/// What `parse_get` makes of a request.
pub open spec fn parse_get_spec(r: RequestView) -> RequestView {
    if r.path == "/"@ {
        RequestView { cmd: root_get_cmd(r.query), ..r }
    } else {
        let (b, o, _) = split_from(r.path, 1);
        RequestView {
            cmd: if o.len() == 0 {
                bucket_get_cmd(r.query)
            } else {
                object_get_cmd(r.method == "HEAD"@, r.query)
            },
            bucket: b,
            object: o,
            ..r
        }
    }
}

/// What `parse_put` makes of a request.
pub open spec fn parse_put_spec(r: RequestView) -> RequestView {
    if r.path == "/"@ {
        RequestView { cmd: PUT_BUCKET@, ..r }
    } else {
        let (b, o, _) = split_from(r.path, 1);
        let base = if o.len() == 0 {
            bucket_put_cmd(r.query)
        } else {
            object_put_cmd(r.query)
        };
        let cs = header_or_empty(r.headers, "x-oss-copy-source"@);
        if cs.len() > 0 {
            let (sb, so, _) = split_from(cs, leading_slashes(cs) as int);
            RequestView {
                cmd: copy_cmd(r.query),
                bucket: b,
                object: o,
                src_bucket: sb,
                src_object: so,
                ..r
            }
        } else {
            RequestView { cmd: base, bucket: b, object: o, ..r }
        }
    }
}

/// What `parse_delete` makes of a request.
pub open spec fn parse_delete_spec(r: RequestView) -> RequestView {
    if r.path == "/"@ {
        RequestView { cmd: REQUEST_ERROR@, ..r }
    } else {
        let (b, o, has_slash) = split_from(r.path, 1);
        if !has_slash {
            RequestView { cmd: bucket_delete_cmd(r.query), bucket: b, ..r }
        } else {
            RequestView {
                cmd: if r.query.contains_key("uploadId"@) {
                    DELETE_ABORT_MULTIPART_UPLOAD@
                } else {
                    DELETE_OBJECT@
                },
                bucket: b,
                object: o,
                ..r
            }
        }
    }
}

/// What `parse_post` makes of a request.
pub open spec fn parse_post_spec(r: RequestView) -> RequestView {
    let (b, o, _) = split_from(r.path, 1);
    RequestView {
        cmd: post_cmd(r.query, header_or_empty(r.headers, "content-type"@)),
        bucket: b,
        object: o,
        ..r
    }
}

/// The method is one that parsing knows.
pub open spec fn known_method(m: Seq<char>) -> bool {
    m == "GET"@ || m == "HEAD"@ || m == "PUT"@ || m == "DELETE"@ || m == "POST"@
}

/// What `parse` makes of a request.
pub open spec fn parse_spec(r: RequestView) -> RequestView {
    if r.method == "GET"@ || r.method == "HEAD"@ {
        parse_get_spec(r)
    } else if r.method == "PUT"@ {
        parse_put_spec(r)
    } else if r.method == "DELETE"@ {
        parse_delete_spec(r)
    } else if r.method == "POST"@ {
        parse_post_spec(r)
    } else {
        r
    }
}

// ------------------------------------------------------------------
// Helpers
// ------------------------------------------------------------------

/// `s` reads exactly `lit`.
pub fn text_is(s: &String, lit: &str) -> (r: bool)
    ensures
        r == (s@ == lit@),
{
    let t = lit.to_string();
    *s == t
}

/// Splits `v` at the first `/` at or after `start`.
fn split_chars(v: &Vec<char>, start: usize) -> (r: (String, String, bool))
    requires
        start <= v@.len(),
    ensures
        (r.0@, r.1@, r.2) == split_from(v@, start as int),
{
    let n = v.len();
    let mut slash: Vec<char> = Vec::new();
    slash.push('/');
    assert(slash@ =~= seq!['/']);
    match find_chars(v.as_slice(), slash.as_slice(), start) {
        Some(k) => {
            proof {
                lemma_find_from(v@, seq!['/'], start as int);
                assert(find_from(v@, seq!['/'], start as int) == Some(k as int));
                assert(occurs_at(v@, seq!['/'], k as int));
            }
            assert(k < n);
            (string_of(v.as_slice(), start, k), string_of(v.as_slice(), k + 1, n), true)
        }
        None => (string_of(v.as_slice(), start, v.len()), String::new(), false),
    }
}

/// The number of `/` characters at the start of `v`.
fn count_leading_slashes(v: &Vec<char>) -> (n: usize)
    ensures
        n == leading_slashes(v@),
        n <= v@.len(),
{
    let mut i: usize = 0;
    assert(v@.skip(0) =~= v@);
    while i < v.len() && v[i] == '/'
        invariant
            i <= v@.len(),
            leading_slashes(v@) == i + leading_slashes(v@.skip(i as int)),
        decreases v@.len() - i,
    {
        proof {
            assert(v@.skip(i as int).drop_first() =~= v@.skip(i + 1));
        }
        i = i + 1;
    }
    proof {
        if i < v@.len() {
            assert(v@.skip(i as int)[0] == v@[i as int]);
        }
    }
    i
}

impl OssRequest {
    /// A request that has not been parsed yet.
    pub fn new(method: &str, path: &str, query: &Params, headers: &Params) -> (r: OssRequest)
        ensures
            r@ == (RequestView {
                method: method@,
                path: path@,
                query: query@,
                headers: headers@,
                cmd: Seq::empty(),
                bucket: Seq::empty(),
                object: Seq::empty(),
                src_bucket: Seq::empty(),
                src_object: Seq::empty(),
            }),
    {
        OssRequest {
            method: method.to_string(),
            path: path.to_string(),
            query: query.clone_params(),
            headers: headers.clone_params(),
            cmd: String::new(),
            bucket: String::new(),
            object: String::new(),
            src_bucket: String::new(),
            src_object: String::new(),
        }
    }

    /// Classifies the request by its method.
    pub fn parse(&mut self)
        requires
            known_method(old(self)@.method) ==> path_sliceable(old(self)@.path),
        ensures
            final(self)@ == parse_spec(old(self)@),
    {
        if text_is(&self.method, "GET") || text_is(&self.method, "HEAD") {
            self.parse_get();
        } else if text_is(&self.method, "PUT") {
            self.parse_put();
        } else if text_is(&self.method, "DELETE") {
            self.parse_delete();
        } else if text_is(&self.method, "POST") {
            self.parse_post();
        }
    }

    /// Classifies a read (`GET` or `HEAD`).
    pub fn parse_get(&mut self)
        requires
            path_sliceable(old(self)@.path),
        ensures
            final(self)@ == parse_get_spec(old(self)@),
    {
        if text_is(&self.path, "/") {
            let cmd = if self.query.contains_key("uploads") {
                GET_LIST_MULTIPART_UPLOADS
            } else if self.query.contains_key("logging") {
                GET_BUCKET_LOGGING
            } else if self.query.contains_key("website") {
                GET_BUCKET_WEBSITE
            } else if self.query.contains_key("referer") {
                GET_BUCKET_REFERER
            } else if self.query.contains_key("lifecycle") {
                GET_BUCKET_LIFECYCLE
            } else {
                LIST_BUCKETS
            };
            self.cmd = cmd.to_string();
        } else {
            let v = chars_of(self.path.as_str());
            let (b, o, _) = split_chars(&v, 1);
            let cmd = if o.as_str().is_empty() {
                if self.query.contains_key("uploads") {
                    GET_LIST_MULTIPART_UPLOADS
                } else if self.query.contains_key("acl") {
                    GET_BUCKET_ACL
                } else if self.query.contains_key("location") {
                    GET_BUCKET_LOCATION
                } else if self.query.contains_key("bucketInfo") {
                    GET_BUCKET_INFO
                } else if self.query.contains_key("logging") {
                    GET_BUCKET_LOGGING
                } else if self.query.contains_key("website") {
                    GET_BUCKET_WEBSITE
                } else if self.query.contains_key("referer") {
                    GET_BUCKET_REFERER
                } else if self.query.contains_key("lifecycle") {
                    GET_BUCKET_LIFECYCLE
                } else {
                    GET_BUCKET
                }
            } else if self.query.contains_key("acl") {
                GET_BUCKET_ACL
            } else if self.query.contains_key("objectMeta") {
                GET_OBJECT_META
            } else if self.query.contains_key("symlink") {
                GET_SYMLINK
            } else if self.query.contains_key("uploadId") {
                GET_LIST_PARTS
            } else if text_is(&self.method, "HEAD") {
                HEAD_OBJECT
            } else {
                GET_OBJECT
            };
            self.cmd = cmd.to_string();
            self.bucket = b;
            self.object = o;
        }
    }

    /// Classifies a write (`PUT`).
    pub fn parse_put(&mut self)
        requires
            path_sliceable(old(self)@.path),
        ensures
            final(self)@ == parse_put_spec(old(self)@),
    {
        if text_is(&self.path, "/") {
            self.cmd = PUT_BUCKET.to_string();
            return;
        }
        let v = chars_of(self.path.as_str());
        let (b, o, _) = split_chars(&v, 1);
        let cmd = if o.as_str().is_empty() {
            if self.query.contains_key("acl") {
                PUT_BUCKET_ACL
            } else if self.query.contains_key("logging") {
                PUT_BUCKET_LOGGING
            } else if self.query.contains_key("website") {
                PUT_BUCKET_WEBSITE
            } else if self.query.contains_key("referer") {
                PUT_BUCKET_REFERER
            } else if self.query.contains_key("lifecycle") {
                PUT_BUCKET_LIFECYCLE
            } else {
                PUT_BUCKET
            }
        } else if self.query.contains_key("acl") {
            PUT_BUCKET_ACL
        } else if self.query.contains_key("symlink") {
            PUT_SYMLINK
        } else if self.query.contains_key("partNumber") {
            PUT_UPLOAD_PART
        } else {
            PUT_OBJECT
        };
        self.cmd = cmd.to_string();
        self.bucket = b;
        self.object = o;

        let copy_source = self.headers.get_or_empty("x-oss-copy-source");
        if !copy_source.as_str().is_empty() {
            let cv = chars_of(copy_source.as_str());
            let lead = count_leading_slashes(&cv);
            let (sb, so, _) = split_chars(&cv, lead);
            self.src_bucket = sb;
            self.src_object = so;
            if self.query.contains_key("partNumber") && self.query.contains_key("uploadId") {
                self.cmd = PUT_UPLOAD_PART_COPY.to_string();
            } else {
                self.cmd = PUT_COPY_OBJECT.to_string();
            }
        }
    }

    /// Classifies a removal (`DELETE`).
    pub fn parse_delete(&mut self)
        requires
            path_sliceable(old(self)@.path),
        ensures
            final(self)@ == parse_delete_spec(old(self)@),
    {
        if text_is(&self.path, "/") {
            self.cmd = REQUEST_ERROR.to_string();
            return;
        }
        let v = chars_of(self.path.as_str());
        let (b, o, has_slash) = split_chars(&v, 1);
        self.bucket = b;
        if !has_slash {
            let cmd = if self.query.contains_key("logging") {
                DELETE_BUCKET_LOGGING
            } else if self.query.contains_key("website") {
                DELETE_BUCKET_WEBSITE
            } else if self.query.contains_key("referer") {
                DELETE_BUCKET_REFERER
            } else if self.query.contains_key("lifecycle") {
                DELETE_BUCKET_LIFECYCLE
            } else {
                DELETE_BUCKET
            };
            self.cmd = cmd.to_string();
        } else {
            let cmd = if self.query.contains_key("uploadId") {
                DELETE_ABORT_MULTIPART_UPLOAD
            } else {
                DELETE_OBJECT
            };
            self.cmd = cmd.to_string();
            self.object = o;
        }
    }

    /// Classifies a post (`POST`).
    pub fn parse_post(&mut self)
        requires
            path_sliceable(old(self)@.path),
        ensures
            final(self)@ == parse_post_spec(old(self)@),
    {
        let v = chars_of(self.path.as_str());
        let (b, o, _) = split_chars(&v, 1);
        self.bucket = b;
        self.object = o;
        let cmd = if self.query.contains_key("uploads") {
            POST_INIT_MULTIPART_UPLOAD
        } else if self.query.contains_key("append") {
            POST_APPEND_OBJECT
        } else if self.query.contains_key("uploadId") {
            POST_COMPLETE_MULTIPART_UPLOAD
        } else if self.query.contains_key("delete") {
            DELETE_MULTIPLE_OBJECTS
        } else if self.query.contains_key("restore") {
            POST_RESTORE_OBJECT
        } else {
            let content_type = self.headers.get_or_empty("content-type");
            if str_contains(content_type.as_str(), "multipart/form-data") {
                POST_OBJECT
            } else {
                POST_ELSE
            }
        };
        self.cmd = cmd.to_string();
    }
}

// ------------------------------------------------------------------
// Laws
// ------------------------------------------------------------------

/// Every command name that parsing can give to a request.
pub open spec fn is_command(c: Seq<char>) -> bool {
    ||| c == PUT_BUCKET@ || c == PUT_BUCKET_ACL@ || c == PUT_BUCKET_LOGGING@
    ||| c == PUT_BUCKET_REFERER@ || c == PUT_BUCKET_WEBSITE@ || c == PUT_BUCKET_LIFECYCLE@
    ||| c == PUT_OBJECT@ || c == PUT_SYMLINK@ || c == PUT_UPLOAD_PART@
    ||| c == PUT_UPLOAD_PART_COPY@ || c == PUT_COPY_OBJECT@
    ||| c == LIST_BUCKETS@ || c == GET_BUCKET@ || c == GET_BUCKET_ACL@ || c == GET_BUCKET_INFO@
    ||| c == GET_BUCKET_LOCATION@ || c == GET_BUCKET_LOGGING@ || c == GET_BUCKET_REFERER@
    ||| c == GET_BUCKET_WEBSITE@ || c == GET_BUCKET_LIFECYCLE@
    ||| c == GET_OBJECT@ || c == GET_OBJECT_META@ || c == GET_SYMLINK@
    ||| c == GET_LIST_MULTIPART_UPLOADS@ || c == GET_LIST_PARTS@ || c == HEAD_OBJECT@
    ||| c == DELETE_BUCKET@ || c == DELETE_BUCKET_LOGGING@ || c == DELETE_BUCKET_WEBSITE@
    ||| c == DELETE_BUCKET_REFERER@ || c == DELETE_BUCKET_LIFECYCLE@
    ||| c == DELETE_ABORT_MULTIPART_UPLOAD@ || c == DELETE_OBJECT@ || c == DELETE_MULTIPLE_OBJECTS@
    ||| c == POST_RESTORE_OBJECT@ || c == POST_APPEND_OBJECT@ || c == POST_INIT_MULTIPART_UPLOAD@
    ||| c == POST_COMPLETE_MULTIPART_UPLOAD@ || c == POST_OBJECT@ || c == POST_ELSE@
    ||| c == REQUEST_ERROR@
}

/// Parsing leaves the method, path, query and headers as they were, and a
/// request with a method it does not know is left unchanged.
pub proof fn law_parse_keeps_inputs(r: RequestView)
    ensures
        parse_spec(r).method == r.method,
        parse_spec(r).path == r.path,
        parse_spec(r).query == r.query,
        parse_spec(r).headers == r.headers,
        !known_method(r.method) ==> parse_spec(r) == r,
{
}

/// Parsing a request that was parsed already changes nothing.
pub proof fn law_parse_idempotent(r: RequestView)
    ensures
        parse_spec(parse_spec(r)) == parse_spec(r),
{
}

/// Every request with a known method is given one of the command names.
pub proof fn law_parse_gives_a_command(r: RequestView)
    requires
        known_method(r.method),
    ensures
        is_command(parse_spec(r).cmd),
{
}

/// Splitting at the first `/` loses nothing: the part before it, the `/`
/// and the part after it make up the text again, and the first part holds
/// no `/`.
pub proof fn law_split_reassembles(s: Seq<char>, start: int)
    requires
        0 <= start <= s.len(),
    ensures
        ({
            let (b, o, has_slash) = split_from(s, start);
            &&& s == s.subrange(0, start) + b + (if has_slash { seq!['/'] + o } else { Seq::<char>::empty() })
            &&& !holds(b, seq!['/'])
            &&& !has_slash ==> o.len() == 0
        }),
{
    lemma_find_from(s, seq!['/'], start);
    let (b, o, has_slash) = split_from(s, start);
    lemma_find_from(b, seq!['/'], 0);
    if has_slash {
        let k = find_from(s, seq!['/'], start)->0;
        assert(s[k] == '/') by {
            assert(s.subrange(k, k + 1)[0] == s[k]);
        }
        assert(s =~= s.subrange(0, start) + b + (seq!['/'] + o));
        assert forall|j: int| 0 <= j implies !occurs_at(b, seq!['/'], j) by {
            if occurs_at(b, seq!['/'], j) {
                assert(b.subrange(j, j + 1)[0] == b[j]);
                assert(s.subrange(start + j, start + j + 1) =~= seq!['/']);
                assert(!occurs_at(s, seq!['/'], start + j));
            }
        }
    } else {
        assert(s =~= s.subrange(0, start) + b + Seq::<char>::empty());
        assert forall|j: int| 0 <= j implies !occurs_at(b, seq!['/'], j) by {
            if occurs_at(b, seq!['/'], j) {
                assert(b.subrange(j, j + 1)[0] == b[j]);
                assert(s.subrange(start + j, start + j + 1) =~= seq!['/']);
                assert(!occurs_at(s, seq!['/'], start + j));
            }
        }
    }
}

/// For every known method and every path other than `/`, the bucket and the
/// object that parsing finds make up the path again: the leading character,
/// the bucket, and, where the path holds a second `/`, that `/` and the
/// object. The bucket never holds a `/`.
pub proof fn law_parsed_path_reassembles(r: RequestView)
    requires
        known_method(r.method),
        path_sliceable(r.path),
        r.path != "/"@,
    ensures
        ({
            let p = parse_spec(r);
            &&& r.path == r.path.subrange(0, 1) + p.bucket + (if path_has_object_part(r.path) {
                seq!['/'] + p.object
            } else {
                Seq::<char>::empty()
            })
            &&& !holds(p.bucket, seq!['/'])
        }),
{
    law_split_reassembles(r.path, 1);
}

/// A plain read of an object: a path with an object part and none of the
/// query parameters that select something other than the object's content.
pub open spec fn is_plain_object_read(r: RequestView) -> bool {
    &&& r.path != "/"@
    &&& path_object(r.path).len() > 0
    &&& !r.query.contains_key("acl"@)
    &&& !r.query.contains_key("objectMeta"@)
    &&& !r.query.contains_key("symlink"@)
    &&& !r.query.contains_key("uploadId"@)
}

/// A `HEAD` is classified as the `GET` of the same request would be, except
/// that a plain read of an object becomes `HEAD_OBJECT` where the `GET`
/// becomes `GET_OBJECT`.
pub proof fn law_head_mirrors_get(r: RequestView)
    requires
        r.method == "HEAD"@,
    ensures
        ({
            let g = parse_spec(RequestView { method: "GET"@, ..r });
            let h = parse_spec(r);
            &&& h.bucket == g.bucket
            &&& h.object == g.object
            &&& (if is_plain_object_read(r) {
                h.cmd == HEAD_OBJECT@ && g.cmd == GET_OBJECT@
            } else {
                h.cmd == g.cmd
            })
        }),
{
    broadcast use vstd::string::group_string_axioms;
    reveal_strlit("GET");
    reveal_strlit("HEAD");
    assert("GET"@.len() != "HEAD"@.len());
}

/// The lengths and some characters of the words that parsing looks for,
/// enough to tell any two of them apart.
proof fn lemma_words()
    ensures
        "uploads"@.len() == 7,
        "uploads"@[0] == 'u',
        "logging"@.len() == 7,
        "logging"@[0] == 'l',
        "website"@.len() == 7,
        "website"@[0] == 'w',
        "referer"@.len() == 7,
        "referer"@[0] == 'r',
        "referer"@[2] == 'f',
        "lifecycle"@.len() == 9,
        "lifecycle"@[0] == 'l',
        "acl"@.len() == 3,
        "acl"@[0] == 'a',
        "location"@.len() == 8,
        "location"@[0] == 'l',
        "bucketInfo"@.len() == 10,
        "bucketInfo"@[0] == 'b',
        "objectMeta"@.len() == 10,
        "objectMeta"@[0] == 'o',
        "symlink"@.len() == 7,
        "symlink"@[0] == 's',
        "uploadId"@.len() == 8,
        "uploadId"@[0] == 'u',
        "partNumber"@.len() == 10,
        "partNumber"@[0] == 'p',
        "append"@.len() == 6,
        "append"@[0] == 'a',
        "delete"@.len() == 6,
        "delete"@[0] == 'd',
        "restore"@.len() == 7,
        "restore"@[0] == 'r',
        "restore"@[2] == 's',
        "GET"@.len() == 3,
        "GET"@[0] == 'G',
        "HEAD"@.len() == 4,
        "HEAD"@[0] == 'H',
        "PUT"@.len() == 3,
        "PUT"@[0] == 'P',
        "DELETE"@.len() == 6,
        "DELETE"@[0] == 'D',
        "POST"@.len() == 4,
        "POST"@[0] == 'P',
        "/"@.len() == 1,
        "/"@[0] == '/',
{
    broadcast use vstd::string::group_string_axioms;
    reveal_strlit("uploads");
    reveal_strlit("logging");
    reveal_strlit("website");
    reveal_strlit("referer");
    reveal_strlit("lifecycle");
    reveal_strlit("acl");
    reveal_strlit("location");
    reveal_strlit("bucketInfo");
    reveal_strlit("objectMeta");
    reveal_strlit("symlink");
    reveal_strlit("uploadId");
    reveal_strlit("partNumber");
    reveal_strlit("append");
    reveal_strlit("delete");
    reveal_strlit("restore");
    reveal_strlit("GET");
    reveal_strlit("HEAD");
    reveal_strlit("PUT");
    reveal_strlit("DELETE");
    reveal_strlit("POST");
    reveal_strlit("/");
}

/// `path` names the bucket `b` alone: `/` and then `b`, which is not empty
/// and holds no `/`.
pub open spec fn bucket_path(path: Seq<char>, b: Seq<char>) -> bool {
    &&& path == seq!['/'] + b
    &&& b.len() > 0
    &&& forall|j: int| 0 <= j < b.len() ==> b[j] != '/'
}

/// `path` names the object `o` (not empty) in the bucket `b`: `/`, `b`
/// (not empty, without `/`), `/` and `o`.
pub open spec fn object_path(path: Seq<char>, b: Seq<char>, o: Seq<char>) -> bool {
    &&& path == seq!['/'] + b + seq!['/'] + o
    &&& b.len() > 0
    &&& o.len() > 0
    &&& forall|j: int| 0 <= j < b.len() ==> b[j] != '/'
}

proof fn lemma_bucket_split(path: Seq<char>, b: Seq<char>)
    requires
        bucket_path(path, b),
    ensures
        split_from(path, 1) == (b, Seq::<char>::empty(), false),
        path != "/"@,
{
    assert(path.subrange(1, path.len() as int) =~= b);
    crate::storage::lemma_no_slash(b);
    crate::storage::lemma_find_shift(path, seq!['/'], 1);
    lemma_words();
    assert(path.len() != "/"@.len());
}

proof fn lemma_object_split(path: Seq<char>, b: Seq<char>, o: Seq<char>)
    requires
        object_path(path, b, o),
    ensures
        split_from(path, 1) == (b, o, true),
        path != "/"@,
{
    let rest = path.subrange(1, path.len() as int);
    assert(rest =~= b + seq!['/'] + o);
    assert(rest[b.len() as int] == '/');
    assert forall|j: int| 0 <= j < b.len() implies rest[j] != '/' by {
        assert(rest[j] == b[j]);
    }
    crate::storage::lemma_first_slash(rest, b.len() as int);
    crate::storage::lemma_find_shift(path, seq!['/'], 1);
    assert(path.subrange(1, b.len() + 1 as int) =~= b);
    assert(path.subrange(b.len() + 2 as int, path.len() as int) =~= o);
    lemma_words();
    assert(path.len() != "/"@.len());
}

/// A `GET` is classified by the one query word it carries: on `/`, each
/// configuration word reads that configuration and no word lists the
/// buckets; on a bucket, each word reads what it names and no word lists
/// the bucket; on an object, each word reads what it names (an access
/// control read is a bucket's) and no word reads the object. The bucket and
/// object are those the path names.
pub proof fn law_get_selects_by_query_word(r: RequestView, b: Seq<char>, o: Seq<char>)
    requires
        r.method == "GET"@,
    ensures
        r.path == "/"@ ==> {
            let c = parse_spec(r).cmd;
            &&& r.query.dom() == Set::<Seq<char>>::empty() ==> c == "LIST_BUCKETS"@
            &&& r.query.dom() == set!["uploads"@] ==> c == "GET_LIST_MULTIPART_UPLOADS"@
            &&& r.query.dom() == set!["logging"@] ==> c == "GET_BUCKET_LOGGING"@
            &&& r.query.dom() == set!["website"@] ==> c == "GET_BUCKET_WEBSITE"@
            &&& r.query.dom() == set!["referer"@] ==> c == "GET_BUCKET_REFERER"@
            &&& r.query.dom() == set!["lifecycle"@] ==> c == "GET_BUCKET_LIFECYCLE"@
        },
        bucket_path(r.path, b) ==> {
            let p = parse_spec(r);
            &&& p.bucket == b && p.object.len() == 0
            &&& r.query.dom() == Set::<Seq<char>>::empty() ==> p.cmd == "GET_BUCKET"@
            &&& r.query.dom() == set!["uploads"@] ==> p.cmd == "GET_LIST_MULTIPART_UPLOADS"@
            &&& r.query.dom() == set!["acl"@] ==> p.cmd == "GET_BUCKET_ACL"@
            &&& r.query.dom() == set!["location"@] ==> p.cmd == "GET_BUCKET_LOCATION"@
            &&& r.query.dom() == set!["bucketInfo"@] ==> p.cmd == "GET_BUCKET_INFO"@
            &&& r.query.dom() == set!["logging"@] ==> p.cmd == "GET_BUCKET_LOGGING"@
            &&& r.query.dom() == set!["website"@] ==> p.cmd == "GET_BUCKET_WEBSITE"@
            &&& r.query.dom() == set!["referer"@] ==> p.cmd == "GET_BUCKET_REFERER"@
            &&& r.query.dom() == set!["lifecycle"@] ==> p.cmd == "GET_BUCKET_LIFECYCLE"@
        },
        object_path(r.path, b, o) ==> {
            let p = parse_spec(r);
            &&& p.bucket == b && p.object == o
            &&& r.query.dom() == Set::<Seq<char>>::empty() ==> p.cmd == "GET_OBJECT"@
            &&& r.query.dom() == set!["acl"@] ==> p.cmd == "GET_BUCKET_ACL"@
            &&& r.query.dom() == set!["objectMeta"@] ==> p.cmd == "GET_OBJECT_META"@
            &&& r.query.dom() == set!["symlink"@] ==> p.cmd == "GET_SYMLINK"@
            &&& r.query.dom() == set!["uploadId"@] ==> p.cmd == "GET_LIST_PARTS"@
        },
{
    lemma_words();
    if bucket_path(r.path, b) {
        lemma_bucket_split(r.path, b);
    }
    if object_path(r.path, b, o) {
        lemma_object_split(r.path, b, o);
    }
}

/// A `HEAD` of an object without query words reads the object's headers.
pub proof fn law_head_reads_object_headers(r: RequestView, b: Seq<char>, o: Seq<char>)
    requires
        r.method == "HEAD"@,
        object_path(r.path, b, o),
        r.query.dom() == Set::<Seq<char>>::empty(),
    ensures
        parse_spec(r).cmd == "HEAD_OBJECT"@,
        parse_spec(r).bucket == b,
        parse_spec(r).object == o,
{
    lemma_words();
    lemma_object_split(r.path, b, o);
}

/// A `PUT` without a copy source is classified by the one query word it
/// carries: on a bucket, each configuration word writes that configuration
/// and no word creates the bucket; on an object, `acl` writes an access
/// control (a bucket's), `symlink` makes a link, `partNumber` uploads a part
/// and no word writes the object. With a copy source, a `PUT` on an object
/// copies the source named after its leading `/`s, or copies into a part
/// where the query names both `partNumber` and `uploadId`.
pub proof fn law_put_selects_by_query_word(r: RequestView, b: Seq<char>, o: Seq<char>)
    requires
        r.method == "PUT"@,
    ensures
        r.path == "/"@ ==> parse_spec(r).cmd == "PUT_BUCKET"@,
        bucket_path(r.path, b) && !r.headers.contains_key("x-oss-copy-source"@) ==> {
            let p = parse_spec(r);
            &&& p.bucket == b && p.object.len() == 0
            &&& r.query.dom() == Set::<Seq<char>>::empty() ==> p.cmd == "PUT_BUCKET"@
            &&& r.query.dom() == set!["acl"@] ==> p.cmd == "PUT_BUCKET_ACL"@
            &&& r.query.dom() == set!["logging"@] ==> p.cmd == "PUT_BUCKET_LOGGING"@
            &&& r.query.dom() == set!["website"@] ==> p.cmd == "PUT_BUCKET_WEBSITE"@
            &&& r.query.dom() == set!["referer"@] ==> p.cmd == "PUT_BUCKET_REFERER"@
            &&& r.query.dom() == set!["lifecycle"@] ==> p.cmd == "PUT_BUCKET_LIFECYCLE"@
        },
        object_path(r.path, b, o) && !r.headers.contains_key("x-oss-copy-source"@) ==> {
            let p = parse_spec(r);
            &&& p.bucket == b && p.object == o
            &&& r.query.dom() == Set::<Seq<char>>::empty() ==> p.cmd == "PUT_OBJECT"@
            &&& r.query.dom() == set!["acl"@] ==> p.cmd == "PUT_BUCKET_ACL"@
            &&& r.query.dom() == set!["symlink"@] ==> p.cmd == "PUT_SYMLINK"@
            &&& r.query.dom() == set!["partNumber"@] ==> p.cmd == "PUT_UPLOAD_PART"@
        },
        object_path(r.path, b, o) && r.headers.contains_key("x-oss-copy-source"@)
            && r.headers["x-oss-copy-source"@] == seq!['/'] + b + seq!['/'] + o ==> {
            let p = parse_spec(r);
            &&& p.bucket == b && p.object == o
            &&& p.src_bucket == b && p.src_object == o
            &&& r.query.dom() == Set::<Seq<char>>::empty() ==> p.cmd == "PUT_COPY_OBJECT"@
            &&& r.query.dom() == set!["partNumber"@, "uploadId"@] ==> p.cmd == "PUT_UPLOAD_PART_COPY"@
            &&& r.query.dom() == set!["partNumber"@] ==> p.cmd == "PUT_COPY_OBJECT"@
        },
{
    lemma_words();
    if bucket_path(r.path, b) {
        lemma_bucket_split(r.path, b);
    }
    if object_path(r.path, b, o) {
        lemma_object_split(r.path, b, o);
        if r.headers.contains_key("x-oss-copy-source"@) && r.headers["x-oss-copy-source"@] == seq!['/'] + b + seq!['/'] + o {
            let cs = r.headers["x-oss-copy-source"@];
            assert(cs.len() > 0);
            assert(cs[0] == '/');
            assert(cs.drop_first() =~= b + seq!['/'] + o);
            assert(b[0] != '/');
            assert(cs.drop_first()[0] == b[0]);
            assert(leading_slashes(cs.drop_first()) == 0);
            assert(leading_slashes(cs) == 1);
            lemma_object_split(cs, b, o);
        }
    }
}

/// A `DELETE` on `/` is refused; on a bucket, each configuration word
/// removes that configuration and no word removes the bucket (the object
/// the request held is left as it was); on an object,
/// `uploadId` abandons a multipart upload and no word removes the object.
pub proof fn law_delete_selects_by_query_word(r: RequestView, b: Seq<char>, o: Seq<char>)
    requires
        r.method == "DELETE"@,
    ensures
        r.path == "/"@ ==> parse_spec(r).cmd == "REQUEST_ERROR"@,
        bucket_path(r.path, b) ==> {
            let p = parse_spec(r);
            &&& p.bucket == b && p.object == r.object
            &&& r.query.dom() == Set::<Seq<char>>::empty() ==> p.cmd == "DELETE_BUCKET"@
            &&& r.query.dom() == set!["logging"@] ==> p.cmd == "DELETE_BUCKET_LOGGING"@
            &&& r.query.dom() == set!["website"@] ==> p.cmd == "DELETE_BUCKET_WEBSITE"@
            &&& r.query.dom() == set!["referer"@] ==> p.cmd == "DELETE_BUCKET_REFERER"@
            &&& r.query.dom() == set!["lifecycle"@] ==> p.cmd == "DELETE_BUCKET_LIFECYCLE"@
        },
        object_path(r.path, b, o) ==> {
            let p = parse_spec(r);
            &&& p.bucket == b && p.object == o
            &&& r.query.dom() == Set::<Seq<char>>::empty() ==> p.cmd == "DELETE_OBJECT"@
            &&& r.query.dom() == set!["uploadId"@] ==> p.cmd == "DELETE_ABORT_MULTIPART_UPLOAD"@
        },
{
    lemma_words();
    if bucket_path(r.path, b) {
        lemma_bucket_split(r.path, b);
    }
    if object_path(r.path, b, o) {
        lemma_object_split(r.path, b, o);
    }
}

/// A `POST` on an object is classified by the one query word it carries:
/// `uploads` starts a multipart upload, `append` appends, `uploadId`
/// completes an upload, `restore` restores; on a bucket, `delete` deletes
/// several objects. Without a query word, a form (a content type holding
/// `multipart/form-data`) uploads an object and anything else is refused.
pub proof fn law_post_selects_by_query_word(r: RequestView, b: Seq<char>, o: Seq<char>)
    requires
        r.method == "POST"@,
    ensures
        object_path(r.path, b, o) ==> {
            let p = parse_spec(r);
            &&& p.bucket == b && p.object == o
            &&& r.query.dom() == set!["uploads"@] ==> p.cmd == "POST_INIT_MULTIPART_UPLOAD"@
            &&& r.query.dom() == set!["append"@] ==> p.cmd == "POST_APPEND_OBJECT"@
            &&& r.query.dom() == set!["uploadId"@] ==> p.cmd == "POST_COMPLETE_MULTIPART_UPLOAD"@
            &&& r.query.dom() == set!["restore"@] ==> p.cmd == "POST_RESTORE_OBJECT"@
        },
        bucket_path(r.path, b) ==> {
            let p = parse_spec(r);
            &&& p.bucket == b && p.object.len() == 0
            &&& r.query.dom() == set!["delete"@] ==> p.cmd == "DELETE_MULTIPLE_OBJECTS"@
            &&& r.query.dom() == Set::<Seq<char>>::empty() && r.headers.contains_key("content-type"@)
                && holds(r.headers["content-type"@], "multipart/form-data"@) ==> p.cmd == "POST_OBJECT"@
            &&& r.query.dom() == Set::<Seq<char>>::empty() && !r.headers.contains_key("content-type"@)
                ==> p.cmd == "POST_ELSE"@
        },
{
    lemma_words();
    if bucket_path(r.path, b) {
        lemma_bucket_split(r.path, b);
        broadcast use vstd::string::group_string_axioms;
        reveal_strlit("multipart/form-data");
        reveal_strlit("");
        assert(!holds(Seq::<char>::empty(), "multipart/form-data"@));
    }
    if object_path(r.path, b, o) {
        lemma_object_split(r.path, b, o);
    }
}

} // verus!
