use oss_emulator::error::ErrorKind;
use oss_emulator::models::Part;
use oss_emulator::response::{Document, OssResponse, Reply, ReplyBody};
use oss_emulator::storage::ListBucketInfo;

fn header<'a>(r: &'a Reply, name: &str) -> Option<&'a str> {
    r.headers.iter().find(|(k, _)| k == name).map(|(_, v)| v.as_str())
}

fn is_uuid(s: &str) -> bool {
    s.len() == 36
        && s.chars().enumerate().all(|(i, c)| {
            if [8, 13, 18, 23].contains(&i) { c == '-' } else { c.is_ascii_digit() || ('a'..='f').contains(&c) }
        })
}

#[test]
fn error_reply_names_the_bucket() {
    let r = OssResponse::no_such_bucket("photos");
    assert_eq!(r.status, 404);
    assert_eq!(header(&r, "server"), Some("AliyunOSS"));
    assert!(is_uuid(header(&r, "x-oss-request-id").unwrap()));
    assert_eq!(header(&r, "content-type"), Some("application/xml"));
    match &r.body {
        ReplyBody::Document(Document::Error(e)) => {
            assert_eq!(e.code, "NoSuchBucket");
            assert_eq!(e.message, "The bucket does not exist.");
            assert_eq!(e.host_id, "localhost");
            assert_eq!(e.bucket_name, Some("photos".to_string()));
            assert!(is_uuid(&e.request_id));
        }
        _ => panic!("expected an error document"),
    }
}

#[test]
fn missing_object_is_not_found() {
    let r = OssResponse::no_such_object("b", "k");
    assert_eq!(r.status, 404);
    assert!(matches!(&r.body, ReplyBody::Document(Document::Error(e)) if e.code == "NotFound"));
}

#[test]
fn plain_error_names_no_bucket() {
    let r = OssResponse::error(ErrorKind::BucketNotEmpty.code());
    assert_eq!(r.status, 409);
    assert!(matches!(&r.body, ReplyBody::Document(Document::Error(e)) if e.bucket_name.is_none()));
    assert_eq!(OssResponse::not_implemented().status, 501);
    assert_eq!(OssResponse::no_such_configuration().status, 404);
}

#[test]
fn preflight_reply() {
    let r = OssResponse::options();
    assert_eq!(r.status, 200);
    assert_eq!(header(&r, "Access-Control-Allow-Methods"), Some("PUT, POST, HEAD, GET, OPTIONS"));
    assert_eq!(header(&r, "Access-Control-Expose-Headers"), Some("ETag"));
    assert!(header(&r, "x-oss-request-id").is_none());
    assert!(matches!(r.body, ReplyBody::Empty));
}

#[test]
fn object_content_reply() {
    let r = OssResponse::get_object(b"hello".to_vec(), "text/plain");
    assert_eq!(r.status, 200);
    assert_eq!(header(&r, "content-type"), Some("text/plain"));
    assert_eq!(header(&r, "content-length"), Some("5"));
    assert!(header(&r, "Last-Modified").unwrap().ends_with(" GMT"));
    assert!(header(&r, "Content-Range").is_none());
    assert!(matches!(&r.body, ReplyBody::Bytes(b) if b == b"hello"));
    let r = OssResponse::get_object_range(b"el".to_vec(), "text/plain", "bytes 1-2/5");
    assert_eq!(r.status, 206);
    assert_eq!(header(&r, "Content-Range"), Some("bytes 1-2/5"));
    assert_eq!(header(&r, "content-length"), Some("2"));
}

#[test]
fn head_reply_reports_size() {
    let r = OssResponse::head_object(1234);
    assert_eq!(header(&r, "content-length"), Some("1234"));
    assert_eq!(header(&r, "x-oss-next-append-position"), Some("1234"));
    assert_eq!(header(&r, "x-oss-object-type"), Some("Appendable"));
    assert_eq!(OssResponse::append_object(77).headers.last().unwrap().1, "77");
    assert_eq!(header(&OssResponse::get_object_meta(9), "content-length"), Some("9"));
}

#[test]
fn write_replies() {
    let r = OssResponse::put_object();
    assert_eq!(header(&r, "ETag"), Some("00000000000"));
    assert_eq!(header(&r, "x-oss-bucket-version"), Some("1418321259"));
    let r = OssResponse::put_bucket();
    assert_eq!(header(&r, "Location"), Some("oss-example"));
    assert_eq!(OssResponse::ok_no_content().status, 204);
    assert_eq!(OssResponse::accepted().status, 202);
    assert_eq!(OssResponse::internal_server_error().status, 500);
    assert!(OssResponse::internal_server_error().headers.is_empty());
}

#[test]
fn bucket_listing_document() {
    let infos = vec![ListBucketInfo { name: "a".to_string(), creation_date: "d".to_string() }];
    match OssResponse::list_buckets(&infos).body {
        ReplyBody::Document(Document::Buckets(d)) => {
            assert_eq!(d.buckets.bucket.len(), 1);
            assert_eq!(d.buckets.bucket[0].name, "a");
            assert_eq!(d.owner.id, "00220120222");
            assert_eq!(d.owner.display_name, "1390402650033798");
        }
        _ => panic!("expected the buckets"),
    }
}

#[test]
fn object_listing_document() {
    let r = OssResponse::list_objects("b", &[], &["p//".to_string()], "p/", "", 50, "/", "", false);
    match r.body {
        ReplyBody::Document(Document::Objects(d)) => {
            assert_eq!(d.max_keys, "50");
            assert_eq!(d.encoding_type, "url");
            assert_eq!(d.common_prefixes[0].prefix, "p//");
        }
        _ => panic!("expected a listing"),
    }
}

#[test]
fn parts_and_uploads_documents() {
    let parts = vec![Part { part_number: 1, last_modified: "t".to_string(), etag: "e".to_string(), size: 3 }];
    match OssResponse::list_parts("b", "k", &parts).body {
        ReplyBody::Document(Document::Parts(d)) => {
            assert_eq!(d.max_parts, 1000);
            assert_eq!(d.parts[0].size, 3);
            assert_eq!(d.upload_id, "0000000");
        }
        _ => panic!("expected the parts"),
    }
    let uploads = vec![("k1".to_string(), "0000000".to_string()), ("k2".to_string(), "0000000".to_string())];
    match OssResponse::list_multipart_uploads("b", &uploads).body {
        ReplyBody::Document(Document::Uploads(d)) => {
            assert_eq!(d.uploads.len(), 2);
            assert_eq!(d.uploads[1].key, "k2");
            assert_eq!(d.uploads[0].initiated, d.uploads[1].initiated);
        }
        _ => panic!("expected the uploads"),
    }
}

#[test]
fn symlink_document() {
    let r = OssResponse::get_symlink("b/t", "etag", 42, "2024-01-01T00:00:00Z");
    assert_eq!(header(&r, "x-oss-symlink-target"), Some("b/t"));
    match r.body {
        ReplyBody::Document(Document::Symlink(d)) => {
            assert_eq!(d.size, "42");
            assert_eq!(d.last_modified, "2024-01-01T00:00:00Z");
        }
        _ => panic!("expected the link"),
    }
    let r = OssResponse::get_symlink_now("b/t", "e", 0);
    assert!(matches!(r.body, ReplyBody::Document(Document::Symlink(ref d)) if !d.last_modified.is_empty()));
}

#[test]
fn configuration_document_reply() {
    let r = OssResponse::bucket_config_document("<x/>".to_string());
    assert_eq!(r.status, 200);
    assert_eq!(r.headers.len(), 2);
    assert!(is_uuid(&r.headers[0].1));
    assert_eq!(r.headers[1], ("Content-Type".to_string(), "application/xml".to_string()));
    assert!(matches!(r.body, ReplyBody::Text(ref t) if t == "<x/>"));
}

#[test]
fn location_and_copy_replies() {
    assert!(matches!(OssResponse::get_bucket_location().body, ReplyBody::Text(ref t) if t.contains("oss-cn-hangzhou")));
    assert!(matches!(OssResponse::copy_object().body, ReplyBody::Text(ref t) if t.contains("<CopyObjectResult>")));
    assert!(matches!(OssResponse::get_bucket_info("b").body, ReplyBody::Document(Document::Info(ref i)) if i.bucket.name == "b"));
}

#[test]
fn bucket_check() {
    assert!(OssResponse::check_bucket_exists(true, "b").is_none());
    assert_eq!(OssResponse::check_bucket_exists(false, "b").unwrap().status, 404);
}

#[test]
fn success_with_given_headers() {
    let r = OssResponse::ok("GET_OBJECT", vec![("x-a", "1".to_string())], b"z".to_vec());
    assert_eq!(r.headers.len(), 3);
    assert_eq!(header(&r, "x-a"), Some("1"));
}
