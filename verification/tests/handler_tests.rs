use oss_emulator::error::ErrorKind;
use oss_emulator::handlers::bucket::{create_bucket, delete_bucket, get_bucket, list_buckets};
use oss_emulator::handlers::bucket_config::{get_bucket_logging, put_bucket_logging, put_bucket_referer};
use oss_emulator::handlers::multipart::{
    complete_multipart_upload, list_parts, next_part_number, scan_parts, upload_part, upload_part_copy, PartScan,
};
use oss_emulator::handlers::object::{
    append_object, copy_object, post_object_checked, delete_multiple_objects, get_object, get_symlink, head_object,
    post_object, put_object, put_symlink, restore_object,
};
use oss_emulator::handlers::{Answer, Effect, ObjectRead};
use oss_emulator::models::{BucketConfig, BucketLoggingStatus, DeleteObject, DeleteRequest, LoggingEnabled, Metadata, RefererConfiguration, RefererList};
use oss_emulator::params::Params;
use oss_emulator::storage::FoundObject;

fn params(pairs: &[(&str, &str)]) -> Params {
    let mut p = Params::new();
    for (k, v) in pairs {
        p.insert(k.to_string(), v.to_string());
    }
    p
}

#[test]
fn missing_bucket_is_answered_first() {
    let s = put_object("nope", "o", false, &params(&[("content-length", "3")]), b"abc".to_vec());
    assert!(s.effects.is_empty());
    assert!(matches!(s.answer, Answer::NoSuchBucket(ref b) if b == "nope"));
    assert!(matches!(head_object("nope", "o", false, None), Answer::NoSuchBucket(_)));
}

#[test]
fn put_object_stores_content_and_record() {
    let s = put_object("b", "k", true, &params(&[("content-length", "3"), ("content-type", "text/plain")]), b"abc".to_vec());
    assert!(matches!(s.answer, Answer::PutObject));
    assert!(matches!(s.guarded, Some((2, Answer::ServerError))));
    assert_eq!(s.effects.len(), 4);
    assert!(matches!(s.effects[0], Effect::RemoveObject(ref k) if k == "k"));
    assert!(matches!(s.effects[1], Effect::MakeObjectDir(ref k) if k == "k"));
    assert!(matches!(s.effects[2], Effect::WriteContent(ref k, ref d) if k == "k" && d == b"abc"));
    match &s.effects[3] {
        Effect::SaveObjectMeta(k, m) => {
            assert_eq!(k, "k");
            assert_eq!(m.size, 3);
            assert_eq!(m.content_type, "text/plain");
            assert_eq!(m.md5, "00000000000000000000000000000000");
            assert_eq!(m.acl, "default");
            assert!(!m.appendable);
        }
        _ => panic!("expected the record"),
    }
}

#[test]
fn put_object_needs_a_length() {
    let s = put_object("b", "k", true, &params(&[]), vec![]);
    assert!(matches!(s.answer, Answer::Error(ErrorKind::MissingContentLength)));
    let s = put_object("b", "k", true, &params(&[("content-length", "x")]), vec![]);
    assert!(matches!(s.answer, Answer::Error(ErrorKind::MissingContentLength)));
    let s = put_object("b", "k", true, &params(&[("transfer-encoding", "chunked")]), vec![1]);
    assert!(matches!(s.answer, Answer::PutObject));
    let s = put_object("b", "k", true, &params(&[("content-length", "5368709121")]), vec![]);
    assert!(matches!(s.answer, Answer::Error(ErrorKind::InvalidArgument)));
    let s = put_object("b", "k", true, &params(&[("content-length", "5368709120")]), vec![]);
    assert!(matches!(s.answer, Answer::PutObject));
    match &s.effects[3] {
        Effect::SaveObjectMeta(_, m) => assert_eq!(m.content_type, "application/octet-stream"),
        _ => panic!("expected the record"),
    }
}

#[test]
fn read_after_write() {
    let s = put_object("b", "k", true, &params(&[("content-length", "5")]), b"hello".to_vec());
    let (data, meta) = match (&s.effects[2], &s.effects[3]) {
        (Effect::WriteContent(_, d), Effect::SaveObjectMeta(_, m)) => (d.clone(), m),
        _ => panic!("expected content and record"),
    };
    match get_object("b", "k", true, Some(meta), Some(data), None) {
        Answer::Content(ObjectRead::Whole { data, content_type }) => {
            assert_eq!(data, b"hello".to_vec());
            assert_eq!(content_type, "application/octet-stream");
        }
        _ => panic!("expected the content"),
    }
}

#[test]
fn get_object_without_record_or_content() {
    let m = Metadata::new("b", "k");
    assert!(matches!(get_object("b", "k", true, None, Some(vec![]), None), Answer::NoSuchObject(_, _)));
    assert!(matches!(get_object("b", "k", true, Some(&m), None, None), Answer::NoSuchObject(_, _)));
    assert!(matches!(head_object("b", "k", true, Some(&m)), Answer::HeadObject(0)));
}

#[test]
fn append_grows_the_object() {
    let s = append_object("b", "k", true, None, 0, &params(&[]), b"ab".to_vec());
    assert!(matches!(s.answer, Answer::AppendObject(2)));
    let m = match &s.effects[2] {
        Effect::SaveObjectMeta(_, m) => m,
        _ => panic!("expected the record"),
    };
    assert!(m.appendable);
    assert_eq!(m.size, 2);
    let s = append_object("b", "k", true, Some(m), 2, &params(&[]), b"cde".to_vec());
    assert!(matches!(s.answer, Answer::AppendObject(5)));
    assert!(matches!(s.effects[1], Effect::AppendContent(_, ref d) if d == b"cde"));
}

#[test]
fn append_to_a_whole_object_is_refused() {
    let m = Metadata::new("b", "k");
    let s = append_object("b", "k", true, Some(&m), 4, &params(&[]), b"x".to_vec());
    assert!(matches!(s.answer, Answer::Error(ErrorKind::ObjectNotAppendable)));
    assert_eq!(s.effects.len(), 1);
    assert!(matches!(s.effects[0], Effect::MakeObjectDir(_)));
}

#[test]
fn copy_object_cases() {
    let s = copy_object("d", "o", None, true, None, true);
    assert!(matches!(s.answer, Answer::NotImplemented));
    let h = "/nobucketslash".to_string();
    assert!(matches!(copy_object("d", "o", Some(&h), true, None, true).answer, Answer::NotImplemented));
    let h = "/src/dir/file".to_string();
    assert!(matches!(copy_object("d", "o", Some(&h), false, None, true).answer, Answer::NoSuchBucket(ref b) if b == "src"));
    assert!(matches!(copy_object("d", "o", Some(&h), true, None, true).answer, Answer::NoSuchObject(ref b, ref k) if b == "src" && k == "dir/file"));
    let s = copy_object("d", "o", Some(&h), true, Some(b"xyz".to_vec()), false);
    assert!(matches!(s.answer, Answer::CopyObject));
    assert_eq!(s.effects.len(), 5);
    assert!(matches!(s.effects[0], Effect::MakeBucketDir));
    assert!(matches!(s.effects[1], Effect::SaveBucketMeta(ref m) if m.bucket == "d" && m.object.is_empty()));
    assert!(matches!(s.effects[3], Effect::WriteContent(ref k, ref d) if k == "o" && d == b"xyz"));
    match &s.effects[4] {
        Effect::SaveObjectMeta(_, m) => {
            assert_eq!(m.size, 3);
            assert_eq!(m.content_type, "application/octet-stream");
            assert!(!m.creation_date.is_empty());
        }
        _ => panic!("expected the record"),
    }
    let s = copy_object("d", "o", Some(&h), true, Some(vec![]), true);
    assert_eq!(s.effects.len(), 3);
}

#[test]
fn multiple_delete_removes_each_key() {
    let req = DeleteRequest {
        objects: vec![DeleteObject { key: "a".to_string() }, DeleteObject { key: "b/c".to_string() }],
        quiet: None,
    };
    let s = delete_multiple_objects("b", true, Some(&req));
    assert_eq!(s.effects.len(), 2);
    assert!(matches!(s.effects[1], Effect::RemoveObject(ref k) if k == "b/c"));
    assert!(matches!(s.answer, Answer::Deleted(ref keys) if keys == &vec!["a".to_string(), "b/c".to_string()]));
    assert!(matches!(delete_multiple_objects("b", true, None).answer, Answer::Error(ErrorKind::BadRequest)));
}

#[test]
fn symlinks() {
    assert!(matches!(put_symlink("b", "l", true, &params(&[])).answer, Answer::Error(ErrorKind::BadRequest)));
    let s = put_symlink("b", "l", true, &params(&[("x-oss-symlink-target", "b/target")]));
    let link = match &s.effects[2] {
        Effect::SaveObjectMeta(_, m) => m,
        _ => panic!("expected the record"),
    };
    assert_eq!(link.symlink_target, "b/target");
    let mut target = Metadata::new("b", "target");
    target.size = 10;
    target.md5 = "abc".to_string();
    assert!(matches!(get_symlink("b", "l", true, Some(link), Some(&target)), Answer::Symlink(ref t, ref e, 10) if t == "b/target" && e == "abc"));
    assert!(matches!(get_symlink("b", "l", true, Some(link), None), Answer::Symlink(_, ref e, 0) if e == "00000000000000000000000000000000"));
    let plain = Metadata::new("b", "l");
    assert!(matches!(get_symlink("b", "l", true, Some(&plain), None), Answer::NoSuchObject(_, _)));
    let mut odd = Metadata::new("b", "l");
    odd.symlink_target = "noslash".to_string();
    assert!(matches!(get_symlink("b", "l", true, Some(&odd), Some(&target)), Answer::Symlink(_, _, 0)));
}

#[test]
fn restore_marks_the_record() {
    let s = restore_object("b", "k", true, Some(Metadata::new("b", "k")));
    assert!(matches!(s.answer, Answer::Accepted));
    assert!(matches!(s.effects[0], Effect::SaveObjectMeta(_, ref m) if m.restore_status == Some("ongoing-request".to_string())));
    assert!(matches!(restore_object("b", "k", true, None).answer, Answer::NoSuchObject(_, _)));
}

#[test]
fn form_upload_step() {
    let body = b"name=\"key\"\r\n\r\nk1\r\nname=\"file\"\r\nContent-Type: a/b\r\n\r\nDATA\r\n";
    let s = post_object("b", true, body);
    assert!(matches!(s.answer, Answer::NoContent));
    assert!(matches!(s.effects[2], Effect::WriteContent(ref k, ref d) if k == "k1" && d == b"DATA"));
    assert!(matches!(s.effects[3], Effect::SaveObjectMeta(_, ref m) if m.size == 4 && m.content_type == "a/b"));
    assert!(matches!(post_object("b", true, b"nothing").answer, Answer::Error(ErrorKind::BadRequest)));
}

#[test]
fn bucket_creation() {
    let s = create_bucket("b", 30, false, &params(&[]));
    assert!(matches!(s.answer, Answer::Error(ErrorKind::TooManyBuckets)));
    let s = create_bucket("b", 3, true, &params(&[]));
    assert!(matches!(s.answer, Answer::PutBucket));
    assert!(s.effects.is_empty());
    let s = create_bucket("b", 3, false, &params(&[("x-oss-acl", "public-read")]));
    assert!(matches!(s.effects[0], Effect::SaveBucketMeta(ref m) if m.acl == "public-read" && m.bucket == "b"));
    let s = create_bucket("b", 29, false, &params(&[]));
    assert!(matches!(s.effects[0], Effect::SaveBucketMeta(ref m) if m.acl == "private" && !m.creation_date.is_empty()));
}

#[test]
fn bucket_listing_and_deletion() {
    assert!(matches!(list_buckets(None), Answer::Error(ErrorKind::NoSuchBucket)));
    let f = vec![("a".to_string(), Some("t".to_string()))];
    assert!(matches!(list_buckets(Some(&f)), Answer::Buckets(ref b) if b.len() == 1 && b[0].name == "a"));
    let found = vec![FoundObject { key: "x".to_string(), summary: Some(("e".to_string(), 1)) }];
    match get_bucket("b", true, &params(&[("max-keys", "oops")]), &found) {
        Answer::Objects(name, q, page) => {
            assert_eq!(name, "b");
            assert_eq!(q.max_keys, 100);
            assert_eq!(page.contents.len(), 1);
        }
        _ => panic!("expected a listing"),
    }
    assert!(matches!(delete_bucket("b", true, None).answer, Answer::Error(ErrorKind::InternalError)));
    let only = vec![".meta".to_string()];
    let s = delete_bucket("b", true, Some(&only));
    assert!(matches!(s.answer, Answer::NoContent));
    assert!(matches!(s.effects[0], Effect::DeleteBucket));
    let more = vec![".meta".to_string(), "obj".to_string()];
    assert!(matches!(delete_bucket("b", true, Some(&more)).answer, Answer::Error(ErrorKind::BucketNotEmpty)));
}

#[test]
fn multipart_steps() {
    let s = upload_part("b", "k", true, &params(&[("partNumber", "3")]), b"p3".to_vec());
    assert!(matches!(s.effects[1], Effect::WritePart(_, 3, ref d) if d == b"p3"));
    let s = upload_part("b", "k", true, &params(&[]), b"p".to_vec());
    assert!(matches!(s.effects[1], Effect::WritePart(_, 0, _)));
    let parts = vec![Some(b"ab".to_vec()), None, Some(b"cd".to_vec())];
    let s = complete_multipart_upload("b", "k", true, &parts);
    assert!(matches!(s.effects[0], Effect::WriteContent(_, ref d) if d == b"abcd"));
    assert!(matches!(s.effects[1], Effect::SaveObjectMeta(_, ref m) if m.size == 4));
    match list_parts("b", "k", true, true, &vec![Some(5), None, Some(7)]) {
        Answer::Parts(_, _, p) => {
            assert_eq!(p.len(), 2);
            assert_eq!((p[0].part_number, p[0].size), (1, 5));
            assert_eq!((p[1].part_number, p[1].size), (3, 7));
            assert_eq!(p[1].etag, "00000000000");
        }
        _ => panic!("expected the parts"),
    }
    assert!(matches!(list_parts("b", "k", true, false, &vec![]), Answer::NoSuchObject(_, _)));
}

#[test]
fn part_copy_step() {
    let q = params(&[("partNumber", "2"), ("uploadId", "u")]);
    let src = "src/obj".to_string();
    let range = "bytes=1-3".to_string();
    let s = upload_part_copy("b", "k", true, &q, Some(&src), true, Some(b"abcdef".to_vec()), Some(&range));
    assert!(matches!(s.answer, Answer::UploadPartCopy));
    assert!(matches!(s.effects[1], Effect::WritePart(_, 2, ref d) if d == b"bc"));
    assert!(matches!(upload_part_copy("b", "k", true, &q, None, true, None, None).answer, Answer::Error(ErrorKind::BadRequest)));
}

#[test]
fn configuration_steps() {
    let s = put_bucket_logging("b", true, None, None);
    assert!(matches!(s.answer, Answer::Error(ErrorKind::BadRequest)));
    let status = BucketLoggingStatus {
        logging_enabled: Some(LoggingEnabled { target_bucket: "t".to_string(), target_prefix: "p".to_string() }),
    };
    let s = put_bucket_logging("b", true, Some(status), None);
    assert!(matches!(s.answer, Answer::OkBucketConfig));
    assert!(matches!(s.guarded, Some((0, Answer::Error(ErrorKind::InternalError)))));
    let stored = match &s.effects[0] {
        Effect::SaveBucketConfig(c) => c,
        _ => panic!("expected the configuration"),
    };
    assert!(matches!(get_bucket_logging("b", true, Some(stored)), Answer::ConfigDocument(_)));
    assert!(matches!(get_bucket_logging("b", true, None), Answer::NoSuchConfiguration));
    let empty = BucketConfig::empty();
    let r = RefererConfiguration { allow_empty: true, referer_list: RefererList { referers: vec![] } };
    let s = put_bucket_referer("b", true, Some(r), Some(empty));
    assert!(matches!(s.effects[0], Effect::SaveBucketConfig(ref c) if c.referer.is_none()));
}

#[test]
fn checked_form_upload() {
    let body = b"name=\"key\"\r\n\r\nk1\r\nname=\"file\"\r\nContent-Type: a/b\r\n\r\nDATA\r\n";
    let s = post_object_checked("b", true, body).unwrap();
    assert!(matches!(s.effects[2], Effect::WriteContent(ref k, ref d) if k == "k1" && d == b"DATA"));
    assert!(matches!(post_object_checked("b", false, body).unwrap().answer, Answer::NoSuchBucket(_)));
    // An invalid byte before the file makes the text longer than the body:
    // the file's positions no longer lie in it.
    let bad = b"\xff\xff\xff\xff\xff\xff\xff\xffname=\"key\"\r\n\r\nk\r\nname=\"file\"\r\nContent-Type: x\r\n\r\n".to_vec();
    assert!(post_object_checked("b", true, &bad).is_none());
    assert!(post_object_checked("b", false, &bad).is_some());
}

#[test]
fn stamps_are_in_utc() {
    let s = create_bucket("b", 0, false, &params(&[]));
    match &s.effects[0] {
        Effect::SaveBucketMeta(m) => {
            assert!(m.creation_date.ends_with("+00:00"));
            assert!(m.modified_date.ends_with("+00:00"));
        }
        _ => panic!("expected the record"),
    }
    match list_parts("b", "k", true, true, &vec![Some(1)]) {
        Answer::Parts(_, _, p) => assert!(p[0].last_modified.ends_with("+00:00")),
        _ => panic!("expected the parts"),
    }
}

#[test]
fn part_scan_steps() {
    assert!(matches!(scan_parts(0, true), PartScan::Read(1)));
    assert!(matches!(scan_parts(4, false), PartScan::Stop));
    assert_eq!(next_part_number(2), 3);
}

#[test]
fn form_key_may_end_the_body() {
    let body = b"name=\"file\"\r\nContent-Type: a/b\r\n\r\nDATA\r\nname=\"key\"\r\n\r\nlast";
    let s = post_object("b", true, body);
    assert!(matches!(s.effects[0], Effect::RemoveObject(ref k) if k == "last"));
}
