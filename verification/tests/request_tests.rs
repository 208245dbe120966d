use oss_emulator::params::Params;
use oss_emulator::request::OssRequest;

fn params(pairs: &[(&str, &str)]) -> Params {
    let mut p = Params::new();
    for (k, v) in pairs {
        p.insert(k.to_string(), v.to_string());
    }
    p
}

fn parsed(method: &str, path: &str, query: &[(&str, &str)], headers: &[(&str, &str)]) -> OssRequest {
    let mut r = OssRequest::new(method, path, &params(query), &params(headers));
    r.parse();
    r
}

#[test]
fn get_root_lists_buckets() {
    let r = parsed("GET", "/", &[], &[]);
    assert_eq!(r.cmd, "LIST_BUCKETS");
    assert_eq!(r.bucket, "");
    assert_eq!(r.object, "");
}

#[test]
fn get_root_with_configuration_queries() {
    assert_eq!(parsed("GET", "/", &[("uploads", "")], &[]).cmd, "GET_LIST_MULTIPART_UPLOADS");
    assert_eq!(parsed("GET", "/", &[("logging", "")], &[]).cmd, "GET_BUCKET_LOGGING");
    assert_eq!(parsed("GET", "/", &[("website", "")], &[]).cmd, "GET_BUCKET_WEBSITE");
    assert_eq!(parsed("GET", "/", &[("referer", "")], &[]).cmd, "GET_BUCKET_REFERER");
    assert_eq!(parsed("GET", "/", &[("lifecycle", "")], &[]).cmd, "GET_BUCKET_LIFECYCLE");
}

#[test]
fn get_bucket_and_its_queries() {
    let r = parsed("GET", "/photos", &[], &[]);
    assert_eq!(r.cmd, "GET_BUCKET");
    assert_eq!(r.bucket, "photos");
    assert_eq!(r.object, "");
    assert_eq!(parsed("GET", "/photos/", &[], &[]).cmd, "GET_BUCKET");
    assert_eq!(parsed("GET", "/photos", &[("acl", "")], &[]).cmd, "GET_BUCKET_ACL");
    assert_eq!(parsed("GET", "/photos", &[("location", "")], &[]).cmd, "GET_BUCKET_LOCATION");
    assert_eq!(parsed("GET", "/photos", &[("bucketInfo", "")], &[]).cmd, "GET_BUCKET_INFO");
    assert_eq!(parsed("GET", "/photos", &[("uploads", "")], &[]).cmd, "GET_LIST_MULTIPART_UPLOADS");
    assert_eq!(parsed("GET", "/photos", &[("lifecycle", "")], &[]).cmd, "GET_BUCKET_LIFECYCLE");
}

#[test]
fn get_object_keeps_the_rest_of_the_path() {
    let r = parsed("GET", "/photos/2024/cat.jpg", &[], &[]);
    assert_eq!(r.cmd, "GET_OBJECT");
    assert_eq!(r.bucket, "photos");
    assert_eq!(r.object, "2024/cat.jpg");
}

#[test]
fn object_reads_by_query() {
    assert_eq!(parsed("GET", "/b/o", &[("objectMeta", "")], &[]).cmd, "GET_OBJECT_META");
    assert_eq!(parsed("GET", "/b/o", &[("symlink", "")], &[]).cmd, "GET_SYMLINK");
    assert_eq!(parsed("GET", "/b/o", &[("uploadId", "1")], &[]).cmd, "GET_LIST_PARTS");
    // An object's access control is read as the bucket's.
    assert_eq!(parsed("GET", "/b/o", &[("acl", "")], &[]).cmd, "GET_BUCKET_ACL");
}

#[test]
fn head_object_mirrors_get() {
    let r = parsed("HEAD", "/b/dir/o", &[], &[]);
    assert_eq!(r.cmd, "HEAD_OBJECT");
    assert_eq!(r.bucket, "b");
    assert_eq!(r.object, "dir/o");
}

#[test]
fn put_commands() {
    assert_eq!(parsed("PUT", "/", &[], &[]).cmd, "PUT_BUCKET");
    assert_eq!(parsed("PUT", "/b", &[], &[]).cmd, "PUT_BUCKET");
    assert_eq!(parsed("PUT", "/b", &[("acl", "")], &[]).cmd, "PUT_BUCKET_ACL");
    assert_eq!(parsed("PUT", "/b", &[("logging", "")], &[]).cmd, "PUT_BUCKET_LOGGING");
    assert_eq!(parsed("PUT", "/b", &[("website", "")], &[]).cmd, "PUT_BUCKET_WEBSITE");
    assert_eq!(parsed("PUT", "/b", &[("referer", "")], &[]).cmd, "PUT_BUCKET_REFERER");
    assert_eq!(parsed("PUT", "/b", &[("lifecycle", "")], &[]).cmd, "PUT_BUCKET_LIFECYCLE");
    assert_eq!(parsed("PUT", "/b/o", &[], &[]).cmd, "PUT_OBJECT");
    assert_eq!(parsed("PUT", "/b/o", &[("acl", "")], &[]).cmd, "PUT_BUCKET_ACL");
    assert_eq!(parsed("PUT", "/b/o", &[("symlink", "")], &[]).cmd, "PUT_SYMLINK");
    assert_eq!(parsed("PUT", "/b/o", &[("partNumber", "1")], &[]).cmd, "PUT_UPLOAD_PART");
}

#[test]
fn put_with_copy_source() {
    let r = parsed("PUT", "/dst/new", &[], &[("x-oss-copy-source", "/src/dir/old")]);
    assert_eq!(r.cmd, "PUT_COPY_OBJECT");
    assert_eq!(r.bucket, "dst");
    assert_eq!(r.object, "new");
    assert_eq!(r.src_bucket, "src");
    assert_eq!(r.src_object, "dir/old");

    let r = parsed(
        "PUT",
        "/dst/new",
        &[("partNumber", "2"), ("uploadId", "x")],
        &[("x-oss-copy-source", "src/old")],
    );
    assert_eq!(r.cmd, "PUT_UPLOAD_PART_COPY");
    assert_eq!(r.src_bucket, "src");
    assert_eq!(r.src_object, "old");

    // An empty header is no copy source.
    assert_eq!(parsed("PUT", "/dst/new", &[], &[("x-oss-copy-source", "")]).cmd, "PUT_OBJECT");
}

#[test]
fn delete_commands() {
    assert_eq!(parsed("DELETE", "/", &[], &[]).cmd, "REQUEST_ERROR");
    assert_eq!(parsed("DELETE", "/b", &[], &[]).cmd, "DELETE_BUCKET");
    assert_eq!(parsed("DELETE", "/b", &[("logging", "")], &[]).cmd, "DELETE_BUCKET_LOGGING");
    assert_eq!(parsed("DELETE", "/b", &[("website", "")], &[]).cmd, "DELETE_BUCKET_WEBSITE");
    assert_eq!(parsed("DELETE", "/b", &[("referer", "")], &[]).cmd, "DELETE_BUCKET_REFERER");
    assert_eq!(parsed("DELETE", "/b", &[("lifecycle", "")], &[]).cmd, "DELETE_BUCKET_LIFECYCLE");
    let r = parsed("DELETE", "/b/o/p", &[], &[]);
    assert_eq!(r.cmd, "DELETE_OBJECT");
    assert_eq!(r.object, "o/p");
    assert_eq!(parsed("DELETE", "/b/o", &[("uploadId", "1")], &[]).cmd, "DELETE_ABORT_MULTIPART_UPLOAD");
    // A trailing slash names an object with an empty key.
    let r = parsed("DELETE", "/b/", &[], &[]);
    assert_eq!(r.cmd, "DELETE_OBJECT");
    assert_eq!(r.object, "");
}

#[test]
fn post_commands() {
    assert_eq!(parsed("POST", "/b/o", &[("uploads", "")], &[]).cmd, "POST_INIT_MULTIPART_UPLOAD");
    assert_eq!(parsed("POST", "/b/o", &[("append", ""), ("position", "0")], &[]).cmd, "POST_APPEND_OBJECT");
    assert_eq!(parsed("POST", "/b/o", &[("uploadId", "1")], &[]).cmd, "POST_COMPLETE_MULTIPART_UPLOAD");
    assert_eq!(parsed("POST", "/b", &[("delete", "")], &[]).cmd, "DELETE_MULTIPLE_OBJECTS");
    assert_eq!(parsed("POST", "/b/o", &[("restore", "")], &[]).cmd, "POST_RESTORE_OBJECT");
    let r = parsed("POST", "/b", &[], &[("content-type", "multipart/form-data; boundary=x")]);
    assert_eq!(r.cmd, "POST_OBJECT");
    assert_eq!(r.bucket, "b");
    assert_eq!(parsed("POST", "/b", &[], &[("content-type", "text/plain")]).cmd, "POST_ELSE");
    assert_eq!(parsed("POST", "/b", &[], &[]).cmd, "POST_ELSE");
}

#[test]
fn unknown_methods_are_left_unparsed() {
    let r = parsed("PATCH", "/b/o", &[], &[]);
    assert_eq!(r.cmd, "");
    assert_eq!(r.bucket, "");
    assert_eq!(r.method, "PATCH");
}

#[test]
fn parsing_twice_changes_nothing() {
    let mut r = OssRequest::new("GET", "/b/o", &params(&[("symlink", "")]), &params(&[]));
    r.parse();
    let first = (r.cmd.clone(), r.bucket.clone(), r.object.clone());
    r.parse();
    assert_eq!((r.cmd.clone(), r.bucket.clone(), r.object.clone()), first);
}
