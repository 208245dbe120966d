use oss_emulator::server::{header_params, query_params, route_request, Handler};

fn route(method: &str, path: &str, query: &[(&str, &str)], headers: &[(&str, &str)]) -> Handler {
    let q: Vec<(String, String)> = query.iter().map(|(k, v)| (k.to_string(), v.to_string())).collect();
    let h: Vec<(String, String)> = headers.iter().map(|(k, v)| (k.to_string(), v.to_string())).collect();
    route_request(method, path, &query_params(&q), &header_params(&h)).0
}

#[test]
fn preflight_is_answered_without_parsing() {
    assert_eq!(route("OPTIONS", "/b/o", &[], &[]), Handler::Options);
}

#[test]
fn routes_by_command() {
    assert_eq!(route("GET", "/", &[], &[]), Handler::ListBuckets);
    assert_eq!(route("PUT", "/b", &[], &[]), Handler::CreateBucket);
    assert_eq!(route("GET", "/b", &[], &[]), Handler::GetBucket);
    assert_eq!(route("DELETE", "/b", &[], &[]), Handler::DeleteBucket);
    assert_eq!(route("PUT", "/b/o", &[], &[]), Handler::PutObject);
    assert_eq!(route("GET", "/b/o", &[], &[]), Handler::GetObject);
    assert_eq!(route("HEAD", "/b/o", &[], &[]), Handler::HeadObject);
    assert_eq!(route("POST", "/b/o", &[("append", "")], &[]), Handler::AppendObject);
    assert_eq!(route("PUT", "/b/o", &[], &[("X-Oss-Copy-Source", "/s/o")]), Handler::CopyObject);
    assert_eq!(route("GET", "/b", &[("lifecycle", "")], &[]), Handler::GetBucketLifecycle);
    assert_eq!(route("POST", "/b", &[], &[("Content-Type", "multipart/form-data")]), Handler::PostObject);
}

#[test]
fn requests_no_handler_serves() {
    assert_eq!(route("DELETE", "/", &[], &[]), Handler::BadRequest);
    assert_eq!(route("POST", "/b", &[], &[]), Handler::BadRequest);
    assert_eq!(route("PATCH", "/b", &[], &[]), Handler::BadRequest);
}

#[test]
fn parsed_request_comes_back() {
    let (_, req) = route_request("GET", "/b/x/y", &query_params(&vec![]), &header_params(&vec![]));
    assert_eq!(req.bucket, "b");
    assert_eq!(req.object, "x/y");
}

#[test]
fn later_pairs_replace_earlier_ones() {
    let q = query_params(&vec![("a".to_string(), "1".to_string()), ("a".to_string(), "2".to_string())]);
    assert_eq!(q.get("a"), Some(&"2".to_string()));
    let h = header_params(&vec![("Content-Type".to_string(), "x".to_string()), ("content-type".to_string(), "y".to_string())]);
    assert_eq!(h.get("content-type"), Some(&"y".to_string()));
    assert_eq!(h.len(), 1);
}
