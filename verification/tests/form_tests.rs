use oss_emulator::form::{extract_multipart_field, extract_multipart_file, file_slice_fits_exec};
use oss_emulator::handlers::{post_object_plan, post_object_servable};

const BODY: &str = "--b\r\nContent-Disposition: form-data; name=\"key\"\r\n\r\nphotos/cat.txt\r\n--b\r\nContent-Disposition: form-data; name=\"file\"; filename=\"cat.txt\"\r\nContent-Type: text/plain\r\n\r\nmeow\r\n--b--\r\n";

#[test]
fn field_value_is_read() {
    assert_eq!(extract_multipart_field(BODY.as_bytes(), "key"), Some("photos/cat.txt".to_string()));
    assert_eq!(extract_multipart_field(BODY.as_bytes(), "policy"), None);
}

#[test]
fn field_value_runs_to_the_end_of_the_body() {
    let body = b"name=\"key\"\r\n\r\nno-end";
    assert_eq!(extract_multipart_field(body, "key"), Some("no-end".to_string()));
    assert_eq!(extract_multipart_field(b"name=\"key\"\r\n\r\n", "key"), Some(String::new()));
    assert_eq!(extract_multipart_field(b"name=\"key\"\r\nno blank line", "key"), None);
}

#[test]
fn file_and_its_type() {
    assert!(file_slice_fits_exec(BODY.as_bytes()));
    let (data, ct) = extract_multipart_file(BODY.as_bytes());
    assert_eq!(data, b"meow".to_vec());
    assert_eq!(ct, "text/plain");
}

#[test]
fn file_running_to_the_end() {
    let body = b"name=\"file\"\r\nContent-Type: image/png\r\n\r\nPNGDATA";
    let (data, ct) = extract_multipart_file(body);
    assert_eq!(data, b"PNGDATA".to_vec());
    assert_eq!(ct, "image/png");
}

#[test]
fn no_file_field() {
    let (data, ct) = extract_multipart_file(b"name=\"key\"\r\n\r\nk\r\n");
    assert!(data.is_empty());
    assert_eq!(ct, "application/octet-stream");
}

#[test]
fn form_upload_plan() {
    assert!(post_object_servable(BODY.as_bytes()));
    let p = post_object_plan(BODY.as_bytes()).ok().unwrap();
    assert_eq!(p.key, "photos/cat.txt");
    assert_eq!(p.data, b"meow".to_vec());
    assert_eq!(p.content_type, "text/plain");
}

#[test]
fn form_upload_without_key_is_refused() {
    let body = b"name=\"file\"\r\nContent-Type: a/b\r\n\r\nx\r\n";
    assert!(post_object_plan(body).is_err());
    let body = b"name=\"key\"\r\n\r\n\r\n";
    assert!(post_object_plan(body).is_err());
}

#[test]
fn valid_body_always_fits() {
    assert!(file_slice_fits_exec("name=\"file\"\r\nContent-Type: ü/ö\r\n\r\nÄ\r\n".as_bytes()));
    let (data, ct) = extract_multipart_file("name=\"file\"\r\nContent-Type: ü/ö\r\n\r\nÄ\r\n".as_bytes());
    assert_eq!(data, "Ä".as_bytes().to_vec());
    assert_eq!(ct, "ü/ö");
    assert_eq!(extract_multipart_field("name=\"k\"\r\n\r\nvalé\r\n".as_bytes(), "k"), Some("valé".to_string()));
}
