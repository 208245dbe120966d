use oss_emulator::error::ErrorKind;

#[test]
fn error_codes() {
    let e = ErrorKind::NoSuchBucket.code();
    assert_eq!(e.error_code, "NoSuchBucket");
    assert_eq!(e.status_code, 404);
    let e = ErrorKind::TooManyBuckets.code();
    assert_eq!(e.status_code, 400);
    assert_eq!(e.message, "Bucket number exceeds the limit.");
    assert_eq!(ErrorKind::NoModified.code().status_code, 304);
    assert_eq!(ErrorKind::InternalError.code().status_code, 500);
    assert_eq!(ErrorKind::NotImplemented.code().status_code, 501);
    assert_eq!(ErrorKind::InvalidArgument.code().message, "The file size should be less than 5G.");
}

#[test]
fn error_written_out() {
    assert_eq!(
        ErrorKind::BadRequest.code().describe(),
        "[400] BadRequest: The server cannot understand the request."
    );
}

#[test]
fn error_copied() {
    let e = ErrorKind::AccessDenied.code();
    let d = e.duplicate();
    assert_eq!(d.error_code, e.error_code);
    assert_eq!(d.status_code, 403);
}
