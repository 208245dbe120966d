//! The errors the service answers with: a code, an HTTP status, a message.

use vstd::prelude::*;
use crate::text::{decimal_text, format_u64, push_all};

verus! {

/// An error answer.
pub struct ErrorCode {
    pub error_code: &'static str,
    pub status_code: u16,
    pub message: &'static str,
}

/// The errors the service knows.
#[derive(Clone, Copy, PartialEq, Eq, Structural, Debug)]
pub enum ErrorKind {
    NoModified,
    BadRequest,
    TooManyBuckets,
    InvalidBucketName,
    InvalidObjectName,
    InvalidArgument,
    FilePartNotExist,
    AccessDenied,
    NoSuchBucket,
    NoSuchKey,
    NotFound,
    BucketAlreadyExists,
    BucketNotEmpty,
    ObjectNotAppendable,
    MissingContentLength,
    InternalError,
    NotImplemented,
    NoSuchConfiguration,
}

impl ErrorKind {
    /// The error's code.
    pub open spec fn code_spec(self) -> &'static str {
        match self {
            ErrorKind::NoModified => "NoModified",
            ErrorKind::BadRequest => "BadRequest",
            ErrorKind::TooManyBuckets => "TooManyBuckets",
            ErrorKind::InvalidBucketName => "InvalidBucketName",
            ErrorKind::InvalidObjectName => "InvalidObjectName",
            ErrorKind::InvalidArgument => "InvalidArgument",
            ErrorKind::FilePartNotExist => "FilePartNotExist",
            ErrorKind::AccessDenied => "AccessDenied",
            ErrorKind::NoSuchBucket => "NoSuchBucket",
            ErrorKind::NoSuchKey => "NoSuchKey",
            ErrorKind::NotFound => "NotFound",
            ErrorKind::BucketAlreadyExists => "BucketAlreadyExists",
            ErrorKind::BucketNotEmpty => "BucketNotEmpty",
            ErrorKind::ObjectNotAppendable => "ObjectNotAppendable",
            ErrorKind::MissingContentLength => "MissingContentLength",
            ErrorKind::InternalError => "InternalError",
            ErrorKind::NotImplemented => "NotImplemented",
            ErrorKind::NoSuchConfiguration => "NoSuchConfiguration",
        }
    }

    /// The error's HTTP status.
    pub open spec fn status_spec(self) -> u16 {
        match self {
            ErrorKind::NoModified => 304,
            ErrorKind::BadRequest => 400,
            ErrorKind::TooManyBuckets => 400,
            ErrorKind::InvalidBucketName => 400,
            ErrorKind::InvalidObjectName => 400,
            ErrorKind::InvalidArgument => 400,
            ErrorKind::FilePartNotExist => 400,
            ErrorKind::AccessDenied => 403,
            ErrorKind::NoSuchBucket => 404,
            ErrorKind::NoSuchKey => 404,
            ErrorKind::NotFound => 404,
            ErrorKind::BucketAlreadyExists => 409,
            ErrorKind::BucketNotEmpty => 409,
            ErrorKind::ObjectNotAppendable => 409,
            ErrorKind::MissingContentLength => 411,
            ErrorKind::InternalError => 500,
            ErrorKind::NotImplemented => 501,
            ErrorKind::NoSuchConfiguration => 404,
        }
    }

    /// The error's message.
    pub open spec fn message_spec(self) -> &'static str {
        match self {
            ErrorKind::NoModified => "The object has not been modified.",
            ErrorKind::BadRequest => "The server cannot understand the request.",
            ErrorKind::TooManyBuckets => "Bucket number exceeds the limit.",
            ErrorKind::InvalidBucketName => "The bucket name is invalid.",
            ErrorKind::InvalidObjectName => "The object name is invalid.",
            ErrorKind::InvalidArgument => "The file size should be less than 5G.",
            ErrorKind::FilePartNotExist => "The file part does not exist.",
            ErrorKind::AccessDenied => "The access is forbidden.",
            ErrorKind::NoSuchBucket => "The bucket does not exist.",
            ErrorKind::NoSuchKey => "The specified object does not exist.",
            ErrorKind::NotFound => "The file has not been found.",
            ErrorKind::BucketAlreadyExists => "The bucket already exists.",
            ErrorKind::BucketNotEmpty => "The bucket is not empty.",
            ErrorKind::ObjectNotAppendable => "The object is not appendable.",
            ErrorKind::MissingContentLength => "No Content-Length in request header.",
            ErrorKind::InternalError => "An internal error occurs inside OSS.",
            ErrorKind::NotImplemented => "The function is not supported yet.",
            ErrorKind::NoSuchConfiguration => "The configuration does not exist.",
        }
    }

    /// The answer for this error, in specifications.
    pub open spec fn answer(self) -> ErrorCode {
        ErrorCode { error_code: self.code_spec(), status_code: self.status_spec(), message: self.message_spec() }
    }

    /// The answer for this error.
    pub fn code(self) -> (e: ErrorCode)
        ensures
            e == self.answer(),
    {
        match self {
            ErrorKind::NoModified => ErrorCode { error_code: "NoModified", status_code: 304, message: "The object has not been modified." },
            ErrorKind::BadRequest => ErrorCode { error_code: "BadRequest", status_code: 400, message: "The server cannot understand the request." },
            ErrorKind::TooManyBuckets => ErrorCode { error_code: "TooManyBuckets", status_code: 400, message: "Bucket number exceeds the limit." },
            ErrorKind::InvalidBucketName => ErrorCode { error_code: "InvalidBucketName", status_code: 400, message: "The bucket name is invalid." },
            ErrorKind::InvalidObjectName => ErrorCode { error_code: "InvalidObjectName", status_code: 400, message: "The object name is invalid." },
            ErrorKind::InvalidArgument => ErrorCode { error_code: "InvalidArgument", status_code: 400, message: "The file size should be less than 5G." },
            ErrorKind::FilePartNotExist => ErrorCode { error_code: "FilePartNotExist", status_code: 400, message: "The file part does not exist." },
            ErrorKind::AccessDenied => ErrorCode { error_code: "AccessDenied", status_code: 403, message: "The access is forbidden." },
            ErrorKind::NoSuchBucket => ErrorCode { error_code: "NoSuchBucket", status_code: 404, message: "The bucket does not exist." },
            ErrorKind::NoSuchKey => ErrorCode { error_code: "NoSuchKey", status_code: 404, message: "The specified object does not exist." },
            ErrorKind::NotFound => ErrorCode { error_code: "NotFound", status_code: 404, message: "The file has not been found." },
            ErrorKind::BucketAlreadyExists => ErrorCode { error_code: "BucketAlreadyExists", status_code: 409, message: "The bucket already exists." },
            ErrorKind::BucketNotEmpty => ErrorCode { error_code: "BucketNotEmpty", status_code: 409, message: "The bucket is not empty." },
            ErrorKind::ObjectNotAppendable => ErrorCode { error_code: "ObjectNotAppendable", status_code: 409, message: "The object is not appendable." },
            ErrorKind::MissingContentLength => ErrorCode { error_code: "MissingContentLength", status_code: 411, message: "No Content-Length in request header." },
            ErrorKind::InternalError => ErrorCode { error_code: "InternalError", status_code: 500, message: "An internal error occurs inside OSS." },
            ErrorKind::NotImplemented => ErrorCode { error_code: "NotImplemented", status_code: 501, message: "The function is not supported yet." },
            ErrorKind::NoSuchConfiguration => ErrorCode { error_code: "NoSuchConfiguration", status_code: 404, message: "The configuration does not exist." },
        }
    }
}

/// How an error is written out: `[<status>] <code>: <message>`.
pub open spec fn describe_spec(e: ErrorCode) -> Seq<char> {
    "["@ + decimal_text(e.status_code as int) + "] "@ + e.error_code@ + ": "@ + e.message@
}

impl ErrorCode {
    /// The error written out, as its display form reads.
    pub fn describe(&self) -> (s: String)
        ensures
            s@ == describe_spec(*self),
    {
        let mut s = String::new();
        push_all(&mut s, "[");
        push_all(&mut s, format_u64(self.status_code as u64).as_str());
        push_all(&mut s, "] ");
        push_all(&mut s, self.error_code);
        push_all(&mut s, ": ");
        push_all(&mut s, self.message);
        assert(s@ =~= describe_spec(*self));
        s
    }

    /// A copy of this error.
    pub fn duplicate(&self) -> (e: ErrorCode)
        ensures
            e == *self,
    {
        ErrorCode { error_code: self.error_code, status_code: self.status_code, message: self.message }
    }
}

} // verus!
