//! The records the service stores and the documents it reads and writes.

use vstd::prelude::*;
use crate::params::Params;

verus! {

/// What is stored about a bucket or an object.
pub struct Metadata {
    pub bucket: String,
    pub object: String,
    pub acl: String,
    pub creation_date: String,
    pub modified_date: String,
    pub content_type: String,
    pub content_disposition: String,
    pub content_encoding: String,
    pub size: i64,
    pub part_size: i32,
    pub md5: String,
    pub appendable: bool,
    pub oss_metadata: Params,
    pub custom_metadata: Params,
    /// The target of a symbolic link (only symbolic links have one).
    pub symlink_target: String,
    /// The state of a restore (only archived objects have one).
    pub restore_status: Option<String>,
}

/// The access control that a record has when none is given.
pub fn default_acl() -> (s: String)
    ensures
        s@ == "default"@,
{
    "default".to_string()
}

/// What a fresh record of `bucket`/`object` holds: the default access
/// control and nothing else.
pub open spec fn fresh_metadata(m: Metadata, bucket: Seq<char>, object: Seq<char>) -> bool {
    &&& m.bucket@ == bucket
    &&& m.object@ == object
    &&& m.acl@ == "default"@
    &&& m.creation_date@.len() == 0
    &&& m.modified_date@.len() == 0
    &&& m.content_type@.len() == 0
    &&& m.content_disposition@.len() == 0
    &&& m.content_encoding@.len() == 0
    &&& m.size == 0
    &&& m.part_size == 0
    &&& m.md5@.len() == 0
    &&& !m.appendable
    &&& m.oss_metadata@ == Map::<Seq<char>, Seq<char>>::empty()
    &&& m.custom_metadata@ == Map::<Seq<char>, Seq<char>>::empty()
    &&& m.symlink_target@.len() == 0
    &&& m.restore_status is None
}

impl Metadata {
    /// A fresh record of `bucket`/`object`.
    pub fn new(bucket: &str, object: &str) -> (m: Metadata)
        ensures
            fresh_metadata(m, bucket@, object@),
    {
        Metadata {
            bucket: bucket.to_string(),
            object: object.to_string(),
            acl: default_acl(),
            creation_date: String::new(),
            modified_date: String::new(),
            content_type: String::new(),
            content_disposition: String::new(),
            content_encoding: String::new(),
            size: 0,
            part_size: 0,
            md5: String::new(),
            appendable: false,
            oss_metadata: Params::new(),
            custom_metadata: Params::new(),
            symlink_target: String::new(),
            restore_status: None,
        }
    }
}

/// What a request carries for an object operation.
pub struct Dataset {
    pub cmd: String,
    pub bucket: String,
    pub object: String,
    pub md5: String,
    pub multipart: bool,
    pub content_type: String,
    pub content_length: i64,
    pub content_range: String,
    pub content_disposition: String,
    pub content_encoding: String,
    pub size: i64,
    pub part_size: i32,
    pub creation_date: String,
    pub modified_date: String,
    pub pos: i64,
    pub bytes_to_read: i64,
    pub acl: String,
    pub appendable: bool,
    pub oss_metadata: Params,
    pub custom_metadata: Params,
    pub body: Vec<u8>,
}

/// What an empty dataset holds: binary content of unknown length, the
/// default access control, and nothing else.
pub open spec fn empty_dataset(d: Dataset) -> bool {
    &&& d.cmd@.len() == 0
    &&& d.bucket@.len() == 0
    &&& d.object@.len() == 0
    &&& d.md5@.len() == 0
    &&& !d.multipart
    &&& d.content_type@ == "application/octet-stream"@
    &&& d.content_length == 0
    &&& d.content_range@.len() == 0
    &&& d.content_disposition@.len() == 0
    &&& d.content_encoding@.len() == 0
    &&& d.size == 0
    &&& d.part_size == 0
    &&& d.creation_date@.len() == 0
    &&& d.modified_date@.len() == 0
    &&& d.pos == 0
    &&& d.bytes_to_read == 0
    &&& d.acl@ == "default"@
    &&& !d.appendable
    &&& d.oss_metadata@ == Map::<Seq<char>, Seq<char>>::empty()
    &&& d.custom_metadata@ == Map::<Seq<char>, Seq<char>>::empty()
    &&& d.body@.len() == 0
}

impl Dataset {
    /// An empty dataset.
    pub fn new() -> (d: Dataset)
        ensures
            empty_dataset(d),
    {
        Dataset {
            cmd: String::new(),
            bucket: String::new(),
            object: String::new(),
            md5: String::new(),
            multipart: false,
            content_type: "application/octet-stream".to_string(),
            content_length: 0,
            content_range: String::new(),
            content_disposition: String::new(),
            content_encoding: String::new(),
            size: 0,
            part_size: 0,
            creation_date: String::new(),
            modified_date: String::new(),
            pos: 0,
            bytes_to_read: 0,
            acl: "default".to_string(),
            appendable: false,
            oss_metadata: Params::new(),
            custom_metadata: Params::new(),
            body: Vec::new(),
        }
    }
}

impl Default for Dataset {
    fn default() -> (d: Dataset)
        ensures
            empty_dataset(d),
    {
        Dataset::new()
    }
}

pub struct Owner {
    pub display_name: String,
    pub id: String,
}

pub struct AccessControlList {
    pub grant: String,
}

pub struct XmlBucket {
    pub creation_date: String,
    pub extranet_endpoint: String,
    pub intranet_endpoint: String,
    pub location: String,
    pub name: String,
    pub storage_class: String,
    pub owner: Owner,
    pub access_control_list: AccessControlList,
}

pub struct AccessControlPolicy {
    pub owner: Owner,
    pub access_control_list: AccessControlList,
}

pub struct BucketInfo {
    pub bucket: XmlBucket,
}

pub struct Bucket {
    pub name: String,
    pub creation_date: String,
}

pub struct ListAllMyBucketsResult {
    pub owner: Owner,
    pub buckets: BucketsInner,
}

pub struct BucketsInner {
    pub bucket: Vec<Bucket>,
}

pub struct Content {
    pub key: String,
    pub last_modified: String,
    pub etag: String,
    pub object_type: String,
    pub size: i64,
    pub storage_class: String,
    pub owner: Owner,
}

pub struct CommonPrefix {
    pub prefix: String,
}

pub struct ListBucketResult {
    pub name: String,
    pub prefix: String,
    pub marker: String,
    pub max_keys: String,
    pub delimiter: String,
    pub encoding_type: String,
    pub next_marker: String,
    pub is_truncated: bool,
    pub contents: Vec<Content>,
    pub common_prefixes: Vec<CommonPrefix>,
}

pub struct InitiateMultipartUploadResult {
    pub bucket: String,
    pub key: String,
    pub upload_id: String,
}

pub struct CompleteMultipartUploadResult {
    pub location: String,
    pub bucket: String,
    pub key: String,
    pub etag: String,
}

pub struct PostResponse {
    pub location: String,
    pub bucket: String,
    pub key: String,
    pub etag: String,
}

pub struct Deleted {
    pub key: String,
}

pub struct DeleteResult {
    pub deleted: Vec<Deleted>,
}

pub struct ErrorResult {
    pub code: String,
    pub message: String,
    pub request_id: String,
    pub host_id: String,
    pub bucket_name: Option<String>,
}

pub struct DeleteRequest {
    pub objects: Vec<DeleteObject>,
    pub quiet: Option<bool>,
}

pub struct DeleteObject {
    pub key: String,
}

pub struct ListPartsResult {
    pub bucket: String,
    pub key: String,
    pub upload_id: String,
    pub part_number_marker: i32,
    pub next_part_number_marker: i32,
    pub max_parts: i32,
    pub is_truncated: bool,
    pub parts: Vec<Part>,
}

pub struct Part {
    pub part_number: i32,
    pub last_modified: String,
    pub etag: String,
    pub size: i64,
}

pub struct ListMultipartUploadsResult {
    pub bucket: String,
    pub key_marker: String,
    pub upload_id_marker: String,
    pub next_key_marker: String,
    pub next_upload_id_marker: String,
    pub max_uploads: i32,
    pub delimiter: String,
    pub is_truncated: bool,
    pub uploads: Vec<Upload>,
}

pub struct Upload {
    pub key: String,
    pub upload_id: String,
    pub initiated: String,
}

// ------------------------------------------------------------------
// The configuration of a bucket, as stored
// ------------------------------------------------------------------

pub struct BucketConfig {
    pub logging: Option<LoggingConfig>,
    pub website: Option<WebsiteConfig>,
    pub referer: Option<RefererConfig>,
    pub lifecycle: Option<LifecycleConfig>,
}

impl BucketConfig {
    /// No configuration at all.
    pub fn empty() -> (c: BucketConfig)
        ensures
            c.logging is None,
            c.website is None,
            c.referer is None,
            c.lifecycle is None,
    {
        BucketConfig { logging: None, website: None, referer: None, lifecycle: None }
    }
}

impl Default for BucketConfig {
    fn default() -> (c: BucketConfig)
        ensures
            c.logging is None,
            c.website is None,
            c.referer is None,
            c.lifecycle is None,
    {
        BucketConfig::empty()
    }
}

pub struct LoggingConfig {
    pub target_bucket: String,
    pub target_prefix: String,
}

pub struct WebsiteConfig {
    pub index_document: String,
    pub error_document: String,
}

pub struct RefererConfig {
    pub allow_empty: bool,
    pub referer_list: Vec<String>,
}

pub struct LifecycleConfig {
    pub rules: Vec<LifecycleRule>,
}

pub struct LifecycleRule {
    pub id: String,
    pub prefix: String,
    pub status: String,
    pub expiration_days: Option<i32>,
    pub transition_days: Option<i32>,
    pub transition_storage_class: Option<String>,
}

// ------------------------------------------------------------------
// The configuration of a bucket, as requests and replies write it
// ------------------------------------------------------------------

pub struct BucketLoggingStatus {
    pub logging_enabled: Option<LoggingEnabled>,
}

pub struct LoggingEnabled {
    pub target_bucket: String,
    pub target_prefix: String,
}

pub struct BucketLoggingStatusResponse {
    pub logging_enabled: Option<LoggingEnabledResponse>,
}

pub struct LoggingEnabledResponse {
    pub target_bucket: String,
    pub target_prefix: String,
}

pub struct WebsiteConfiguration {
    pub index_document: IndexDocument,
    pub error_document: ErrorDocument,
}

pub struct IndexDocument {
    pub suffix: String,
}

pub struct ErrorDocument {
    pub key: String,
}

pub struct RefererConfiguration {
    pub allow_empty: bool,
    pub referer_list: RefererList,
}

pub struct RefererList {
    pub referers: Vec<String>,
}

pub struct LifecycleConfiguration {
    pub rules: Vec<LifecycleRuleXml>,
}

pub struct LifecycleRuleXml {
    pub id: String,
    pub prefix: String,
    pub status: String,
    pub expiration: Option<Expiration>,
}

pub struct Expiration {
    pub days: i32,
}

pub struct SymlinkTargetResponse {
    pub target: String,
    pub etag: String,
    pub size: String,
    pub last_modified: String,
}

pub struct UploadPartCopyResult {
    pub last_modified: String,
    pub etag: String,
}

} // verus!
