use oss_emulator::bucket_config::{
    delete_lifecycle, delete_logging, delete_referer, delete_website, lifecycle_document,
    logging_document, put_lifecycle, put_logging, put_referer, put_website, referer_document,
    website_document,
};
use oss_emulator::models::{
    BucketConfig, BucketLoggingStatus, ErrorDocument, Expiration, IndexDocument,
    LifecycleConfiguration, LifecycleRuleXml, LoggingEnabled, RefererConfiguration, RefererList,
    WebsiteConfiguration,
};

fn logging(bucket: &str, prefix: &str) -> BucketLoggingStatus {
    BucketLoggingStatus {
        logging_enabled: Some(LoggingEnabled { target_bucket: bucket.to_string(), target_prefix: prefix.to_string() }),
    }
}

fn referers(allow_empty: bool, list: &[&str]) -> RefererConfiguration {
    RefererConfiguration {
        allow_empty,
        referer_list: RefererList { referers: list.iter().map(|s| s.to_string()).collect() },
    }
}

#[test]
fn logging_read_after_write() {
    let mut c = BucketConfig::empty();
    put_logging(&mut c, logging("logs", "access/"));
    assert_eq!(
        logging_document(Some(&c)).unwrap(),
        "<?xml version=\"1.0\" encoding=\"UTF-8\"?>\n<BucketLoggingStatus>\n  <LoggingEnabled>\n    <TargetBucket>logs</TargetBucket>\n    <TargetPrefix>access/</TargetPrefix>\n  </LoggingEnabled>\n</BucketLoggingStatus>"
    );
    delete_logging(&mut c);
    assert!(logging_document(Some(&c)).is_none());
}

#[test]
fn logging_write_without_target_disables_it() {
    let mut c = BucketConfig::empty();
    put_logging(&mut c, logging("logs", ""));
    put_logging(&mut c, BucketLoggingStatus { logging_enabled: None });
    assert!(c.logging.is_none());
    assert!(logging_document(Some(&c)).is_none());
}

#[test]
fn no_configuration_no_document() {
    assert!(logging_document(None).is_none());
    assert!(website_document(None).is_none());
    assert!(referer_document(None).is_none());
    assert!(lifecycle_document(None).is_none());
    let c = BucketConfig::empty();
    assert!(website_document(Some(&c)).is_none());
}

#[test]
fn website_read_after_write() {
    let mut c = BucketConfig::empty();
    put_website(
        &mut c,
        WebsiteConfiguration {
            index_document: IndexDocument { suffix: "index.html".to_string() },
            error_document: ErrorDocument { key: "404.html".to_string() },
        },
    );
    assert_eq!(
        website_document(Some(&c)).unwrap(),
        "<?xml version=\"1.0\" encoding=\"UTF-8\"?>\n<WebsiteConfiguration>\n  <IndexDocument>\n    <Suffix>index.html</Suffix>\n  </IndexDocument>\n  <ErrorDocument>\n    <Key>404.html</Key>\n  </ErrorDocument>\n</WebsiteConfiguration>"
    );
    delete_website(&mut c);
    assert!(c.website.is_none());
}

#[test]
fn referer_read_after_write() {
    let mut c = BucketConfig::empty();
    put_referer(&mut c, referers(true, &["http://a.test", "http://b.test"]));
    assert_eq!(
        referer_document(Some(&c)).unwrap(),
        "<?xml version=\"1.0\" encoding=\"UTF-8\"?>\n<RefererConfiguration>\n  <AllowEmptyReferer>true</AllowEmptyReferer>\n  <RefererList>\n  <Referer>http://a.test</Referer>\n  <Referer>http://b.test</Referer>\n  </RefererList>\n</RefererConfiguration>"
    );
}

#[test]
fn empty_referer_list_removes_the_configuration() {
    let mut c = BucketConfig::empty();
    put_referer(&mut c, referers(false, &["x"]));
    assert!(c.referer.is_some());
    put_referer(&mut c, referers(false, &[]));
    assert!(c.referer.is_none());
    put_referer(&mut c, referers(false, &["x"]));
    delete_referer(&mut c);
    assert!(referer_document(Some(&c)).is_none());
}

#[test]
fn lifecycle_read_after_write() {
    let mut c = BucketConfig::empty();
    put_lifecycle(
        &mut c,
        LifecycleConfiguration {
            rules: vec![
                LifecycleRuleXml {
                    id: "r1".to_string(),
                    prefix: "tmp/".to_string(),
                    status: "Enabled".to_string(),
                    expiration: Some(Expiration { days: 7 }),
                },
                LifecycleRuleXml { id: "r2".to_string(), prefix: "".to_string(), status: "Disabled".to_string(), expiration: None },
            ],
        },
    );
    let rules = &c.lifecycle.as_ref().unwrap().rules;
    assert_eq!(rules[0].expiration_days, Some(7));
    assert_eq!(rules[1].transition_days, None);
    assert_eq!(
        lifecycle_document(Some(&c)).unwrap(),
        "<?xml version=\"1.0\" encoding=\"UTF-8\"?>\n<LifecycleConfiguration>\n  <Rule>\n    <ID>r1</ID>\n    <Prefix>tmp/</Prefix>\n    <Status>Enabled</Status>\n    <Expiration><Days>7</Days></Expiration>\n  </Rule>\n  <Rule>\n    <ID>r2</ID>\n    <Prefix></Prefix>\n    <Status>Disabled</Status>\n\n  </Rule>\n</LifecycleConfiguration>"
    );
    delete_lifecycle(&mut c);
    assert!(lifecycle_document(Some(&c)).is_none());
}

#[test]
fn writes_keep_the_other_sections() {
    let mut c = BucketConfig::empty();
    put_logging(&mut c, logging("l", "p"));
    put_referer(&mut c, referers(false, &["r"]));
    delete_website(&mut c);
    assert!(logging_document(Some(&c)).is_some());
    assert!(referer_document(Some(&c)).is_some());
}
