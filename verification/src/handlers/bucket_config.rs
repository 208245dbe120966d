//! The decisions of the bucket configuration handlers. A write or removal
//! starts from the stored configuration, or an empty one where none could
//! be read, and stores the result; a read answers with the document of the
//! stored configuration.

use vstd::prelude::*;
use crate::bucket_config::{
    config_view, delete_lifecycle, delete_logging, delete_referer, delete_website,
    lifecycle_answer, lifecycle_document, logging_answer, logging_document, logging_of, opt_text,
    put_lifecycle, put_logging, put_referer, put_website, referer_answer, referer_document,
    referer_of, rule_of, website_answer, website_document, BucketConfigView,
};
use crate::error::ErrorKind;
use crate::handlers::bucket::{no_bucket, only_answers, refused_no_bucket};
use crate::handlers::{answer_only, Answer, Effect, Step};
use crate::models::{
    BucketConfig, BucketLoggingStatus, LifecycleConfiguration, LifecycleRuleXml,
    RefererConfiguration, WebsiteConfiguration,
};

verus! {

/// The configuration a write or removal starts from: the stored one, or an
/// empty one where none could be read.
pub open spec fn base_view(loaded: Option<BucketConfig>) -> BucketConfigView {
    match loaded {
        Some(c) => config_view(c),
        None => BucketConfigView { logging: None, website: None, referer: None, lifecycle: None },
    }
}

/// A step that stores a configuration whose content is `v`; where
/// `checked`, a failure to store it is answered with an internal error.
pub open spec fn stores(r: Step, v: BucketConfigView, checked: bool) -> bool {
    &&& r.effects@.len() == 1
    &&& r.effects@[0] matches Effect::SaveBucketConfig(c) && config_view(c) == v
    &&& if checked {
        r.guarded matches Some((i, a)) && i == 0 && a == Answer::Error(ErrorKind::InternalError)
    } else {
        r.guarded is None
    }
}

/// What a read of a configuration answers: its document, or that there is
/// no such configuration.
pub open spec fn answers_document(r: Answer, doc: Option<Seq<char>>) -> bool {
    match doc {
        Some(d) => r matches Answer::ConfigDocument(t) && t@ == d,
        None => r is NoSuchConfiguration,
    }
}

fn base(loaded: Option<BucketConfig>) -> (c: BucketConfig)
    ensures
        config_view(c) == base_view(loaded),
{
    match loaded {
        Some(c) => c,
        None => BucketConfig::empty(),
    }
}

fn store(config: BucketConfig, checked: bool, answer: Answer) -> (r: Step)
    ensures
        stores(r, config_view(config), checked),
        r.answer == answer,
{
    let mut effects: Vec<Effect> = Vec::new();
    effects.push(Effect::SaveBucketConfig(config));
    let guarded = if checked {
        Some((0, Answer::Error(ErrorKind::InternalError)))
    } else {
        None
    };
    Step { effects, answer, guarded }
}

fn document_answer(doc: Option<String>) -> (r: Answer)
    ensures
        answers_document(r, opt_text(doc)),
{
    match doc {
        Some(d) => Answer::ConfigDocument(d),
        None => Answer::NoSuchConfiguration,
    }
}

/// Stores the logging configuration a `BucketLoggingStatus` document gives.
/// `status` is the body read as such a document, or nothing where it could
/// not be read; `loaded` is the stored configuration where it could be read.
pub fn put_bucket_logging(bucket: &str, exists: bool, status: Option<BucketLoggingStatus>, loaded: Option<BucketConfig>) -> (r: Step)
    ensures
        !exists ==> refused_no_bucket(r, bucket@),
        exists ==> match status {
            None => only_answers(r, Answer::Error(ErrorKind::BadRequest)),
            Some(s) => r.answer is OkBucketConfig
                && stores(r, BucketConfigView { logging: logging_of(s), ..base_view(loaded) }, true),
        },
{
    if !exists {
        return answer_only(Answer::NoSuchBucket(bucket.to_string()));
    }
    let s = match status {
        Some(s) => s,
        None => return answer_only(Answer::Error(ErrorKind::BadRequest)),
    };
    let mut config = base(loaded);
    put_logging(&mut config, s);
    store(config, true, Answer::OkBucketConfig)
}

/// The logging document of a bucket. `loaded` is the stored configuration
/// where one is stored and could be read.
pub fn get_bucket_logging(bucket: &str, exists: bool, loaded: Option<&BucketConfig>) -> (r: Answer)
    ensures
        !exists ==> no_bucket(r, bucket@),
        exists ==> answers_document(r, match loaded {
            Some(c) => logging_answer(config_view(*c)),
            None => None,
        }),
{
    if !exists {
        return Answer::NoSuchBucket(bucket.to_string());
    }
    document_answer(logging_document(loaded))
}

/// Removes the logging configuration.
pub fn delete_bucket_logging(bucket: &str, exists: bool, loaded: Option<BucketConfig>) -> (r: Step)
    ensures
        !exists ==> refused_no_bucket(r, bucket@),
        exists ==> r.answer is NoContent
            && stores(r, BucketConfigView { logging: None, ..base_view(loaded) }, false),
{
    if !exists {
        return answer_only(Answer::NoSuchBucket(bucket.to_string()));
    }
    let mut config = base(loaded);
    delete_logging(&mut config);
    store(config, false, Answer::NoContent)
}

/// Stores the website configuration a `WebsiteConfiguration` document gives.
pub fn put_bucket_website(bucket: &str, exists: bool, web: Option<WebsiteConfiguration>, loaded: Option<BucketConfig>) -> (r: Step)
    ensures
        !exists ==> refused_no_bucket(r, bucket@),
        exists ==> match web {
            None => only_answers(r, Answer::Error(ErrorKind::BadRequest)),
            Some(w) => r.answer is OkBucketConfig
                && stores(r, BucketConfigView {
                    website: Some((w.index_document.suffix@, w.error_document.key@)),
                    ..base_view(loaded)
                }, true),
        },
{
    if !exists {
        return answer_only(Answer::NoSuchBucket(bucket.to_string()));
    }
    let w = match web {
        Some(w) => w,
        None => return answer_only(Answer::Error(ErrorKind::BadRequest)),
    };
    let mut config = base(loaded);
    put_website(&mut config, w);
    store(config, true, Answer::OkBucketConfig)
}

/// The website document of a bucket.
pub fn get_bucket_website(bucket: &str, exists: bool, loaded: Option<&BucketConfig>) -> (r: Answer)
    ensures
        !exists ==> no_bucket(r, bucket@),
        exists ==> answers_document(r, match loaded {
            Some(c) => website_answer(config_view(*c)),
            None => None,
        }),
{
    if !exists {
        return Answer::NoSuchBucket(bucket.to_string());
    }
    document_answer(website_document(loaded))
}

/// Removes the website configuration.
pub fn delete_bucket_website(bucket: &str, exists: bool, loaded: Option<BucketConfig>) -> (r: Step)
    ensures
        !exists ==> refused_no_bucket(r, bucket@),
        exists ==> r.answer is NoContent
            && stores(r, BucketConfigView { website: None, ..base_view(loaded) }, false),
{
    if !exists {
        return answer_only(Answer::NoSuchBucket(bucket.to_string()));
    }
    let mut config = base(loaded);
    delete_website(&mut config);
    store(config, false, Answer::NoContent)
}

/// Stores the referer configuration a `RefererConfiguration` document gives;
/// an empty list removes it.
pub fn put_bucket_referer(bucket: &str, exists: bool, referer: Option<RefererConfiguration>, loaded: Option<BucketConfig>) -> (r: Step)
    ensures
        !exists ==> refused_no_bucket(r, bucket@),
        exists ==> match referer {
            None => only_answers(r, Answer::Error(ErrorKind::BadRequest)),
            Some(x) => r.answer is OkBucketConfig
                && stores(r, BucketConfigView { referer: referer_of(x), ..base_view(loaded) }, true),
        },
{
    if !exists {
        return answer_only(Answer::NoSuchBucket(bucket.to_string()));
    }
    let x = match referer {
        Some(x) => x,
        None => return answer_only(Answer::Error(ErrorKind::BadRequest)),
    };
    let mut config = base(loaded);
    put_referer(&mut config, x);
    store(config, true, Answer::OkBucketConfig)
}

/// The referer document of a bucket.
pub fn get_bucket_referer(bucket: &str, exists: bool, loaded: Option<&BucketConfig>) -> (r: Answer)
    ensures
        !exists ==> no_bucket(r, bucket@),
        exists ==> answers_document(r, match loaded {
            Some(c) => referer_answer(config_view(*c)),
            None => None,
        }),
{
    if !exists {
        return Answer::NoSuchBucket(bucket.to_string());
    }
    document_answer(referer_document(loaded))
}

/// Removes the referer configuration.
pub fn delete_bucket_referer(bucket: &str, exists: bool, loaded: Option<BucketConfig>) -> (r: Step)
    ensures
        !exists ==> refused_no_bucket(r, bucket@),
        exists ==> r.answer is NoContent
            && stores(r, BucketConfigView { referer: None, ..base_view(loaded) }, false),
{
    if !exists {
        return answer_only(Answer::NoSuchBucket(bucket.to_string()));
    }
    let mut config = base(loaded);
    delete_referer(&mut config);
    store(config, false, Answer::NoContent)
}

/// Stores the lifecycle rules a `LifecycleConfiguration` document gives.
pub fn put_bucket_lifecycle(bucket: &str, exists: bool, lifecycle: Option<LifecycleConfiguration>, loaded: Option<BucketConfig>) -> (r: Step)
    ensures
        !exists ==> refused_no_bucket(r, bucket@),
        exists ==> match lifecycle {
            None => only_answers(r, Answer::Error(ErrorKind::BadRequest)),
            Some(lc) => r.answer is OkBucketConfig
                && stores(r, BucketConfigView {
                    lifecycle: Some(lc.rules@.map_values(|x: LifecycleRuleXml| rule_of(x))),
                    ..base_view(loaded)
                }, true),
        },
{
    if !exists {
        return answer_only(Answer::NoSuchBucket(bucket.to_string()));
    }
    let lc = match lifecycle {
        Some(lc) => lc,
        None => return answer_only(Answer::Error(ErrorKind::BadRequest)),
    };
    let mut config = base(loaded);
    put_lifecycle(&mut config, lc);
    store(config, true, Answer::OkBucketConfig)
}

/// The lifecycle document of a bucket.
pub fn get_bucket_lifecycle(bucket: &str, exists: bool, loaded: Option<&BucketConfig>) -> (r: Answer)
    ensures
        !exists ==> no_bucket(r, bucket@),
        exists ==> answers_document(r, match loaded {
            Some(c) => lifecycle_answer(config_view(*c)),
            None => None,
        }),
{
    if !exists {
        return Answer::NoSuchBucket(bucket.to_string());
    }
    document_answer(lifecycle_document(loaded))
}

/// Removes the lifecycle configuration.
pub fn delete_bucket_lifecycle(bucket: &str, exists: bool, loaded: Option<BucketConfig>) -> (r: Step)
    ensures
        !exists ==> refused_no_bucket(r, bucket@),
        exists ==> r.answer is NoContent
            && stores(r, BucketConfigView { lifecycle: None, ..base_view(loaded) }, false),
{
    if !exists {
        return answer_only(Answer::NoSuchBucket(bucket.to_string()));
    }
    let mut config = base(loaded);
    delete_lifecycle(&mut config);
    store(config, false, Answer::NoContent)
}

} // verus!
