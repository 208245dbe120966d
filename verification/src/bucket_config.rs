//! The logging, website, referer and lifecycle configuration of a bucket:
//! what a write stores, what a removal clears, and the document a read
//! answers with.

use vstd::prelude::*;
use crate::models::{
    BucketConfig, BucketLoggingStatus, LifecycleConfig, LifecycleConfiguration, LifecycleRule,
    LoggingConfig, RefererConfig, RefererConfiguration, WebsiteConfig, WebsiteConfiguration,
};
use crate::text::{decimal_text, format_i64, push_all};

verus! {

/// A lifecycle rule as plain values: id, prefix, status, expiration days,
/// transition days, transition storage class.
pub type RuleView = (Seq<char>, Seq<char>, Seq<char>, Option<i32>, Option<i32>, Option<Seq<char>>);

/// The content of a bucket's configuration.
pub struct BucketConfigView {
    pub logging: Option<(Seq<char>, Seq<char>)>,
    pub website: Option<(Seq<char>, Seq<char>)>,
    pub referer: Option<(bool, Seq<Seq<char>>)>,
    pub lifecycle: Option<Seq<RuleView>>,
}

/// The views of a list of strings.
pub open spec fn texts(v: Seq<String>) -> Seq<Seq<char>> {
    v.map_values(|s: String| s@)
}

/// A lifecycle rule as plain values.
pub open spec fn rule_view(r: LifecycleRule) -> RuleView {
    (r.id@, r.prefix@, r.status@, r.expiration_days, r.transition_days, match r.transition_storage_class {
        Some(c) => Some(c@),
        None => None,
    })
}

/// The content of a bucket's configuration.
pub open spec fn config_view(c: BucketConfig) -> BucketConfigView {
    BucketConfigView {
        logging: match c.logging {
            Some(l) => Some((l.target_bucket@, l.target_prefix@)),
            None => None,
        },
        website: match c.website {
            Some(w) => Some((w.index_document@, w.error_document@)),
            None => None,
        },
        referer: match c.referer {
            Some(r) => Some((r.allow_empty, texts(r.referer_list@))),
            None => None,
        },
        lifecycle: match c.lifecycle {
            Some(l) => Some(l.rules@.map_values(|r: LifecycleRule| rule_view(r))),
            None => None,
        },
    }
}

// ------------------------------------------------------------------
// Writes and removals
// ------------------------------------------------------------------

/// What a logging write stores: the target of the logging it enables, or
/// nothing where it enables none.
pub open spec fn logging_of(s: BucketLoggingStatus) -> Option<(Seq<char>, Seq<char>)> {
    match s.logging_enabled {
        Some(le) => Some((le.target_bucket@, le.target_prefix@)),
        None => None,
    }
}

/// What a referer write stores: nothing where the list is empty (an empty
/// list removes the configuration), else the list and whether an empty
/// referer is allowed.
pub open spec fn referer_of(r: RefererConfiguration) -> Option<(bool, Seq<Seq<char>>)> {
    if r.referer_list.referers@.len() == 0 {
        None
    } else {
        Some((r.allow_empty, texts(r.referer_list.referers@)))
    }
}

/// What a lifecycle write stores for one rule: its id, prefix, status and
/// expiration days; no transition.
pub open spec fn rule_of(r: crate::models::LifecycleRuleXml) -> RuleView {
    (r.id@, r.prefix@, r.status@, match r.expiration {
        Some(e) => Some(e.days),
        None => None,
    }, None, None)
}

/// Stores the logging configuration that a `BucketLoggingStatus` document gives.
pub fn put_logging(config: &mut BucketConfig, status: BucketLoggingStatus)
    ensures
        config_view(*final(config)) == (BucketConfigView {
            logging: logging_of(status),
            ..config_view(*old(config))
        }),
{
    config.logging = match status.logging_enabled {
        Some(le) => Some(LoggingConfig { target_bucket: le.target_bucket, target_prefix: le.target_prefix }),
        None => None,
    };
}

/// Stores the website configuration that a `WebsiteConfiguration` document gives.
pub fn put_website(config: &mut BucketConfig, web: WebsiteConfiguration)
    ensures
        config_view(*final(config)) == (BucketConfigView {
            website: Some((web.index_document.suffix@, web.error_document.key@)),
            ..config_view(*old(config))
        }),
{
    config.website = Some(WebsiteConfig {
        index_document: web.index_document.suffix,
        error_document: web.error_document.key,
    });
}

/// Stores the referer configuration that a `RefererConfiguration` document
/// gives; an empty list removes it.
pub fn put_referer(config: &mut BucketConfig, r: RefererConfiguration)
    ensures
        config_view(*final(config)) == (BucketConfigView {
            referer: referer_of(r),
            ..config_view(*old(config))
        }),
{
    if r.referer_list.referers.len() == 0 {
        config.referer = None;
    } else {
        config.referer = Some(RefererConfig {
            allow_empty: r.allow_empty,
            referer_list: r.referer_list.referers,
        });
    }
}

/// Stores the lifecycle rules that a `LifecycleConfiguration` document gives.
pub fn put_lifecycle(config: &mut BucketConfig, lc: LifecycleConfiguration)
    ensures
        config_view(*final(config)) == (BucketConfigView {
            lifecycle: Some(lc.rules@.map_values(|r: crate::models::LifecycleRuleXml| rule_of(r))),
            ..config_view(*old(config))
        }),
{
    let ghost src = lc.rules@;
    let mut rules: Vec<LifecycleRule> = Vec::new();
    let mut input = lc.rules;
    while input.len() > 0
        invariant
            rules@.len() + input@.len() == src.len(),
            input@ =~= src.subrange(rules@.len() as int, src.len() as int),
            forall|j: int| 0 <= j < rules@.len() ==> rule_view(#[trigger] rules@[j]) == rule_of(src[j]),
        decreases input@.len(),
    {
        let ghost k = rules@.len() as int;
        let r = input.remove(0);
        proof {
            assert(r == src[k]);
            assert(input@ =~= src.subrange(k + 1, src.len() as int));
        }
        let rule = LifecycleRule {
            id: r.id,
            prefix: r.prefix,
            status: r.status,
            expiration_days: match r.expiration {
                Some(e) => Some(e.days),
                None => None,
            },
            transition_days: None,
            transition_storage_class: None,
        };
        rules.push(rule);
    }
    proof {
        assert(rules@.map_values(|r: LifecycleRule| rule_view(r)) =~= src.map_values(|r: crate::models::LifecycleRuleXml| rule_of(r)));
    }
    config.lifecycle = Some(LifecycleConfig { rules });
}

/// Removes the logging configuration.
pub fn delete_logging(config: &mut BucketConfig)
    ensures
        config_view(*final(config)) == (BucketConfigView { logging: None, ..config_view(*old(config)) }),
{
    config.logging = None;
}

/// Removes the website configuration.
pub fn delete_website(config: &mut BucketConfig)
    ensures
        config_view(*final(config)) == (BucketConfigView { website: None, ..config_view(*old(config)) }),
{
    config.website = None;
}

/// Removes the referer configuration.
pub fn delete_referer(config: &mut BucketConfig)
    ensures
        config_view(*final(config)) == (BucketConfigView { referer: None, ..config_view(*old(config)) }),
{
    config.referer = None;
}

/// Removes the lifecycle configuration.
pub fn delete_lifecycle(config: &mut BucketConfig)
    ensures
        config_view(*final(config)) == (BucketConfigView { lifecycle: None, ..config_view(*old(config)) }),
{
    config.lifecycle = None;
}

// ------------------------------------------------------------------
// Documents
// ------------------------------------------------------------------

/// The XML declaration every document begins with.
pub open spec fn xml_decl() -> Seq<char> {
    "<?xml version=\"1.0\" encoding=\"UTF-8\"?>"@
}

/// The logging document.
pub open spec fn logging_doc(target_bucket: Seq<char>, target_prefix: Seq<char>) -> Seq<char> {
    xml_decl() + "\n<BucketLoggingStatus>\n  <LoggingEnabled>\n    <TargetBucket>"@ + target_bucket
        + "</TargetBucket>\n    <TargetPrefix>"@ + target_prefix
        + "</TargetPrefix>\n  </LoggingEnabled>\n</BucketLoggingStatus>"@
}

/// The website document.
pub open spec fn website_doc(index: Seq<char>, error: Seq<char>) -> Seq<char> {
    xml_decl() + "\n<WebsiteConfiguration>\n  <IndexDocument>\n    <Suffix>"@ + index
        + "</Suffix>\n  </IndexDocument>\n  <ErrorDocument>\n    <Key>"@ + error
        + "</Key>\n  </ErrorDocument>\n</WebsiteConfiguration>"@
}

/// One referer line.
pub open spec fn referer_line(r: Seq<char>) -> Seq<char> {
    "  <Referer>"@ + r + "</Referer>"@
}

/// The referer lines, joined by line breaks.
pub open spec fn referer_lines(refs: Seq<Seq<char>>) -> Seq<char>
    decreases refs.len(),
{
    if refs.len() == 0 {
        Seq::empty()
    } else if refs.len() == 1 {
        referer_line(refs[0])
    } else {
        referer_lines(refs.drop_last()) + "\n"@ + referer_line(refs.last())
    }
}

/// The referer document.
pub open spec fn referer_doc(allow_empty: bool, refs: Seq<Seq<char>>) -> Seq<char> {
    xml_decl() + "\n<RefererConfiguration>\n  <AllowEmptyReferer>"@ + (if allow_empty {
        "true"@
    } else {
        "false"@
    }) + "</AllowEmptyReferer>\n  <RefererList>\n"@ + referer_lines(refs)
        + "\n  </RefererList>\n</RefererConfiguration>"@
}

/// The expiration line of a rule, empty where it has none.
pub open spec fn expiration_line(days: Option<i32>) -> Seq<char> {
    match days {
        Some(d) => "    <Expiration><Days>"@ + decimal_text(d as int) + "</Days></Expiration>"@,
        None => Seq::empty(),
    }
}

/// The text of one rule.
pub open spec fn rule_text(r: RuleView) -> Seq<char> {
    "  <Rule>\n    <ID>"@ + r.0 + "</ID>\n    <Prefix>"@ + r.1 + "</Prefix>\n    <Status>"@ + r.2
        + "</Status>\n"@ + expiration_line(r.3) + "\n  </Rule>"@
}

/// The rules, joined by line breaks.
pub open spec fn rules_text(rules: Seq<RuleView>) -> Seq<char>
    decreases rules.len(),
{
    if rules.len() == 0 {
        Seq::empty()
    } else if rules.len() == 1 {
        rule_text(rules[0])
    } else {
        rules_text(rules.drop_last()) + "\n"@ + rule_text(rules.last())
    }
}

/// The lifecycle document.
pub open spec fn lifecycle_doc(rules: Seq<RuleView>) -> Seq<char> {
    xml_decl() + "\n<LifecycleConfiguration>\n"@ + rules_text(rules) + "\n</LifecycleConfiguration>"@
}

/// A text that may be missing.
pub open spec fn opt_text(r: Option<String>) -> Option<Seq<char>> {
    match r {
        Some(s) => Some(s@),
        None => None,
    }
}

/// What a read of the logging configuration answers: its document, or
/// nothing (the service then answers that there is no such configuration).
pub open spec fn logging_answer(v: BucketConfigView) -> Option<Seq<char>> {
    match v.logging {
        Some((b, p)) => Some(logging_doc(b, p)),
        None => None,
    }
}

/// What a read of the website configuration answers.
pub open spec fn website_answer(v: BucketConfigView) -> Option<Seq<char>> {
    match v.website {
        Some((i, e)) => Some(website_doc(i, e)),
        None => None,
    }
}

/// What a read of the referer configuration answers.
pub open spec fn referer_answer(v: BucketConfigView) -> Option<Seq<char>> {
    match v.referer {
        Some((a, l)) => Some(referer_doc(a, l)),
        None => None,
    }
}

/// What a read of the lifecycle configuration answers.
pub open spec fn lifecycle_answer(v: BucketConfigView) -> Option<Seq<char>> {
    match v.lifecycle {
        Some(rules) => Some(lifecycle_doc(rules)),
        None => None,
    }
}

fn push_decl(s: &mut String)
    ensures
        final(s)@ == old(s)@ + xml_decl(),
{
    push_all(s, "<?xml version=\"1.0\" encoding=\"UTF-8\"?>");
}

/// The logging document of a bucket, or `None` where the configuration could
/// not be read or holds no logging.
pub fn logging_document(config: Option<&BucketConfig>) -> (r: Option<String>)
    ensures
        opt_text(r) == match config {
            Some(c) => logging_answer(config_view(*c)),
            None => None,
        },
{
    let c = match config {
        Some(c) => c,
        None => return None,
    };
    match &c.logging {
        None => None,
        Some(l) => {
            let mut s = String::new();
            push_decl(&mut s);
            push_all(&mut s, "\n<BucketLoggingStatus>\n  <LoggingEnabled>\n    <TargetBucket>");
            push_all(&mut s, l.target_bucket.as_str());
            push_all(&mut s, "</TargetBucket>\n    <TargetPrefix>");
            push_all(&mut s, l.target_prefix.as_str());
            push_all(&mut s, "</TargetPrefix>\n  </LoggingEnabled>\n</BucketLoggingStatus>");
            assert(s@ =~= logging_doc(l.target_bucket@, l.target_prefix@));
            Some(s)
        }
    }
}

/// The website document of a bucket, or `None` where the configuration could
/// not be read or holds no website.
pub fn website_document(config: Option<&BucketConfig>) -> (r: Option<String>)
    ensures
        opt_text(r) == match config {
            Some(c) => website_answer(config_view(*c)),
            None => None,
        },
{
    let c = match config {
        Some(c) => c,
        None => return None,
    };
    match &c.website {
        None => None,
        Some(w) => {
            let mut s = String::new();
            push_decl(&mut s);
            push_all(&mut s, "\n<WebsiteConfiguration>\n  <IndexDocument>\n    <Suffix>");
            push_all(&mut s, w.index_document.as_str());
            push_all(&mut s, "</Suffix>\n  </IndexDocument>\n  <ErrorDocument>\n    <Key>");
            push_all(&mut s, w.error_document.as_str());
            push_all(&mut s, "</Key>\n  </ErrorDocument>\n</WebsiteConfiguration>");
            assert(s@ =~= website_doc(w.index_document@, w.error_document@));
            Some(s)
        }
    }
}

/// The referer document of a bucket, or `None` where the configuration could
/// not be read or holds no referer list.
pub fn referer_document(config: Option<&BucketConfig>) -> (r: Option<String>)
    ensures
        opt_text(r) == match config {
            Some(c) => referer_answer(config_view(*c)),
            None => None,
        },
{
    let c = match config {
        Some(c) => c,
        None => return None,
    };
    match &c.referer {
        None => None,
        Some(r) => {
            let ghost refs = texts(r.referer_list@);
            let mut lines = String::new();
            let mut i: usize = 0;
            while i < r.referer_list.len()
                invariant
                    i <= r.referer_list@.len(),
                    refs == texts(r.referer_list@),
                    lines@ == referer_lines(refs.take(i as int)),
                decreases r.referer_list@.len() - i,
            {
                let ghost before = lines@;
                if i > 0 {
                    push_all(&mut lines, "\n");
                }
                push_all(&mut lines, "  <Referer>");
                push_all(&mut lines, r.referer_list[i].as_str());
                push_all(&mut lines, "</Referer>");
                proof {
                    let t = refs.take(i + 1);
                    assert(t.drop_last() =~= refs.take(i as int));
                    if i == 0 {
                        assert(lines@ =~= referer_line(t[0]));
                    } else {
                        assert(lines@ =~= before + "\n"@ + referer_line(t.last()));
                    }
                }
                i = i + 1;
            }
            proof {
                assert(refs.take(refs.len() as int) =~= refs);
            }
            let mut s = String::new();
            push_decl(&mut s);
            push_all(&mut s, "\n<RefererConfiguration>\n  <AllowEmptyReferer>");
            push_all(&mut s, if r.allow_empty { "true" } else { "false" });
            push_all(&mut s, "</AllowEmptyReferer>\n  <RefererList>\n");
            push_all(&mut s, lines.as_str());
            push_all(&mut s, "\n  </RefererList>\n</RefererConfiguration>");
            assert(s@ =~= referer_doc(r.allow_empty, refs));
            Some(s)
        }
    }
}

fn rule_string(rule: &LifecycleRule) -> (s: String)
    ensures
        s@ == rule_text(rule_view(*rule)),
{
    let mut s = String::new();
    push_all(&mut s, "  <Rule>\n    <ID>");
    push_all(&mut s, rule.id.as_str());
    push_all(&mut s, "</ID>\n    <Prefix>");
    push_all(&mut s, rule.prefix.as_str());
    push_all(&mut s, "</Prefix>\n    <Status>");
    push_all(&mut s, rule.status.as_str());
    push_all(&mut s, "</Status>\n");
    match rule.expiration_days {
        Some(d) => {
            push_all(&mut s, "    <Expiration><Days>");
            push_all(&mut s, format_i64(d as i64).as_str());
            push_all(&mut s, "</Days></Expiration>");
        }
        None => {}
    }
    push_all(&mut s, "\n  </Rule>");
    assert(s@ =~= rule_text(rule_view(*rule)));
    s
}

/// The lifecycle document of a bucket, or `None` where the configuration
/// could not be read or holds no lifecycle.
pub fn lifecycle_document(config: Option<&BucketConfig>) -> (r: Option<String>)
    ensures
        opt_text(r) == match config {
            Some(c) => lifecycle_answer(config_view(*c)),
            None => None,
        },
{
    let c = match config {
        Some(c) => c,
        None => return None,
    };
    match &c.lifecycle {
        None => None,
        Some(l) => {
            let ghost rules = l.rules@.map_values(|r: LifecycleRule| rule_view(r));
            let mut text = String::new();
            let mut i: usize = 0;
            while i < l.rules.len()
                invariant
                    i <= l.rules@.len(),
                    rules == l.rules@.map_values(|r: LifecycleRule| rule_view(r)),
                    text@ == rules_text(rules.take(i as int)),
                decreases l.rules@.len() - i,
            {
                let ghost before = text@;
                if i > 0 {
                    push_all(&mut text, "\n");
                }
                let one = rule_string(&l.rules[i]);
                push_all(&mut text, one.as_str());
                proof {
                    let t = rules.take(i + 1);
                    assert(t.drop_last() =~= rules.take(i as int));
                    if i == 0 {
                        assert(text@ =~= rule_text(t[0]));
                    } else {
                        assert(text@ =~= before + "\n"@ + rule_text(t.last()));
                    }
                }
                i = i + 1;
            }
            proof {
                assert(rules.take(rules.len() as int) =~= rules);
            }
            let mut s = String::new();
            push_decl(&mut s);
            push_all(&mut s, "\n<LifecycleConfiguration>\n");
            push_all(&mut s, text.as_str());
            push_all(&mut s, "\n</LifecycleConfiguration>");
            assert(s@ =~= lifecycle_doc(rules));
            Some(s)
        }
    }
}

// ------------------------------------------------------------------
// Laws
// ------------------------------------------------------------------

/// A read of the logging configuration gives back what the last logging
/// write stored, and nothing after a removal; writing or removing it leaves
/// what the other reads answer unchanged.
pub proof fn law_logging_read_after_write(v: BucketConfigView, s: BucketLoggingStatus)
    ensures
        ({
            let w = BucketConfigView { logging: logging_of(s), ..v };
            let d = BucketConfigView { logging: None, ..v };
            &&& logging_answer(w) == match s.logging_enabled {
                Some(le) => Some(logging_doc(le.target_bucket@, le.target_prefix@)),
                None => None::<Seq<char>>,
            }
            &&& logging_answer(d) is None
            &&& website_answer(w) == website_answer(v) && website_answer(d) == website_answer(v)
            &&& referer_answer(w) == referer_answer(v) && referer_answer(d) == referer_answer(v)
            &&& lifecycle_answer(w) == lifecycle_answer(v) && lifecycle_answer(d) == lifecycle_answer(v)
        }),
{
}

/// A read of the website configuration gives back the index and error
/// documents of the last website write, and nothing after a removal;
/// the other reads are unchanged.
pub proof fn law_website_read_after_write(v: BucketConfigView, web: WebsiteConfiguration)
    ensures
        ({
            let w = BucketConfigView { website: Some((web.index_document.suffix@, web.error_document.key@)), ..v };
            let d = BucketConfigView { website: None, ..v };
            &&& website_answer(w) == Some(website_doc(web.index_document.suffix@, web.error_document.key@))
            &&& website_answer(d) is None
            &&& logging_answer(w) == logging_answer(v) && logging_answer(d) == logging_answer(v)
            &&& referer_answer(w) == referer_answer(v) && referer_answer(d) == referer_answer(v)
            &&& lifecycle_answer(w) == lifecycle_answer(v) && lifecycle_answer(d) == lifecycle_answer(v)
        }),
{
}

/// A read of the referer configuration gives back the list of the last
/// referer write; a write of an empty list, like a removal, leaves nothing
/// to read; the other reads are unchanged.
pub proof fn law_referer_read_after_write(v: BucketConfigView, r: RefererConfiguration)
    ensures
        ({
            let w = BucketConfigView { referer: referer_of(r), ..v };
            let d = BucketConfigView { referer: None, ..v };
            &&& referer_answer(w) == if r.referer_list.referers@.len() == 0 {
                None::<Seq<char>>
            } else {
                Some(referer_doc(r.allow_empty, texts(r.referer_list.referers@)))
            }
            &&& referer_answer(d) is None
            &&& logging_answer(w) == logging_answer(v) && logging_answer(d) == logging_answer(v)
            &&& website_answer(w) == website_answer(v) && website_answer(d) == website_answer(v)
            &&& lifecycle_answer(w) == lifecycle_answer(v) && lifecycle_answer(d) == lifecycle_answer(v)
        }),
{
}

/// A read of the lifecycle configuration gives back the rules of the last
/// lifecycle write, each with its id, prefix, status and expiration, and
/// nothing after a removal; the other reads are unchanged.
pub proof fn law_lifecycle_read_after_write(v: BucketConfigView, lc: LifecycleConfiguration)
    ensures
        ({
            let rules = lc.rules@.map_values(|x: crate::models::LifecycleRuleXml| rule_of(x));
            let w = BucketConfigView { lifecycle: Some(rules), ..v };
            let d = BucketConfigView { lifecycle: None, ..v };
            &&& lifecycle_answer(w) == Some(lifecycle_doc(rules))
            &&& lifecycle_answer(d) is None
            &&& logging_answer(w) == logging_answer(v) && logging_answer(d) == logging_answer(v)
            &&& website_answer(w) == website_answer(v) && website_answer(d) == website_answer(v)
            &&& referer_answer(w) == referer_answer(v) && referer_answer(d) == referer_answer(v)
        }),
{
}


/// `piece` stands in `s` at `k`.
pub open spec fn stands_at(s: Seq<char>, piece: Seq<char>, k: int) -> bool {
    0 <= k && k + piece.len() <= s.len() && s.subrange(k, k + piece.len()) == piece
}

/// `d` holds the referer `r` in a `<Referer>` element.
pub open spec fn shows_referer(d: Seq<char>, r: Seq<char>) -> bool {
    exists|k: int| stands_at(d, "<Referer>"@ + r + "</Referer>"@, k)
}

/// A piece of `a` stands in `a + b` where it stood in `a`, and a piece of
/// `b` stands `a.len()` further on.
proof fn lemma_stands_in_concat(a: Seq<char>, b: Seq<char>, piece: Seq<char>, k: int)
    ensures
        stands_at(a, piece, k) ==> stands_at(a + b, piece, k),
        stands_at(b, piece, k) ==> stands_at(a + b, piece, a.len() + k),
{
    if stands_at(a, piece, k) {
        assert((a + b).subrange(k, k + piece.len()) =~= a.subrange(k, k + piece.len()));
    }
    if stands_at(b, piece, k) {
        assert((a + b).subrange(a.len() + k, a.len() + k + piece.len()) =~= b.subrange(k, k + piece.len()));
    }
}

/// Every referer of the list stands in the referer lines, in a
/// `<Referer>` element of its own.
proof fn lemma_referer_lines_hold(refs: Seq<Seq<char>>, i: int)
    requires
        0 <= i < refs.len(),
    ensures
        exists|k: int| stands_at(referer_lines(refs), "<Referer>"@ + refs[i] + "</Referer>"@, k),
    decreases refs.len(),
{
    let piece = "<Referer>"@ + refs[i] + "</Referer>"@;
    broadcast use vstd::string::group_string_axioms;
    reveal_strlit("  <Referer>");
    reveal_strlit("<Referer>");
    reveal_strlit("\n");
    let line = referer_line(refs[i]);
    assert(line =~= seq![' ', ' '] + piece) by {
        assert("  <Referer>"@ =~= seq![' ', ' '] + "<Referer>"@);
    }
    assert(stands_at(line, piece, 2)) by {
        assert(line.subrange(2, 2 + piece.len() as int) =~= piece);
    }
    if refs.len() == 1 {
        assert(referer_lines(refs) == line);
    } else if i == refs.len() - 1 {
        let front = referer_lines(refs.drop_last()) + "\n"@;
        lemma_stands_in_concat(front, line, piece, 2);
        assert(referer_lines(refs) == front + line);
    } else {
        lemma_referer_lines_hold(refs.drop_last(), i);
        let k = choose|k: int| stands_at(referer_lines(refs.drop_last()), piece, k);
        let front = referer_lines(refs.drop_last());
        let last_line = referer_line(refs.last());
        lemma_stands_in_concat(front, "\n"@ + last_line, piece, k);
        assert(referer_lines(refs) =~= front + ("\n"@ + last_line));
        assert(refs.drop_last()[i] == refs[i]);
    }
}

/// The referer document says whether an empty referer is allowed as it was
/// written: right after its opening it holds
/// `<AllowEmptyReferer>true</AllowEmptyReferer>` or
/// `<AllowEmptyReferer>false</AllowEmptyReferer>`; and every referer of the
/// list stands in it in a `<Referer>` element.
pub proof fn law_referer_document_states_what_was_written(allow_empty: bool, refs: Seq<Seq<char>>)
    ensures
        ({
            let d = referer_doc(allow_empty, refs);
            let head = "<?xml version=\"1.0\" encoding=\"UTF-8\"?>\n<RefererConfiguration>\n  "@;
            let flag = if allow_empty {
                "<AllowEmptyReferer>true</AllowEmptyReferer>"@
            } else {
                "<AllowEmptyReferer>false</AllowEmptyReferer>"@
            };
            &&& stands_at(d, head, 0)
            &&& stands_at(d, flag, head.len() as int)
            &&& forall|i: int| 0 <= i < refs.len() ==> shows_referer(d, #[trigger] refs[i])
        }),
{
    broadcast use vstd::string::group_string_axioms;
    reveal_strlit("<?xml version=\"1.0\" encoding=\"UTF-8\"?>");
    reveal_strlit("\n<RefererConfiguration>\n  <AllowEmptyReferer>");
    reveal_strlit("<?xml version=\"1.0\" encoding=\"UTF-8\"?>\n<RefererConfiguration>\n  ");
    reveal_strlit("true");
    reveal_strlit("false");
    reveal_strlit("</AllowEmptyReferer>\n  <RefererList>\n");
    reveal_strlit("<AllowEmptyReferer>true</AllowEmptyReferer>");
    reveal_strlit("<AllowEmptyReferer>false</AllowEmptyReferer>");
    reveal_strlit("\n  </RefererList>\n</RefererConfiguration>");
    let d = referer_doc(allow_empty, refs);
    let head = "<?xml version=\"1.0\" encoding=\"UTF-8\"?>\n<RefererConfiguration>\n  "@;
    let word = if allow_empty { "true"@ } else { "false"@ };
    let flag = if allow_empty {
        "<AllowEmptyReferer>true</AllowEmptyReferer>"@
    } else {
        "<AllowEmptyReferer>false</AllowEmptyReferer>"@
    };
    let opening = xml_decl() + "\n<RefererConfiguration>\n  <AllowEmptyReferer>"@ + word
        + "</AllowEmptyReferer>\n  <RefererList>\n"@;
    let tail = "\n  </RefererList>\n</RefererConfiguration>"@;
    assert(d == opening + referer_lines(refs) + tail);
    assert(opening.subrange(0, head.len() as int) =~= head);
    assert(opening.subrange(head.len() as int, (head.len() + flag.len()) as int) =~= flag);
    lemma_stands_in_concat(opening, referer_lines(refs), head, 0);
    lemma_stands_in_concat(opening, referer_lines(refs), flag, head.len() as int);
    lemma_stands_in_concat(opening + referer_lines(refs), tail, head, 0);
    lemma_stands_in_concat(opening + referer_lines(refs), tail, flag, head.len() as int);
    assert forall|i: int| 0 <= i < refs.len() implies shows_referer(d, #[trigger] refs[i]) by {
        let piece = "<Referer>"@ + refs[i] + "</Referer>"@;
        lemma_referer_lines_hold(refs, i);
        let k = choose|k: int| stands_at(referer_lines(refs), piece, k);
        lemma_stands_in_concat(opening, referer_lines(refs), piece, k);
        lemma_stands_in_concat(opening + referer_lines(refs), tail, piece, opening.len() + k);
        assert(stands_at(d, piece, opening.len() + k));
    }

}

/// `value` stands in `d` as the whole content of an element named by
/// `open` and `close`.
pub open spec fn shows_element(d: Seq<char>, open: Seq<char>, value: Seq<char>, close: Seq<char>) -> bool {
    exists|k: int| stands_at(d, open + value + close, k)
}

/// An element written between two texts stands where it was written.
proof fn lemma_element_between(pre: Seq<char>, open: Seq<char>, value: Seq<char>, close: Seq<char>, post: Seq<char>)
    ensures
        stands_at(pre + open + value + close + post, open + value + close, pre.len() as int),
{
    let d = pre + open + value + close + post;
    let piece = open + value + close;
    assert(d.subrange(pre.len() as int, (pre.len() + piece.len()) as int) =~= piece);
}

/// The logging document names the target bucket in its `<TargetBucket>`
/// element and the target prefix in its `<TargetPrefix>` element, as they
/// were written.
pub proof fn law_logging_document_states_what_was_written(target_bucket: Seq<char>, target_prefix: Seq<char>)
    ensures
        ({
            let d = logging_doc(target_bucket, target_prefix);
            &&& shows_element(d, "<TargetBucket>"@, target_bucket, "</TargetBucket>"@)
            &&& shows_element(d, "<TargetPrefix>"@, target_prefix, "</TargetPrefix>"@)
        }),
{
    broadcast use vstd::string::group_string_axioms;
    reveal_strlit("\n<BucketLoggingStatus>\n  <LoggingEnabled>\n    <TargetBucket>");
    reveal_strlit("</TargetBucket>\n    <TargetPrefix>");
    reveal_strlit("</TargetPrefix>\n  </LoggingEnabled>\n</BucketLoggingStatus>");
    reveal_strlit("\n<BucketLoggingStatus>\n  <LoggingEnabled>\n    ");
    reveal_strlit("<TargetBucket>");
    reveal_strlit("</TargetBucket>");
    reveal_strlit("\n    ");
    reveal_strlit("<TargetPrefix>");
    reveal_strlit("</TargetPrefix>");
    reveal_strlit("\n  </LoggingEnabled>\n</BucketLoggingStatus>");
    let d = logging_doc(target_bucket, target_prefix);
    let pre1 = xml_decl() + "\n<BucketLoggingStatus>\n  <LoggingEnabled>\n    "@;
    let post1 = "\n    "@ + "<TargetPrefix>"@ + target_prefix + "</TargetPrefix>"@
        + "\n  </LoggingEnabled>\n</BucketLoggingStatus>"@;
    assert(d =~= pre1 + "<TargetBucket>"@ + target_bucket + "</TargetBucket>"@ + post1);
    lemma_element_between(pre1, "<TargetBucket>"@, target_bucket, "</TargetBucket>"@, post1);
    let pre2 = pre1 + "<TargetBucket>"@ + target_bucket + "</TargetBucket>"@ + "\n    "@;
    let post2 = "\n  </LoggingEnabled>\n</BucketLoggingStatus>"@;
    assert(d =~= pre2 + "<TargetPrefix>"@ + target_prefix + "</TargetPrefix>"@ + post2);
    lemma_element_between(pre2, "<TargetPrefix>"@, target_prefix, "</TargetPrefix>"@, post2);
}

/// The website document names the index suffix in its `<Suffix>` element
/// and the error document in its `<Key>` element, as they were written.
pub proof fn law_website_document_states_what_was_written(index: Seq<char>, error: Seq<char>)
    ensures
        ({
            let d = website_doc(index, error);
            &&& shows_element(d, "<Suffix>"@, index, "</Suffix>"@)
            &&& shows_element(d, "<Key>"@, error, "</Key>"@)
        }),
{
    broadcast use vstd::string::group_string_axioms;
    reveal_strlit("\n<WebsiteConfiguration>\n  <IndexDocument>\n    <Suffix>");
    reveal_strlit("</Suffix>\n  </IndexDocument>\n  <ErrorDocument>\n    <Key>");
    reveal_strlit("</Key>\n  </ErrorDocument>\n</WebsiteConfiguration>");
    reveal_strlit("\n<WebsiteConfiguration>\n  <IndexDocument>\n    ");
    reveal_strlit("<Suffix>");
    reveal_strlit("</Suffix>");
    reveal_strlit("\n  </IndexDocument>\n  <ErrorDocument>\n    ");
    reveal_strlit("<Key>");
    reveal_strlit("</Key>");
    reveal_strlit("\n  </ErrorDocument>\n</WebsiteConfiguration>");
    let d = website_doc(index, error);
    let mid = "\n  </IndexDocument>\n  <ErrorDocument>\n    "@;
    let pre1 = xml_decl() + "\n<WebsiteConfiguration>\n  <IndexDocument>\n    "@;
    let post1 = mid + "<Key>"@ + error + "</Key>"@ + "\n  </ErrorDocument>\n</WebsiteConfiguration>"@;
    assert(d =~= pre1 + "<Suffix>"@ + index + "</Suffix>"@ + post1);
    lemma_element_between(pre1, "<Suffix>"@, index, "</Suffix>"@, post1);
    let pre2 = pre1 + "<Suffix>"@ + index + "</Suffix>"@ + mid;
    let post2 = "\n  </ErrorDocument>\n</WebsiteConfiguration>"@;
    assert(d =~= pre2 + "<Key>"@ + error + "</Key>"@ + post2);
    lemma_element_between(pre2, "<Key>"@, error, "</Key>"@, post2);
}

/// A piece of a piece of `s` stands in `s`.
proof fn lemma_stands_within(s: Seq<char>, p: Seq<char>, k: int, q: Seq<char>, j: int)
    requires
        stands_at(s, p, k),
        stands_at(p, q, j),
    ensures
        stands_at(s, q, k + j),
{
    assert(s.subrange(k + j, k + j + q.len()) =~= p.subrange(j, j + q.len()));
}

/// Every rule's text stands in the rules' text.
proof fn lemma_rule_texts_hold(rules: Seq<RuleView>, i: int)
    requires
        0 <= i < rules.len(),
    ensures
        exists|k: int| stands_at(rules_text(rules), rule_text(rules[i]), k),
    decreases rules.len(),
{
    let piece = rule_text(rules[i]);
    assert(stands_at(piece, piece, 0)) by {
        assert(piece.subrange(0, piece.len() as int) =~= piece);
    }
    if rules.len() == 1 {
        assert(rules_text(rules) == piece);
    } else if i == rules.len() - 1 {
        let front = rules_text(rules.drop_last()) + "\n"@;
        lemma_stands_in_concat(front, piece, piece, 0);
        assert(rules_text(rules) == front + piece);
    } else {
        lemma_rule_texts_hold(rules.drop_last(), i);
        assert(rules.drop_last()[i] == rules[i]);
        let front = rules_text(rules.drop_last());
        let k = choose|k: int| stands_at(front, piece, k);
        lemma_stands_in_concat(front, "\n"@ + rule_text(rules.last()), piece, k);
        assert(rules_text(rules) =~= front + ("\n"@ + rule_text(rules.last())));
    }
}

/// A rule's text holds its id, prefix and status, each in its element.
proof fn lemma_rule_elements(r: RuleView)
    ensures
        exists|j: int| stands_at(rule_text(r), "<ID>"@ + r.0 + "</ID>"@, j),
        exists|j: int| stands_at(rule_text(r), "<Prefix>"@ + r.1 + "</Prefix>"@, j),
        exists|j: int| stands_at(rule_text(r), "<Status>"@ + r.2 + "</Status>"@, j),
{
    broadcast use vstd::string::group_string_axioms;
    reveal_strlit("  <Rule>\n    <ID>");
    reveal_strlit("</ID>\n    <Prefix>");
    reveal_strlit("</Prefix>\n    <Status>");
    reveal_strlit("</Status>\n");
    reveal_strlit("  <Rule>\n    ");
    reveal_strlit("<ID>");
    reveal_strlit("</ID>");
    reveal_strlit("\n    ");
    reveal_strlit("<Prefix>");
    reveal_strlit("</Prefix>");
    reveal_strlit("<Status>");
    reveal_strlit("</Status>");
    reveal_strlit("\n");
    let t = rule_text(r);
    let rest = "\n"@ + expiration_line(r.3) + "\n  </Rule>"@;
    let a0 = "  <Rule>\n    "@;
    let a1 = a0 + "<ID>"@ + r.0 + "</ID>"@ + "\n    "@;
    let a2 = a1 + "<Prefix>"@ + r.1 + "</Prefix>"@ + "\n    "@;
    let p2 = "\n    "@ + "<Status>"@ + r.2 + "</Status>"@ + rest;
    let p1 = "\n    "@ + "<Prefix>"@ + r.1 + "</Prefix>"@ + p2;
    assert(t =~= a0 + "<ID>"@ + r.0 + "</ID>"@ + p1);
    lemma_element_between(a0, "<ID>"@, r.0, "</ID>"@, p1);
    assert(t =~= a1 + "<Prefix>"@ + r.1 + "</Prefix>"@ + p2);
    lemma_element_between(a1, "<Prefix>"@, r.1, "</Prefix>"@, p2);
    assert(t =~= a2 + "<Status>"@ + r.2 + "</Status>"@ + rest);
    lemma_element_between(a2, "<Status>"@, r.2, "</Status>"@, rest);
}

/// What stands in a rule's text stands in the lifecycle document.
proof fn lemma_rule_piece_in_document(rules: Seq<RuleView>, i: int, piece: Seq<char>)
    requires
        0 <= i < rules.len(),
        exists|j: int| stands_at(rule_text(rules[i]), piece, j),
    ensures
        exists|k: int| stands_at(lifecycle_doc(rules), piece, k),
{
    reveal_strlit("\n<LifecycleConfiguration>\n");
    reveal_strlit("\n</LifecycleConfiguration>");
    let t = rule_text(rules[i]);
    let d = lifecycle_doc(rules);
    let opening = xml_decl() + "\n<LifecycleConfiguration>\n"@;
    let tail = "\n</LifecycleConfiguration>"@;
    assert(d == opening + rules_text(rules) + tail);
    lemma_rule_texts_hold(rules, i);
    let k = choose|k: int| stands_at(rules_text(rules), t, k);
    lemma_stands_in_concat(opening, rules_text(rules), t, k);
    lemma_stands_in_concat(opening + rules_text(rules), tail, t, opening.len() + k);
    let j = choose|j: int| stands_at(t, piece, j);
    lemma_stands_within(d, t, opening.len() + k, piece, j);
}

/// The lifecycle document holds, for every rule that was written, its id
/// in an `<ID>` element, its prefix in a `<Prefix>` element and its status
/// in a `<Status>` element.
pub proof fn law_lifecycle_document_states_what_was_written(rules: Seq<RuleView>)
    ensures
        ({
            let d = lifecycle_doc(rules);
            forall|i: int| 0 <= i < rules.len() ==> {
                let r = #[trigger] rules[i];
                &&& shows_element(d, "<ID>"@, r.0, "</ID>"@)
                &&& shows_element(d, "<Prefix>"@, r.1, "</Prefix>"@)
                &&& shows_element(d, "<Status>"@, r.2, "</Status>"@)
            }
        }),
{
    let d = lifecycle_doc(rules);
    assert forall|i: int| 0 <= i < rules.len() implies {
        let r = #[trigger] rules[i];
        &&& shows_element(d, "<ID>"@, r.0, "</ID>"@)
        &&& shows_element(d, "<Prefix>"@, r.1, "</Prefix>"@)
        &&& shows_element(d, "<Status>"@, r.2, "</Status>"@)
    } by {
        let r = rules[i];
        lemma_rule_elements(r);
        lemma_rule_piece_in_document(rules, i, "<ID>"@ + r.0 + "</ID>"@);
        lemma_rule_piece_in_document(rules, i, "<Prefix>"@ + r.1 + "</Prefix>"@);
        lemma_rule_piece_in_document(rules, i, "<Status>"@ + r.2 + "</Status>"@);
    }
}

} // verus!
