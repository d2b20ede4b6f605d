//! El click verde, blog and reports: two layers lead to most fields, the
//! description of a report is the second paragraph of its body, and each of
//! the two pages has its own way of writing dates.

use crate::date::{normalize_date, normalized, stamp_view, DateParseError, Dialect};
use crate::feed::Envelope;
use crate::pipeline::{
    attempt, conclude, fetched_view, outcome_of, ran_view, request_outcome, Outcome, PipelineError,
    Source,
};
use crate::rss_utils::Response;
use crate::rules::{
    attribute_rule, first_of, nth_of, rules_fault, rules_made, text_rule, FieldRule, RuleError,
    RuleSet, RuleSetView, Step,
};
use vstd::prelude::*;
use vstd::string::StringExecFns;

verus! {

/// The address of the site; the links of its pages are relative to it.
pub const MAIN_URL: &'static str = "https://elclickverde.com";

/// The attribute that holds the address of an entry.
pub const LINK_ATTRIBUTE: &'static str = "href";

/// The page of the blog.
pub const BLOG_URL: &'static str = "https://elclickverde.com/blog";

pub const BLOG_URL_PARSER_ENTRY: &'static str = ".views-row";

pub const BLOG_URL_PARSER_HEADER: &'static str = ".group-header";

pub const BLOG_URL_PARSER_EVEN_HEADER: &'static str = ".field__item.even h2 a";

pub const BLOG_URL_PARSER_RIGHT: &'static str = ".group-right";

pub const BLOG_URL_PARSER_EVEN_DESCRIPTION: &'static str = "p:not(.rteright)";

pub const BLOG_URL_PARSER_EVEN_DATE: &'static str = "p.rteright span";

pub const BLOG_FEED_TITLE: &'static str = "Blog | elclickverde";

pub const BLOG_FEED_DESCRIPTION: &'static str = "Últimas entradas del blog de elclickverde";

/// The page of the reports.
pub const REPORTAJES_URL: &'static str = "https://elclickverde.com/reportajes";

pub const REPORTAJES_URL_PARSER_ENTRY: &'static str = ".views-row";

pub const REPORTAJES_URL_PARSER_HEADER: &'static str = "div.field__item.even[property=\"dc:title\"] h2 a";

pub const REPORTAJES_URL_PARSER_DESCRIPTION: &'static str =
    "div.field__item.even[property=\"content:encoded\"]";

/// The paragraphs of the body of a report. The first holds the caption of
/// its picture; the description is the one behind it.
pub const REPORTAJES_URL_PARSER_PARAGRAPH: &'static str = "p";

pub const REPORTAJES_URL_PARSER_DATE: &'static str = "div.field.field--name-post-date";

pub const REPORTAJES_URL_PARSER_INNER_DATE: &'static str = "div.field__item.even";

pub const REPORTAJES_FEED_TITLE: &'static str = "Reportajes | elclickverde";

pub const REPORTAJES_FEED_DESCRIPTION: &'static str = "Últimos reportajes de elclickverde";

/// The rules of the blog.
pub open spec fn declared_blog() -> RuleSetView {
    RuleSetView {
        entry: BLOG_URL_PARSER_ENTRY@,
        title: text_rule(seq![first_of(BLOG_URL_PARSER_HEADER@), first_of(BLOG_URL_PARSER_EVEN_HEADER@)]),
        link: attribute_rule(
            seq![first_of(BLOG_URL_PARSER_HEADER@), first_of(BLOG_URL_PARSER_EVEN_HEADER@)],
            LINK_ATTRIBUTE@,
        ),
        description: text_rule(
            seq![first_of(BLOG_URL_PARSER_RIGHT@), first_of(BLOG_URL_PARSER_EVEN_DESCRIPTION@)],
        ),
        date: text_rule(seq![first_of(BLOG_URL_PARSER_RIGHT@), first_of(BLOG_URL_PARSER_EVEN_DATE@)]),
        link_base: MAIN_URL@,
    }
}

/// The rules of the reports.
pub open spec fn declared_reportajes() -> RuleSetView {
    RuleSetView {
        entry: REPORTAJES_URL_PARSER_ENTRY@,
        title: text_rule(seq![first_of(REPORTAJES_URL_PARSER_HEADER@)]),
        link: attribute_rule(seq![first_of(REPORTAJES_URL_PARSER_HEADER@)], LINK_ATTRIBUTE@),
        description: text_rule(
            seq![
                first_of(REPORTAJES_URL_PARSER_DESCRIPTION@),
                nth_of(REPORTAJES_URL_PARSER_PARAGRAPH@, 1),
            ],
        ),
        date: text_rule(
            seq![first_of(REPORTAJES_URL_PARSER_DATE@), first_of(REPORTAJES_URL_PARSER_INNER_DATE@)],
        ),
        link_base: MAIN_URL@,
    }
}

/// Whether `source` is the blog: its rules are the declared ones with their
/// selectors made, its dates are in figures, and its envelope is the blog's.
pub open spec fn is_blog(source: Source) -> bool {
    &&& rules_made(declared_blog(), source.rules)
    &&& source.dialect == Dialect::Iso
    &&& source.envelope.title@ == BLOG_FEED_TITLE@
    &&& source.envelope.link@ == BLOG_URL@
    &&& source.envelope.description@ == BLOG_FEED_DESCRIPTION@
}

/// Whether `source` is the reports: its rules are the declared ones with
/// their selectors made, its dates are short ones, and its envelope is the
/// reports'.
pub open spec fn is_reportajes(source: Source) -> bool {
    &&& rules_made(declared_reportajes(), source.rules)
    &&& source.dialect == Dialect::Abbreviated
    &&& source.envelope.title@ == REPORTAJES_FEED_TITLE@
    &&& source.envelope.link@ == REPORTAJES_URL@
    &&& source.envelope.description@ == REPORTAJES_FEED_DESCRIPTION@
}

/// The rules of the blog, as text.
pub fn blog_rules() -> (rules: RuleSet)
    ensures
        rules@ == declared_blog(),
{
    let rules = RuleSet {
        entry: String::from_str(BLOG_URL_PARSER_ENTRY),
        title: FieldRule::text(
            vec![Step::first(BLOG_URL_PARSER_HEADER), Step::first(BLOG_URL_PARSER_EVEN_HEADER)],
        ),
        link: FieldRule::attribute(
            vec![Step::first(BLOG_URL_PARSER_HEADER), Step::first(BLOG_URL_PARSER_EVEN_HEADER)],
            LINK_ATTRIBUTE,
        ),
        description: FieldRule::text(
            vec![Step::first(BLOG_URL_PARSER_RIGHT), Step::first(BLOG_URL_PARSER_EVEN_DESCRIPTION)],
        ),
        date: FieldRule::text(
            vec![Step::first(BLOG_URL_PARSER_RIGHT), Step::first(BLOG_URL_PARSER_EVEN_DATE)],
        ),
        link_base: String::from_str(MAIN_URL),
    };
    assert(rules.title@.steps =~= declared_blog().title.steps);
    assert(rules.link@.steps =~= declared_blog().link.steps);
    assert(rules.description@.steps =~= declared_blog().description.steps);
    assert(rules.date@.steps =~= declared_blog().date.steps);
    rules
}

/// The rules of the reports, as text.
pub fn reportajes_rules() -> (rules: RuleSet)
    ensures
        rules@ == declared_reportajes(),
{
    let rules = RuleSet {
        entry: String::from_str(REPORTAJES_URL_PARSER_ENTRY),
        title: FieldRule::text(vec![Step::first(REPORTAJES_URL_PARSER_HEADER)]),
        link: FieldRule::attribute(vec![Step::first(REPORTAJES_URL_PARSER_HEADER)], LINK_ATTRIBUTE),
        description: FieldRule::text(
            vec![
                Step::first(REPORTAJES_URL_PARSER_DESCRIPTION),
                Step::nth(REPORTAJES_URL_PARSER_PARAGRAPH, 1),
            ],
        ),
        date: FieldRule::text(
            vec![
                Step::first(REPORTAJES_URL_PARSER_DATE),
                Step::first(REPORTAJES_URL_PARSER_INNER_DATE),
            ],
        ),
        link_base: String::from_str(MAIN_URL),
    };
    assert(rules.title@.steps =~= declared_reportajes().title.steps);
    assert(rules.link@.steps =~= declared_reportajes().link.steps);
    assert(rules.description@.steps =~= declared_reportajes().description.steps);
    assert(rules.date@.steps =~= declared_reportajes().date.steps);
    rules
}

/// The blog as a source, with its selectors made; the error of the first
/// pattern that is no selector, where there is one.
pub fn blog_source() -> (made: Result<Source, RuleError>)
    ensures
        match made {
            Ok(source) => rules_fault(declared_blog()) is None && is_blog(source),
            Err(error) => rules_fault(declared_blog()) == Some(error@),
        },
{
    match blog_rules().compile() {
        Ok(rules) => Ok(
            Source {
                envelope: Envelope {
                    title: String::from_str(BLOG_FEED_TITLE),
                    link: String::from_str(BLOG_URL),
                    description: String::from_str(BLOG_FEED_DESCRIPTION),
                },
                dialect: Dialect::Iso,
                rules,
            },
        ),
        Err(error) => Err(error),
    }
}

/// The reports as a source, with their selectors made; the error of the
/// first pattern that is no selector, where there is one.
pub fn reportajes_source() -> (made: Result<Source, RuleError>)
    ensures
        match made {
            Ok(source) => rules_fault(declared_reportajes()) is None && is_reportajes(source),
            Err(error) => rules_fault(declared_reportajes()) == Some(error@),
        },
{
    match reportajes_rules().compile() {
        Ok(rules) => Ok(
            Source {
                envelope: Envelope {
                    title: String::from_str(REPORTAJES_FEED_TITLE),
                    link: String::from_str(REPORTAJES_URL),
                    description: String::from_str(REPORTAJES_FEED_DESCRIPTION),
                },
                dialect: Dialect::Abbreviated,
                rules,
            },
        ),
        Err(error) => Err(error),
    }
}

/// Makes the answer that holds the feed of the blog from what came back
/// when its page was fetched.
pub fn parse_blog(
    source: &Source,
    fetched: Result<String, String>,
) -> (ran: Result<Response, PipelineError>)
    ensures
        ran_view(ran) == request_outcome(*source, fetched_view(fetched)),
{
    attempt(source, fetched)
}

/// Brings a date of the reports, such as `15 Ago. 2023`, to the timestamp
/// that the feed carries.
pub fn reportajes_date(input: &str) -> (stamp: Result<String, DateParseError>)
    ensures
        stamp_view(stamp) == normalized(input@, Dialect::Abbreviated),
{
    normalize_date(input, Dialect::Abbreviated)
}

/// Makes the answer that holds the feed of the reports from what came back
/// when their page was fetched.
pub fn parse_reportajes(
    source: &Source,
    fetched: Result<String, String>,
) -> (ran: Result<Response, PipelineError>)
    ensures
        ran_view(ran) == request_outcome(*source, fetched_view(fetched)),
{
    attempt(source, fetched)
}

/// Answers a request for the feed of the blog: the feed, or, whatever went
/// wrong, the answer that holds nothing.
pub fn blog_rss(source: &Source, fetched: Result<String, String>) -> (outcome: Outcome)
    ensures
        outcome@ == outcome_of(request_outcome(*source, fetched_view(fetched))),
{
    conclude(parse_blog(source, fetched))
}

/// Answers a request for the feed of the reports: the feed, or, whatever
/// went wrong, the answer that holds nothing.
pub fn reportajes_rss(source: &Source, fetched: Result<String, String>) -> (outcome: Outcome)
    ensures
        outcome@ == outcome_of(request_outcome(*source, fetched_view(fetched))),
{
    conclude(parse_reportajes(source, fetched))
}

} // verus!
