//! The blog of Isabel: one layer leads to each field, and dates are written
//! in words.

use crate::date::{normalize_date, normalized, stamp_view, DateParseError, Dialect};
use crate::feed::Envelope;
use crate::pipeline::{
    attempt, conclude, fetched_view, outcome_of, ran_view, request_outcome, Outcome, PipelineError,
    Source,
};
use crate::rss_utils::Response;
use crate::rules::{
    attribute_rule, first_of, rules_fault, rules_made, text_rule, FieldRule, RuleError, RuleSet,
    RuleSetView, Step,
};
use vstd::prelude::*;
use vstd::string::StringExecFns;

verus! {

/// The page that lists the entries.
pub const BLOG_URL_ARCHIVE: &'static str = "https://marmenormarmayor.es/El-blog-de-Isabel/archive.html";

/// The address of the blog; the links of the page are relative to it.
pub const BLOG_URL_BLOG: &'static str = "https://marmenormarmayor.es/El-blog-de-Isabel/";

pub const BLOG_URL_PARSER_SECTION: &'static str = ".blogsection";

pub const BLOG_URL_PARSER_TITLE: &'static str = "h3.blogtitle a";

pub const BLOG_URL_PARSER_DATE: &'static str = ".blogdate";

pub const BLOG_URL_PARSER_CONTENT: &'static str = ".blogcontent";

/// The attribute that holds the address of an entry.
pub const LINK_ATTRIBUTE: &'static str = "href";

pub const FEED_TITLE: &'static str = "El blog de Isabel";

pub const FEED_DESCRIPTION: &'static str = "Últimas entradas del blog de Isabel";

/// The rules of the blog.
pub open spec fn declared() -> RuleSetView {
    RuleSetView {
        entry: BLOG_URL_PARSER_SECTION@,
        title: text_rule(seq![first_of(BLOG_URL_PARSER_TITLE@)]),
        link: attribute_rule(seq![first_of(BLOG_URL_PARSER_TITLE@)], LINK_ATTRIBUTE@),
        description: text_rule(seq![first_of(BLOG_URL_PARSER_CONTENT@)]),
        date: text_rule(seq![first_of(BLOG_URL_PARSER_DATE@)]),
        link_base: BLOG_URL_BLOG@,
    }
}

/// Whether `source` is the blog: its rules are the declared ones with their
/// selectors made, its dialect writes dates in words, and its envelope is the
/// blog's.
pub open spec fn is_blog(source: Source) -> bool {
    &&& rules_made(declared(), source.rules)
    &&& source.dialect == Dialect::Worded
    &&& source.envelope.title@ == FEED_TITLE@
    &&& source.envelope.link@ == BLOG_URL_BLOG@
    &&& source.envelope.description@ == FEED_DESCRIPTION@
}

/// The rules of the blog, as text.
pub fn rules() -> (rules: RuleSet)
    ensures
        rules@ == declared(),
{
    let rules = RuleSet {
        entry: String::from_str(BLOG_URL_PARSER_SECTION),
        title: FieldRule::text(vec![Step::first(BLOG_URL_PARSER_TITLE)]),
        link: FieldRule::attribute(vec![Step::first(BLOG_URL_PARSER_TITLE)], LINK_ATTRIBUTE),
        description: FieldRule::text(vec![Step::first(BLOG_URL_PARSER_CONTENT)]),
        date: FieldRule::text(vec![Step::first(BLOG_URL_PARSER_DATE)]),
        link_base: String::from_str(BLOG_URL_BLOG),
    };
    assert(rules.title@.steps =~= declared().title.steps);
    assert(rules.link@.steps =~= declared().link.steps);
    assert(rules.description@.steps =~= declared().description.steps);
    assert(rules.date@.steps =~= declared().date.steps);
    rules
}

/// The blog as a source, with its selectors made; the error of the first
/// pattern that is no selector, where there is one.
pub fn source() -> (made: Result<Source, RuleError>)
    ensures
        match made {
            Ok(source) => rules_fault(declared()) is None && is_blog(source),
            Err(error) => rules_fault(declared()) == Some(error@),
        },
{
    match rules().compile() {
        Ok(rules) => Ok(
            Source {
                envelope: Envelope {
                    title: String::from_str(FEED_TITLE),
                    link: String::from_str(BLOG_URL_BLOG),
                    description: String::from_str(FEED_DESCRIPTION),
                },
                dialect: Dialect::Worded,
                rules,
            },
        ),
        Err(error) => Err(error),
    }
}

/// Brings a date of the blog, such as `jueves, 3 de enero de 2024`, to the
/// timestamp that the feed carries.
pub fn parse_date(date: &str) -> (stamp: Result<String, DateParseError>)
    ensures
        stamp_view(stamp) == normalized(date@, Dialect::Worded),
{
    normalize_date(date, Dialect::Worded)
}

/// Makes the answer that holds the feed of the blog from what came back
/// when its page was fetched.
pub fn parse_content(
    source: &Source,
    fetched: Result<String, String>,
) -> (ran: Result<Response, PipelineError>)
    ensures
        ran_view(ran) == request_outcome(*source, fetched_view(fetched)),
{
    attempt(source, fetched)
}

/// Answers a request for the feed of the blog: the feed, or, whatever went
/// wrong, the answer that holds nothing.
pub fn rss(source: &Source, fetched: Result<String, String>) -> (outcome: Outcome)
    ensures
        outcome@ == outcome_of(request_outcome(*source, fetched_view(fetched))),
{
    conclude(parse_content(source, fetched))
}

} // verus!
