//! A request from the fetched page to the answer: the page is parsed, its
//! entries are read, their dates are brought to the feed's form, the feed is
//! built and written. A failure at any step ends the request with the one
//! answer that says nothing; no feed is made of the entries that went well.

use crate::date::{normalize_date, normalized, DateFault, DateParseError, Dialect};
use crate::dom::{
    byte_length, document_matches, fits, parse_document, parsed_document, text_fits,
};
use crate::extract::{
    entry_results, extract_entries, extracted, field_value, raw_entry, raw_views, RawEntry, RawEntryView,
};
use crate::feed::{
    entry_views, feed_of, is_permalinked, item_of, rendered_feed, synthesize, Entry, EntryView, Envelope,
    Feed, FeedView,
};
use crate::gather::{
    gathered, gathered_all, gathered_fails_with_any, gathered_first_error, gathered_ok_means_all,
};
use crate::rss_utils::{feed_response, make_no_content, make_rss, no_content, Response, ResponseView};
use crate::rules::{CompiledRuleSet, Field};
use scraper::{ElementRef, Html};
use vstd::prelude::*;
use vstd::utf8::encode_utf8;

verus! {

/// The steps of a request, in the order in which it takes them.
#[derive(Clone, Copy, Debug, PartialEq, Eq)]
pub enum Stage {
    Fetching,
    Parsing,
    Extracting,
    Normalizing,
    Synthesizing,
    Rendering,
}

/// Why a request failed.
#[derive(Debug, PartialEq, Eq)]
pub enum PipelineError {
    /// The page could not be fetched; `reason` is the transport's word.
    Fetch { reason: String },
    /// A page of this many bytes is longer than the parser takes.
    Parse { bytes: usize },
    /// An entry of the page lacks a field.
    Extraction { entry: usize, field: Field },
    /// The date of an entry is none.
    Date { entry: usize, error: DateParseError },
    /// The answer could not be put together.
    Render,
}

/// What a [`PipelineError`] says, over sequences of characters.
pub enum PipelineFault {
    Fetch { reason: Seq<char> },
    Parse { bytes: int },
    Extraction { entry: int, field: Field },
    Date { entry: int, fault: DateFault },
    Render,
}

impl View for PipelineError {
    type V = PipelineFault;

    open spec fn view(&self) -> PipelineFault {
        match *self {
            PipelineError::Fetch { reason } => PipelineFault::Fetch { reason: reason@ },
            PipelineError::Parse { bytes } => PipelineFault::Parse { bytes: bytes as int },
            PipelineError::Extraction { entry, field } => PipelineFault::Extraction {
                entry: entry as int,
                field,
            },
            PipelineError::Date { entry, error } => PipelineFault::Date {
                entry: entry as int,
                fault: error@,
            },
            PipelineError::Render => PipelineFault::Render,
        }
    }
}

/// The step at which a failure ends a request.
pub open spec fn stage_of(fault: PipelineFault) -> Stage {
    match fault {
        PipelineFault::Fetch { .. } => Stage::Fetching,
        PipelineFault::Parse { .. } => Stage::Parsing,
        PipelineFault::Extraction { .. } => Stage::Extracting,
        PipelineFault::Date { .. } => Stage::Normalizing,
        PipelineFault::Render => Stage::Rendering,
    }
}

/// A source: the envelope of its feed, the dialect of its dates, and its
/// rules.
pub struct Source {
    pub envelope: Envelope,
    pub dialect: Dialect,
    pub rules: CompiledRuleSet,
}

/// How a request ended: the answer, and the cause where it failed. The cause
/// is for the log; the answer holds no trace of it.
#[derive(Debug, PartialEq, Eq)]
pub struct Outcome {
    pub response: Response,
    pub cause: Option<PipelineError>,
}

/// An [`Outcome`] over sequences of characters.
pub struct OutcomeView {
    pub response: ResponseView,
    pub cause: Option<PipelineFault>,
}

impl View for Outcome {
    type V = OutcomeView;

    open spec fn view(&self) -> OutcomeView {
        OutcomeView {
            response: self.response@,
            cause: match self.cause {
                Some(error) => Some(error@),
                None => None,
            },
        }
    }
}

/// The entry that a raw entry becomes when its date is read in `dialect`.
pub open spec fn dated(raw: RawEntryView, dialect: Dialect) -> Result<EntryView, DateFault> {
    match normalized(raw.raw_date, dialect) {
        Ok(stamp) => Ok(
            EntryView {
                title: raw.title,
                link: raw.link,
                description: raw.raw_description,
                pub_date: stamp,
            },
        ),
        Err(fault) => Err(fault),
    }
}

/// What each of the raw entries becomes, in their order.
pub open spec fn date_results(
    raw: Seq<RawEntryView>,
    dialect: Dialect,
) -> Seq<Result<EntryView, DateFault>> {
    Seq::new(raw.len(), |i: int| dated(raw[i], dialect))
}

/// The entries that the raw entries become, one for each and in their order;
/// or, where a date is none, the first such entry and what is wrong with its
/// date.
pub open spec fn dated_all(
    raw: Seq<RawEntryView>,
    dialect: Dialect,
) -> Result<Seq<EntryView>, PipelineFault> {
    match gathered(date_results(raw, dialect)) {
        Ok(entries) => Ok(entries),
        Err((at, fault)) => Err(PipelineFault::Date { entry: at, fault }),
    }
}

/// The feed of a page whose entries are the elements `found`, or why there is
/// none. Reading comes first: an entry that lacks a field fails the page
/// before any date is looked at.
pub open spec fn page_outcome(found: Seq<ElementRef>, source: Source) -> Result<FeedView, PipelineFault> {
    match extracted(found, source.rules) {
        Err(missing) => Err(PipelineFault::Extraction { entry: missing.entry, field: missing.field }),
        Ok(raw) => match dated_all(raw, source.dialect) {
            Err(fault) => Err(fault),
            Ok(entries) => Ok(feed_of(source.envelope, entries)),
        },
    }
}

/// Whether every entry of the page can be read and has a date that is one.
pub open spec fn is_well_formed(found: Seq<ElementRef>, source: Source) -> bool {
    forall|i: int|
        #![trigger found[i]]
        0 <= i < found.len() ==> {
            &&& raw_entry(found[i], source.rules) is Ok
            &&& dated(raw_entry(found[i], source.rules)->Ok_0, source.dialect) is Ok
        }
}

/// The answer that a feed, or the lack of one, becomes.
pub open spec fn answer_of(built: Result<FeedView, PipelineFault>) -> Result<ResponseView, PipelineFault> {
    match built {
        Ok(feed) => Ok(feed_response(rendered_feed(feed))),
        Err(fault) => Err(fault),
    }
}

/// The answer to a request for which `fetched` came back: the body of the
/// page, or the transport's word on why there is none. A page that is too
/// long to be parsed fails the request like a page that was not fetched.
pub open spec fn request_outcome(
    source: Source,
    fetched: Result<Seq<char>, Seq<char>>,
) -> Result<ResponseView, PipelineFault> {
    match fetched {
        Err(reason) => Err(PipelineFault::Fetch { reason }),
        Ok(page) => if fits(page) {
            answer_of(
                page_outcome(document_matches(&parsed_document(page), source.rules.entry), source),
            )
        } else {
            Err(PipelineFault::Parse { bytes: encode_utf8(page).len() as int })
        },
    }
}

/// How a request ends: with the answer that was made, or, whatever went
/// wrong, with the one answer that holds nothing and the cause beside it.
pub open spec fn outcome_of(ran: Result<ResponseView, PipelineFault>) -> OutcomeView {
    match ran {
        Ok(response) => OutcomeView { response, cause: None },
        Err(fault) => OutcomeView { response: no_content(), cause: Some(fault) },
    }
}

/// A feed, or the error in its place, over sequences of characters.
pub open spec fn built_view(built: Result<Feed, PipelineError>) -> Result<FeedView, PipelineFault> {
    match built {
        Ok(feed) => Ok(feed@),
        Err(error) => Err(error@),
    }
}

/// An answer, or the error in its place, over sequences of characters.
pub open spec fn ran_view(ran: Result<Response, PipelineError>) -> Result<ResponseView, PipelineFault> {
    match ran {
        Ok(response) => Ok(response@),
        Err(error) => Err(error@),
    }
}

/// What came back from the transport, over sequences of characters.
pub open spec fn fetched_view(fetched: Result<String, String>) -> Result<Seq<char>, Seq<char>> {
    match fetched {
        Ok(page) => Ok(page@),
        Err(reason) => Err(reason@),
    }
}

impl PipelineError {
    /// The step at which this failure ended the request.
    pub fn stage(&self) -> (stage: Stage)
        ensures
            stage == stage_of(self@),
    {
        match self {
            PipelineError::Fetch { .. } => Stage::Fetching,
            PipelineError::Parse { .. } => Stage::Parsing,
            PipelineError::Extraction { .. } => Stage::Extracting,
            PipelineError::Date { .. } => Stage::Normalizing,
            PipelineError::Render => Stage::Rendering,
        }
    }
}

/// Brings the date of an entry to the feed's form; the rest of the entry is
/// kept as it is.
pub fn normalize_entry(raw: &RawEntry, dialect: Dialect) -> (entry: Result<Entry, DateParseError>)
    ensures
        match entry {
            Ok(made) => dated(raw@, dialect) == Ok::<EntryView, DateFault>(made@),
            Err(error) => dated(raw@, dialect) == Err::<EntryView, DateFault>(error@),
        },
{
    match normalize_date(raw.raw_date.as_str(), dialect) {
        Ok(stamp) => Ok(
            Entry {
                title: raw.title.clone(),
                link: raw.link.clone(),
                description: raw.raw_description.clone(),
                pub_date: stamp,
            },
        ),
        Err(error) => Err(error),
    }
}

/// Brings the dates of the entries to the feed's form, from the first entry
/// on, and stops at the first date that is none.
pub fn normalize_entries(
    raw: &Vec<RawEntry>,
    dialect: Dialect,
) -> (entries: Result<Vec<Entry>, PipelineError>)
    ensures
        match entries {
            Ok(made) => dated_all(raw_views(raw@), dialect) == Ok::<Seq<EntryView>, PipelineFault>(
                entry_views(made@),
            ),
            Err(error) => dated_all(raw_views(raw@), dialect) == Err::<Seq<EntryView>, PipelineFault>(
                error@,
            ),
        },
{
    let ghost results = date_results(raw_views(raw@), dialect);
    let mut entries: Vec<Entry> = Vec::new();
    let mut at: usize = 0;
    while at < raw.len()
        invariant
            at <= raw.len(),
            entries.len() == at,
            results == date_results(raw_views(raw@), dialect),
            forall|i: int|
                0 <= i < at ==> (#[trigger] results[i]) == Ok::<EntryView, DateFault>(entries[i]@),
        decreases raw.len() - at,
    {
        match normalize_entry(&raw[at], dialect) {
            Ok(entry) => {
                entries.push(entry);
            },
            Err(error) => {
                proof {
                    gathered_first_error(results, at as int, error@);
                }
                return Err(PipelineError::Date { entry: at, error });
            },
        }
        at += 1;
    }
    proof {
        gathered_all(results);
        assert(gathered(results)->Ok_0 =~= entry_views(entries@));
    }
    Ok(entries)
}

/// Builds the feed of a parsed page: reads the entries, brings their dates to
/// the feed's form, and puts one item for each entry under the source's
/// envelope, in the order of the page. A page without entries gives a feed
/// without items. One entry that lacks a field, or whose date is none, and
/// there is no feed.
pub fn build_feed(source: &Source, document: &Html) -> (built: Result<Feed, PipelineError>)
    ensures
        built_view(built) == page_outcome(document_matches(document, source.rules.entry), *source),
        built matches Ok(feed) ==> {
            &&& feed@.items.len() == document_matches(document, source.rules.entry).len()
            &&& forall|i: int| 0 <= i < feed@.items.len() ==> is_permalinked(#[trigger] feed@.items[i])
        },
{
    let raw = match extract_entries(document, &source.rules) {
        Ok(raw) => raw,
        Err(error) => {
            return Err(PipelineError::Extraction { entry: error.entry, field: error.field });
        },
    };
    let entries = match normalize_entries(&raw, source.dialect) {
        Ok(entries) => entries,
        Err(error) => {
            return Err(error);
        },
    };
    let feed = synthesize(&source.envelope, &entries);
    proof {
        let found = document_matches(document, source.rules.entry);
        gathered_ok_means_all(entry_results(found, source.rules));
        gathered_ok_means_all(date_results(raw_views(raw@), source.dialect));
    }
    Ok(feed)
}

/// Takes a request from the text of the page to the answer. A page that is
/// too long for the parser fails the request before anything is parsed.
pub fn run(source: &Source, page: &str) -> (ran: Result<Response, PipelineError>)
    ensures
        ran_view(ran) == request_outcome(*source, Ok(page@)),
{
    if !text_fits(page) {
        return Err(PipelineError::Parse { bytes: byte_length(page) });
    }
    let document = parse_document(page);
    match build_feed(source, &document) {
        Ok(feed) => Ok(make_rss(&feed)),
        Err(error) => Err(error),
    }
}

/// Takes a request from what came back from the transport to the answer: a
/// page that could not be fetched is a failure like any other.
pub fn attempt(
    source: &Source,
    fetched: Result<String, String>,
) -> (ran: Result<Response, PipelineError>)
    ensures
        ran_view(ran) == request_outcome(*source, fetched_view(fetched)),
{
    match fetched {
        Ok(page) => run(source, page.as_str()),
        Err(reason) => Err(PipelineError::Fetch { reason }),
    }
}

/// Ends a request: the answer that was made, or, whatever went wrong, the
/// one answer that holds nothing, with the cause beside it.
pub fn conclude(ran: Result<Response, PipelineError>) -> (outcome: Outcome)
    ensures
        outcome@ == outcome_of(ran_view(ran)),
{
    match ran {
        Ok(response) => Outcome { response, cause: None },
        Err(error) => Outcome { response: make_no_content(), cause: Some(error) },
    }
}

/// A page gives a feed where it is well formed, and only there.
pub proof fn feed_of_well_formed_pages_only(found: Seq<ElementRef>, source: Source)
    ensures
        page_outcome(found, source) is Ok <==> is_well_formed(found, source),
{
    let results = entry_results(found, source.rules);
    if is_well_formed(found, source) {
        assert forall|i: int| 0 <= i < results.len() implies (#[trigger] results[i]) is Ok by {
            assert(raw_entry(found[i], source.rules) is Ok);
        }
        gathered_all(results);
        let raw = gathered(results)->Ok_0;
        let dates = date_results(raw, source.dialect);
        assert forall|i: int| 0 <= i < dates.len() implies (#[trigger] dates[i]) is Ok by {
            assert(results[i] == Ok::<RawEntryView, Field>(raw[i]));
            assert(dated(raw_entry(found[i], source.rules)->Ok_0, source.dialect) is Ok);
        }
        gathered_all(dates);
    }
    if page_outcome(found, source) is Ok {
        one_item_for_each_entry(found, source);
    }
}

/// A feed has one item for each entry of the page, in the order of the
/// page: the item at a position is made of the entry that the element at that
/// position gives, with its date brought to the feed's form.
pub proof fn one_item_for_each_entry(found: Seq<ElementRef>, source: Source)
    requires
        page_outcome(found, source) is Ok,
    ensures
        page_outcome(found, source)->Ok_0.items.len() == found.len(),
        forall|i: int|
            #![trigger found[i]]
            0 <= i < found.len() ==> {
                &&& raw_entry(found[i], source.rules) is Ok
                &&& dated(raw_entry(found[i], source.rules)->Ok_0, source.dialect) is Ok
                &&& page_outcome(found, source)->Ok_0.items[i] == item_of(
                    dated(raw_entry(found[i], source.rules)->Ok_0, source.dialect)->Ok_0,
                )
            },
{
    let results = entry_results(found, source.rules);
    gathered_ok_means_all(results);
    let raw = gathered(results)->Ok_0;
    let dates = date_results(raw, source.dialect);
    gathered_ok_means_all(dates);
    assert forall|i: int| #![trigger found[i]] 0 <= i < found.len() implies {
        &&& raw_entry(found[i], source.rules) is Ok
        &&& dated(raw_entry(found[i], source.rules)->Ok_0, source.dialect) is Ok
        &&& page_outcome(found, source)->Ok_0.items[i] == item_of(
            dated(raw_entry(found[i], source.rules)->Ok_0, source.dialect)->Ok_0,
        )
    } by {
        assert(results[i] == Ok::<RawEntryView, Field>(raw[i]));
        assert(dates[i] == Ok::<EntryView, DateFault>(gathered(dates)->Ok_0[i]));
    }
}

/// In every feed, the identifier of every item is the item's link, marked as
/// a permanent link.
pub proof fn every_item_is_permalinked(found: Seq<ElementRef>, source: Source)
    requires
        page_outcome(found, source) is Ok,
    ensures
        forall|i: int|
            0 <= i < page_outcome(found, source)->Ok_0.items.len() ==> is_permalinked(
                #[trigger] page_outcome(found, source)->Ok_0.items[i],
            ),
{
}

/// A page without entries is no failure: its feed has no items, and the
/// answer is the feed.
pub proof fn page_without_entries_gives_empty_feed(found: Seq<ElementRef>, source: Source)
    requires
        found.len() == 0,
    ensures
        page_outcome(found, source) is Ok,
        page_outcome(found, source)->Ok_0.items.len() == 0,
        answer_of(page_outcome(found, source)) == Ok::<ResponseView, PipelineFault>(
            feed_response(rendered_feed(feed_of(source.envelope, Seq::empty()))),
        ),
        outcome_of(answer_of(page_outcome(found, source))).cause is None,
{
    assert(entry_results(found, source.rules) =~= Seq::empty());
    assert(date_results(Seq::<RawEntryView>::empty(), source.dialect) =~= Seq::empty());
    assert(page_outcome(found, source)->Ok_0.items =~= Seq::empty());
    assert(feed_of(source.envelope, Seq::empty()).items =~= Seq::empty());
}

/// One entry that lacks a field fails the whole page: there is no feed, not
/// even of the entries that lack nothing, and the answer holds nothing.
pub proof fn entry_without_field_fails_page(found: Seq<ElementRef>, source: Source, at: int)
    requires
        0 <= at < found.len(),
        raw_entry(found[at], source.rules) is Err,
    ensures
        page_outcome(found, source) is Err,
        stage_of(page_outcome(found, source)->Err_0) == Stage::Extracting,
        outcome_of(answer_of(page_outcome(found, source))).response == no_content(),
{
    gathered_fails_with_any(entry_results(found, source.rules), at);
}

/// One entry without a date fails the whole page.
pub proof fn entry_without_date_fails_page(found: Seq<ElementRef>, source: Source, at: int)
    requires
        0 <= at < found.len(),
        field_value(found[at], source.rules.date) is None,
    ensures
        page_outcome(found, source) is Err,
        outcome_of(answer_of(page_outcome(found, source))).response == no_content(),
{
    entry_without_field_fails_page(found, source, at);
}

/// One entry whose date is none fails the whole page, where every entry has
/// its fields.
pub proof fn entry_with_bad_date_fails_page(found: Seq<ElementRef>, source: Source, at: int)
    requires
        0 <= at < found.len(),
        extracted(found, source.rules) is Ok,
        dated(raw_entry(found[at], source.rules)->Ok_0, source.dialect) is Err,
    ensures
        page_outcome(found, source) is Err,
        stage_of(page_outcome(found, source)->Err_0) == Stage::Normalizing,
        outcome_of(answer_of(page_outcome(found, source))).response == no_content(),
{
    let results = entry_results(found, source.rules);
    gathered_ok_means_all(results);
    let raw = gathered(results)->Ok_0;
    assert(results[at] == Ok::<RawEntryView, Field>(raw[at]));
    gathered_fails_with_any(date_results(raw, source.dialect), at);
}

/// Whatever went wrong, the answer is the same: it holds nothing, and
/// nothing in it tells one failure from another.
pub proof fn failures_look_alike(first: PipelineFault, second: PipelineFault)
    ensures
        outcome_of(Err(first)).response == outcome_of(Err(second)).response,
        outcome_of(Err(first)).response == no_content(),
{
}

} // verus!
