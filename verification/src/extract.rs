//! Reading the entries off a page: every element that matches the entry's
//! selector gives one entry, in the order of the page, and an entry that lacks
//! a field ends the reading of the whole page.

use crate::dom::{
    attr_of, document_matches, element_attr, element_matches, element_text, select_in_document,
    select_in_element, text_of,
};
use crate::gather::{gathered, gathered_all, gathered_first_error};
use crate::rules::{Capture, CompiledRule, CompiledRuleSet, CompiledStep, Field};
use crate::text::{text_view, trim, trimmed};
use scraper::{ElementRef, Html};
use vstd::prelude::*;
use vstd::string::StringExecFns;

verus! {

/// An entry as the page has it: the date is still the source's own text.
#[derive(Debug, PartialEq, Eq)]
pub struct RawEntry {
    pub title: String,
    /// The absolute address of the entry.
    pub link: String,
    pub raw_description: String,
    pub raw_date: String,
}

/// A [`RawEntry`] over sequences of characters.
pub struct RawEntryView {
    pub title: Seq<char>,
    pub link: Seq<char>,
    pub raw_description: Seq<char>,
    pub raw_date: Seq<char>,
}

impl View for RawEntry {
    type V = RawEntryView;

    open spec fn view(&self) -> RawEntryView {
        RawEntryView {
            title: self.title@,
            link: self.link@,
            raw_description: self.raw_description@,
            raw_date: self.raw_date@,
        }
    }
}

/// An entry of the page lacks a field: the node that the rule leads to, or
/// the attribute that it asks for, is not there.
#[derive(Clone, Copy, Debug, PartialEq, Eq)]
pub struct ExtractionError {
    /// The number of the entry on the page, from 0.
    pub entry: usize,
    pub field: Field,
}

/// What an [`ExtractionError`] says, with the entry's number as an integer.
pub struct MissingField {
    pub entry: int,
    pub field: Field,
}

impl View for ExtractionError {
    type V = MissingField;

    open spec fn view(&self) -> MissingField {
        MissingField { entry: self.entry as int, field: self.field }
    }
}

/// The element that a chain leads to from `scope`: at each layer, the match
/// of the layer's selector below the element reached so far that the layer's
/// ordinal picks. `None` where a layer has too few matches.
pub open spec fn reached(scope: ElementRef, steps: Seq<CompiledStep>) -> Option<ElementRef>
    decreases steps.len(),
{
    if steps.len() == 0 {
        Some(scope)
    } else {
        let found = element_matches(scope, steps.first().selector);
        if steps.first().ordinal < found.len() {
            reached(found[steps.first().ordinal as int], steps.drop_first())
        } else {
            None
        }
    }
}

/// What a capture takes from an element.
pub open spec fn captured(element: ElementRef, capture: Capture) -> Option<Seq<char>> {
    match capture {
        Capture::Text => Some(trimmed(element_text(element))),
        Capture::Attribute { name } => element_attr(element, name@),
    }
}

/// The value of a field of an entry, or `None` where the entry lacks it.
pub open spec fn field_value(entry: ElementRef, rule: CompiledRule) -> Option<Seq<char>> {
    match reached(entry, rule.steps@) {
        Some(element) => captured(element, rule.capture),
        None => None,
    }
}

/// The entry that an element of the page gives, or the first field that it
/// lacks: title, link, description and date are read in this order.
pub open spec fn raw_entry(entry: ElementRef, rules: CompiledRuleSet) -> Result<RawEntryView, Field> {
    if field_value(entry, rules.title) is None {
        Err(Field::Title)
    } else if field_value(entry, rules.link) is None {
        Err(Field::Link)
    } else if field_value(entry, rules.description) is None {
        Err(Field::Description)
    } else if field_value(entry, rules.date) is None {
        Err(Field::Date)
    } else {
        Ok(
            RawEntryView {
                title: field_value(entry, rules.title).unwrap(),
                link: rules.link_base@ + field_value(entry, rules.link).unwrap(),
                raw_description: field_value(entry, rules.description).unwrap(),
                raw_date: field_value(entry, rules.date).unwrap(),
            },
        )
    }
}

/// What each of the elements `found` gives, in their order.
pub open spec fn entry_results(
    found: Seq<ElementRef>,
    rules: CompiledRuleSet,
) -> Seq<Result<RawEntryView, Field>> {
    Seq::new(found.len(), |i: int| raw_entry(found[i], rules))
}

/// The entries that the elements `found` give, one for each and in their
/// order; or, where one of them lacks a field, the first such element and the
/// field.
pub open spec fn extracted(
    found: Seq<ElementRef>,
    rules: CompiledRuleSet,
) -> Result<Seq<RawEntryView>, MissingField> {
    match gathered(entry_results(found, rules)) {
        Ok(entries) => Ok(entries),
        Err((at, field)) => Err(MissingField { entry: at, field }),
    }
}

/// Entries over sequences of characters.
pub open spec fn raw_views(entries: Seq<RawEntry>) -> Seq<RawEntryView> {
    Seq::new(entries.len(), |i: int| entries[i]@)
}

/// What was read of a page, over sequences of characters.
pub open spec fn read_view(
    read: Result<Vec<RawEntry>, ExtractionError>,
) -> Result<Seq<RawEntryView>, MissingField> {
    match read {
        Ok(entries) => Ok(raw_views(entries@)),
        Err(error) => Err(error@),
    }
}

/// The match that an ordinal picks: the first for 0, the second for 1.
pub fn pick<'a>(found: &Vec<ElementRef<'a>>, ordinal: usize) -> (picked: Option<ElementRef<'a>>)
    ensures
        picked == if ordinal < found.len() {
            Some(found[ordinal as int])
        } else {
            None
        },
{
    if ordinal < found.len() {
        Some(found[ordinal])
    } else {
        None
    }
}

/// Follows a chain from `scope`.
pub fn follow<'a>(scope: ElementRef<'a>, steps: &Vec<CompiledStep>) -> (end: Option<ElementRef<'a>>)
    ensures
        end == reached(scope, steps@),
{
    let mut current = scope;
    let mut at: usize = 0;
    assert(steps@.skip(0) =~= steps@);
    while at < steps.len()
        invariant
            at <= steps.len(),
            reached(scope, steps@) == reached(current, steps@.skip(at as int)),
        decreases steps.len() - at,
    {
        assert(steps@.skip(at as int).first() == steps[at as int]);
        assert(steps@.skip(at as int).drop_first() =~= steps@.skip(at + 1));
        let found = select_in_element(current, &steps[at].selector);
        match pick(&found, steps[at].ordinal) {
            Some(next) => {
                current = next;
            },
            None => {
                return None;
            },
        }
        at += 1;
    }
    Some(current)
}

/// Takes from an element what a capture asks for.
pub fn capture_from(element: ElementRef, capture: &Capture) -> (value: Option<String>)
    ensures
        text_view(value) == captured(element, *capture),
{
    match capture {
        Capture::Text => {
            let text = text_of(element);
            Some(trim(text.as_str()))
        },
        Capture::Attribute { name } => attr_of(element, name.as_str()),
    }
}

/// Reads a field of an entry.
pub fn extract_field(entry: ElementRef, rule: &CompiledRule) -> (value: Option<String>)
    ensures
        text_view(value) == field_value(entry, *rule),
{
    match follow(entry, &rule.steps) {
        Some(element) => capture_from(element, &rule.capture),
        None => None,
    }
}

/// The absolute address of a link of the page: the source's base with the
/// link behind it.
pub fn resolve_link(base: &str, link: &str) -> (address: String)
    ensures
        address@ == base@ + link@,
{
    let mut address = String::from_str(base);
    address.append(link);
    address
}

/// Reads an entry: title, link, description and date, in this order. The
/// first field that is not there is the error.
pub fn extract_entry(entry: ElementRef, rules: &CompiledRuleSet) -> (read: Result<RawEntry, Field>)
    ensures
        match read {
            Ok(entry_read) => raw_entry(entry, *rules) == Ok::<RawEntryView, Field>(entry_read@),
            Err(field) => raw_entry(entry, *rules) == Err::<RawEntryView, Field>(field),
        },
{
    let title = match extract_field(entry, &rules.title) {
        Some(title) => title,
        None => {
            return Err(Field::Title);
        },
    };
    let link = match extract_field(entry, &rules.link) {
        Some(link) => resolve_link(rules.link_base.as_str(), link.as_str()),
        None => {
            return Err(Field::Link);
        },
    };
    let raw_description = match extract_field(entry, &rules.description) {
        Some(description) => description,
        None => {
            return Err(Field::Description);
        },
    };
    let raw_date = match extract_field(entry, &rules.date) {
        Some(date) => date,
        None => {
            return Err(Field::Date);
        },
    };
    Ok(RawEntry { title, link, raw_description, raw_date })
}

/// Reads the entries that the elements `found` give, from the first on, and
/// stops at the first that lacks a field.
pub fn extract_each(
    found: &Vec<ElementRef>,
    rules: &CompiledRuleSet,
) -> (read: Result<Vec<RawEntry>, ExtractionError>)
    ensures
        read_view(read) == extracted(found@, *rules),
{
    let ghost results = entry_results(found@, *rules);
    let mut entries: Vec<RawEntry> = Vec::new();
    let mut at: usize = 0;
    while at < found.len()
        invariant
            at <= found.len(),
            entries.len() == at,
            results == entry_results(found@, *rules),
            forall|i: int|
                0 <= i < at ==> (#[trigger] results[i]) == Ok::<RawEntryView, Field>(entries[i]@),
        decreases found.len() - at,
    {
        match extract_entry(found[at], rules) {
            Ok(entry) => {
                entries.push(entry);
            },
            Err(field) => {
                proof {
                    gathered_first_error(results, at as int, field);
                }
                return Err(ExtractionError { entry: at, field });
            },
        }
        at += 1;
    }
    proof {
        gathered_all(results);
        assert(gathered(results)->Ok_0 =~= raw_views(entries@));
    }
    Ok(entries)
}

/// Reads the entries of a page: one for each element that matches the
/// entry's selector, in the order of the page. Where an entry lacks a field,
/// nothing is read: the error names the first such entry and the field.
pub fn extract_entries(
    document: &Html,
    rules: &CompiledRuleSet,
) -> (read: Result<Vec<RawEntry>, ExtractionError>)
    ensures
        read_view(read) == extracted(document_matches(document, rules.entry), *rules),
{
    let found = select_in_document(document, &rules.entry);
    extract_each(&found, rules)
}

} // verus!
