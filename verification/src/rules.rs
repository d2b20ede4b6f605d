//! What a source declares: the selector that bounds an entry, and for each
//! field of an entry the chain of selectors that leads to it. A declaration is
//! text; compiling it makes the selectors once, so that nothing about a rule
//! can fail while a page is read.

use crate::dom::{byte_length, compile_selector, compiled_selector, fits, text_fits};
use scraper::Selector;
use vstd::prelude::*;
use vstd::string::StringExecFns;
use vstd::utf8::encode_utf8;

verus! {

/// The fields of an entry, in the order in which they are read.
#[derive(Clone, Copy, Debug, PartialEq, Eq)]
pub enum Field {
    Title,
    Link,
    Description,
    Date,
}

/// What is taken from the element that a chain ends at.
#[derive(Debug, PartialEq, Eq)]
pub enum Capture {
    /// The text below the element, without the whitespace around it.
    Text,
    /// The value of an attribute, as it stands.
    Attribute { name: String },
}

/// What a [`Capture`] says, over sequences of characters.
pub enum CaptureForm {
    Text,
    Attribute { name: Seq<char> },
}

impl View for Capture {
    type V = CaptureForm;

    open spec fn view(&self) -> CaptureForm {
        match *self {
            Capture::Text => CaptureForm::Text,
            Capture::Attribute { name } => CaptureForm::Attribute { name: name@ },
        }
    }
}

/// One layer of a chain: a selector, and which of its matches below the
/// element reached so far is taken; 0 is the first.
#[derive(Debug, PartialEq, Eq)]
pub struct Step {
    pub selector: String,
    pub ordinal: usize,
}

/// A [`Step`] over sequences of characters.
pub struct StepView {
    pub selector: Seq<char>,
    pub ordinal: int,
}

impl View for Step {
    type V = StepView;

    open spec fn view(&self) -> StepView {
        StepView { selector: self.selector@, ordinal: self.ordinal as int }
    }
}

/// The way from an entry to one of its fields: one layer or more, then what
/// is taken at the end.
#[derive(Debug, PartialEq, Eq)]
pub struct FieldRule {
    pub steps: Vec<Step>,
    pub capture: Capture,
}

/// A [`FieldRule`] over sequences of characters.
pub struct FieldRuleView {
    pub steps: Seq<StepView>,
    pub capture: CaptureForm,
}

impl View for FieldRule {
    type V = FieldRuleView;

    open spec fn view(&self) -> FieldRuleView {
        FieldRuleView {
            steps: step_views(self.steps@),
            capture: self.capture@,
        }
    }
}

/// The layer that takes the first match of `selector`.
pub open spec fn first_of(selector: Seq<char>) -> StepView {
    StepView { selector, ordinal: 0 }
}

/// The layer that takes the match of `selector` that `ordinal` counts to,
/// from 0.
pub open spec fn nth_of(selector: Seq<char>, ordinal: int) -> StepView {
    StepView { selector, ordinal }
}

/// The rule that follows `steps` and takes the text at their end.
pub open spec fn text_rule(steps: Seq<StepView>) -> FieldRuleView {
    FieldRuleView { steps, capture: CaptureForm::Text }
}

/// The rule that follows `steps` and takes the attribute `name` at their
/// end.
pub open spec fn attribute_rule(steps: Seq<StepView>, name: Seq<char>) -> FieldRuleView {
    FieldRuleView { steps, capture: CaptureForm::Attribute { name } }
}

/// Layers over sequences of characters.
pub open spec fn step_views(steps: Seq<Step>) -> Seq<StepView> {
    Seq::new(steps.len(), |i: int| steps[i]@)
}

/// The rules of one source.
#[derive(Debug, PartialEq, Eq)]
pub struct RuleSet {
    /// The selector that every entry of a page matches.
    pub entry: String,
    pub title: FieldRule,
    pub link: FieldRule,
    pub description: FieldRule,
    pub date: FieldRule,
    /// What stands in front of a link of the page to make it absolute.
    pub link_base: String,
}

/// A [`RuleSet`] over sequences of characters.
pub struct RuleSetView {
    pub entry: Seq<char>,
    pub title: FieldRuleView,
    pub link: FieldRuleView,
    pub description: FieldRuleView,
    pub date: FieldRuleView,
    pub link_base: Seq<char>,
}

impl View for RuleSet {
    type V = RuleSetView;

    open spec fn view(&self) -> RuleSetView {
        RuleSetView {
            entry: self.entry@,
            title: self.title@,
            link: self.link@,
            description: self.description@,
            date: self.date@,
            link_base: self.link_base@,
        }
    }
}

/// Why a declaration cannot be used.
#[derive(Debug, PartialEq, Eq)]
pub enum RuleError {
    /// The chain of this field has no layer.
    EmptyChain { field: Field },
    /// This pattern is no selector.
    InvalidSelector { pattern: String },
    /// A pattern of this many bytes is longer than a pattern may be.
    PatternTooLong { bytes: usize },
}

/// What a [`RuleError`] says, over sequences of characters.
pub enum RuleFault {
    EmptyChain { field: Field },
    InvalidSelector { pattern: Seq<char> },
    PatternTooLong { bytes: int },
}

impl View for RuleError {
    type V = RuleFault;

    open spec fn view(&self) -> RuleFault {
        match *self {
            RuleError::EmptyChain { field } => RuleFault::EmptyChain { field },
            RuleError::InvalidSelector { pattern } => RuleFault::InvalidSelector { pattern: pattern@ },
            RuleError::PatternTooLong { bytes } => RuleFault::PatternTooLong { bytes: bytes as int },
        }
    }
}

/// A layer with its selector made.
pub struct CompiledStep {
    pub selector: Selector,
    pub ordinal: usize,
}

/// A chain with its selectors made.
pub struct CompiledRule {
    pub steps: Vec<CompiledStep>,
    pub capture: Capture,
}

/// The rules of one source with their selectors made. Nothing changes one
/// once it is made.
pub struct CompiledRuleSet {
    pub entry: Selector,
    pub title: CompiledRule,
    pub link: CompiledRule,
    pub description: CompiledRule,
    pub date: CompiledRule,
    pub link_base: String,
}

/// Whether `made` is the layer `step` with its selector made.
pub open spec fn step_made(step: StepView, made: CompiledStep) -> bool {
    compiled_selector(step.selector) == Some(made.selector) && made.ordinal == step.ordinal
}

/// Whether `made` is the chain `rule` with its selectors made.
pub open spec fn rule_made(rule: FieldRuleView, made: CompiledRule) -> bool {
    &&& made.steps.len() == rule.steps.len()
    &&& forall|i: int| 0 <= i < rule.steps.len() ==> step_made(rule.steps[i], #[trigger] made.steps[i])
    &&& made.capture@ == rule.capture
}

/// Whether `made` is the declaration `rules` with its selectors made.
pub open spec fn rules_made(rules: RuleSetView, made: CompiledRuleSet) -> bool {
    &&& compiled_selector(rules.entry) == Some(made.entry)
    &&& rule_made(rules.title, made.title)
    &&& rule_made(rules.link, made.link)
    &&& rule_made(rules.description, made.description)
    &&& rule_made(rules.date, made.date)
    &&& made.link_base@ == rules.link_base
}

/// What is wrong with a pattern, if anything: it is too long to be looked
/// at, or it is no selector.
pub open spec fn pattern_fault(pattern: Seq<char>) -> Option<RuleFault> {
    if !fits(pattern) {
        Some(RuleFault::PatternTooLong { bytes: encode_utf8(pattern).len() as int })
    } else if compiled_selector(pattern) is None {
        Some(RuleFault::InvalidSelector { pattern })
    } else {
        None
    }
}

/// What is wrong with the first pattern of `steps` that something is wrong
/// with.
pub open spec fn first_fault(steps: Seq<StepView>) -> Option<RuleFault>
    decreases steps.len(),
{
    if steps.len() == 0 {
        None
    } else if pattern_fault(steps.first().selector) is Some {
        pattern_fault(steps.first().selector)
    } else {
        first_fault(steps.drop_first())
    }
}

/// What is wrong with the chain of `field`, if anything: it is empty, or
/// something is wrong with one of its patterns.
pub open spec fn chain_fault(field: Field, rule: FieldRuleView) -> Option<RuleFault> {
    if rule.steps.len() == 0 {
        Some(RuleFault::EmptyChain { field })
    } else {
        first_fault(rule.steps)
    }
}

/// What is wrong with a declaration, if anything: the first fault met when
/// the entry's selector is looked at first, then the chains of title, link,
/// description and date.
pub open spec fn rules_fault(rules: RuleSetView) -> Option<RuleFault> {
    if pattern_fault(rules.entry) is Some {
        pattern_fault(rules.entry)
    } else if chain_fault(Field::Title, rules.title) is Some {
        chain_fault(Field::Title, rules.title)
    } else if chain_fault(Field::Link, rules.link) is Some {
        chain_fault(Field::Link, rules.link)
    } else if chain_fault(Field::Description, rules.description) is Some {
        chain_fault(Field::Description, rules.description)
    } else {
        chain_fault(Field::Date, rules.date)
    }
}

/// The layer `step` with the selector that was made of its pattern, or the
/// error that names the pattern where none was made.
pub fn made_step(step: &Step, selector: Option<Selector>) -> (made: Result<CompiledStep, RuleError>)
    ensures
        match made {
            Ok(layer) => selector == Some(layer.selector) && layer.ordinal == step.ordinal,
            Err(error) => selector is None && error@ == (RuleFault::InvalidSelector {
                pattern: step.selector@,
            }),
        },
{
    match selector {
        Some(selector) => Ok(CompiledStep { selector, ordinal: step.ordinal }),
        None => Err(RuleError::InvalidSelector { pattern: step.selector.clone() }),
    }
}

/// Makes the selectors of the chain of `field`.
pub fn compile_rule(field: Field, rule: FieldRule) -> (made: Result<CompiledRule, RuleError>)
    ensures
        match made {
            Ok(chain) => chain_fault(field, rule@) is None && rule_made(rule@, chain),
            Err(error) => chain_fault(field, rule@) == Some(error@),
        },
{
    let ghost declared = rule@.steps;
    let FieldRule { steps: layers, capture } = rule;
    if layers.len() == 0 {
        return Err(RuleError::EmptyChain { field });
    }
    let mut steps: Vec<CompiledStep> = Vec::new();
    let mut at: usize = 0;
    assert(declared.skip(0) =~= declared);
    while at < layers.len()
        invariant
            at <= layers.len(),
            declared == rule@.steps,
            declared.len() == layers.len(),
            forall|i: int| 0 <= i < layers.len() ==> declared[i] == (#[trigger] layers[i])@,
            layers.len() > 0,
            steps.len() == at,
            first_fault(declared) == first_fault(declared.skip(at as int)),
            forall|i: int| 0 <= i < at ==> step_made(declared[i], #[trigger] steps[i]),
        decreases layers.len() - at,
    {
        let step = &layers[at];
        assert(declared.skip(at as int).first() == step@);
        assert(declared.skip(at as int).drop_first() =~= declared.skip(at + 1));
        if !text_fits(step.selector.as_str()) {
            return Err(RuleError::PatternTooLong { bytes: byte_length(step.selector.as_str()) });
        }
        match made_step(step, compile_selector(step.selector.as_str())) {
            Ok(layer) => {
                steps.push(layer);
            },
            Err(error) => {
                return Err(error);
            },
        }
        at += 1;
    }
    Ok(CompiledRule { steps, capture })
}

impl Step {
    /// The layer that takes the first match of `selector`.
    pub fn first(selector: &str) -> (step: Step)
        ensures
            step@ == first_of(selector@),
    {
        Step { selector: String::from_str(selector), ordinal: 0 }
    }

    /// The layer that takes the match of `selector` that `ordinal` counts to,
    /// from 0, and so leaves out the `ordinal` matches before it.
    pub fn nth(selector: &str, ordinal: usize) -> (step: Step)
        ensures
            step@ == nth_of(selector@, ordinal as int),
    {
        Step { selector: String::from_str(selector), ordinal }
    }
}

impl FieldRule {
    /// The rule that follows `steps` and takes the text at their end.
    pub fn text(steps: Vec<Step>) -> (rule: FieldRule)
        ensures
            rule@ == text_rule(step_views(steps@)),
    {
        FieldRule { steps, capture: Capture::Text }
    }

    /// The rule that follows `steps` and takes the attribute `name` at their
    /// end.
    pub fn attribute(steps: Vec<Step>, name: &str) -> (rule: FieldRule)
        ensures
            rule@ == attribute_rule(step_views(steps@), name@),
    {
        FieldRule { steps, capture: Capture::Attribute { name: String::from_str(name) } }
    }
}

impl RuleSet {
    /// Makes the selectors of a declaration. Which page will be read plays no
    /// part: a declaration that compiles does so once and for all.
    pub fn compile(self) -> (made: Result<CompiledRuleSet, RuleError>)
        ensures
            match made {
                Ok(set) => rules_fault(self@) is None && rules_made(self@, set),
                Err(error) => rules_fault(self@) == Some(error@),
            },
    {
        if !text_fits(self.entry.as_str()) {
            return Err(RuleError::PatternTooLong { bytes: byte_length(self.entry.as_str()) });
        }
        let entry = match compile_selector(self.entry.as_str()) {
            Some(selector) => selector,
            None => {
                return Err(RuleError::InvalidSelector { pattern: self.entry });
            },
        };
        let title = match compile_rule(Field::Title, self.title) {
            Ok(rule) => rule,
            Err(error) => {
                return Err(error);
            },
        };
        let link = match compile_rule(Field::Link, self.link) {
            Ok(rule) => rule,
            Err(error) => {
                return Err(error);
            },
        };
        let description = match compile_rule(Field::Description, self.description) {
            Ok(rule) => rule,
            Err(error) => {
                return Err(error);
            },
        };
        let date = match compile_rule(Field::Date, self.date) {
            Ok(rule) => rule,
            Err(error) => {
                return Err(error);
            },
        };
        Ok(CompiledRuleSet { entry, title, link, description, date, link_base: self.link_base })
    }
}

} // verus!
