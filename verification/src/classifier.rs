//! The calls into the parsing and highlighting crates: checking a grammar,
//! compiling its queries, and classifying the bytes of a document.

use vstd::prelude::*;
use tree_sitter::{LanguageError, Parser, QueryError};
use tree_sitter_highlight::{HighlightConfiguration, HighlightEvent, Highlighter};
use tree_sitter_language::LanguageFn;
use crate::events::TokenEvent;

verus! {

/// The events with which `tree_sitter_highlight` classifies `source` under
/// `config`, or `None` when it fails. They depend on the configuration and
/// on the bytes only.
pub uninterp spec fn classified(config: HighlightConfiguration, source: Seq<u8>) -> Option<
    Seq<TokenEvent>,
>;

/// Whether a `tree_sitter::Parser` accepts the grammar in `set_language`.
/// It depends on the grammar only: on the version that it was made for.
pub uninterp spec fn grammar_accepted(grammar: LanguageFn) -> bool;

/// Whether `HighlightConfiguration::new` compiles the three query texts
/// for the grammar under the given name. It depends on these arguments
/// only.
pub uninterp spec fn queries_compile(
    grammar: LanguageFn,
    name: Seq<char>,
    highlights: Seq<char>,
    injections: Seq<char>,
    locals: Seq<char>,
) -> bool;

/// The outcome of a classification as proofs see it.
pub open spec fn outcome_view(outcome: Option<Vec<TokenEvent>>) -> Option<Seq<TokenEvent>> {
    match outcome {
        Some(events) => Some(events@),
        None => None,
    }
}

/// Tries a grammar on a new `tree_sitter::Parser` with `set_language`.
///
/// Trusted: the call succeeds exactly for the grammars that
/// [`grammar_accepted`] names, so the same grammar is always accepted or
/// always refused. Nothing is claimed about which grammars those are.
#[verifier::external_body]
pub(crate) fn check_grammar(grammar: LanguageFn) -> (checked: Result<(), LanguageError>)
    ensures
        checked is Ok <==> grammar_accepted(grammar),
{
    Parser::new().set_language(&grammar.into())
}

/// Compiles the queries of a language with
/// `tree_sitter_highlight::HighlightConfiguration::new`.
///
/// Trusted: the call succeeds exactly for the arguments that
/// [`queries_compile`] names, so the same grammar and texts always compile
/// or always fail. Nothing is claimed about which queries compile.
#[verifier::external_body]
pub(crate) fn new_configuration(
    grammar: LanguageFn,
    name: &str,
    highlights: &str,
    injections: &str,
    locals: &str,
) -> (built: Result<HighlightConfiguration, QueryError>)
    ensures
        built is Ok <==> queries_compile(grammar, name@, highlights@, injections@, locals@),
{
    HighlightConfiguration::new(grammar.into(), name, highlights, injections, locals)
}

/// Tells a configuration which scope names to recognize, with
/// `HighlightConfiguration::configure`.
///
/// Trusted: nothing is claimed about the configuration afterwards.
#[verifier::external_body]
pub(crate) fn configure(config: &mut HighlightConfiguration, names: &Vec<&'static str>) {
    config.configure(names.as_slice());
}

/// Classifies `source` with a new `tree_sitter_highlight::Highlighter`:
/// calls `highlight` without a cancellation flag and without injected
/// languages, and collects the events up to the end or the first error.
///
/// Trusted: the outcome is the one that [`classified`] names, so the same
/// configuration and bytes always give the same events. Nothing is claimed
/// about the events themselves.
#[verifier::external_body]
pub(crate) fn classify(config: &HighlightConfiguration, source: &[u8]) -> (outcome: Option<
    Vec<TokenEvent>,
>)
    ensures
        outcome_view(outcome) == classified(*config, source@),
{
    let mut highlighter = Highlighter::new();
    let events = highlighter.highlight(config, source, None, |_| None).ok()?;
    let mut collected = Vec::new();
    for event in events {
        collected.push(match event.ok()? {
            HighlightEvent::Source { start, end } => TokenEvent::Source { start, end },
            HighlightEvent::HighlightStart(scope) => TokenEvent::HighlightStart(scope.0),
            HighlightEvent::HighlightEnd => TokenEvent::HighlightEnd,
        });
    }
    Some(collected)
}

} // verus!
