//! The types of the parsing and highlighting crates that pass through the
//! library. Proofs see none of their contents.

use vstd::prelude::*;

verus! {

/// The entry point of a grammar, as the grammar crates export it.
#[verifier::external_type_specification]
#[verifier::external_body]
pub struct ExGrammarEntry(tree_sitter_language::LanguageFn);

/// The compiled queries of one language, ready for highlighting.
#[verifier::external_type_specification]
#[verifier::external_body]
pub struct ExConfiguration(tree_sitter_highlight::HighlightConfiguration);

/// The error of a parser that is given a grammar of the wrong version.
#[verifier::external_type_specification]
#[verifier::external_body]
pub struct ExGrammarError(tree_sitter::LanguageError);

/// The error of a query that does not compile.
#[verifier::external_type_specification]
#[verifier::external_body]
pub struct ExQueryError(tree_sitter::QueryError);

} // verus!
