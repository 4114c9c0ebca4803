//! The highlighter of one document: it stores the snapshot and the spans,
//! runs the classifier when the spans are stale, and answers range
//! queries from the cache.

use vstd::prelude::*;
use vstd::string::*;
use crate::classifier::{
    check_grammar, classified, classify, configure, grammar_accepted, new_configuration,
    outcome_view, queries_compile,
};
use crate::cache::CacheState;
use crate::color::Palette;
use crate::events::{
    build_spans, highlight_names, lemma_classification_spans_ordered, TokenEvent,
};
use crate::grammar::{get_language_config, has_bundled_grammar, unavailable_message};
use crate::language::Language;
use crate::laws::lemma_refresh_keeps_step;
use crate::span::{clip_spans, spans_ordered, HighlightSpan};

verus! {

/// Manages syntax highlighting for a document.
pub struct SyntaxHighlighter {
    language: Language,
    config: tree_sitter_highlight::HighlightConfiguration,
    pub buffer_generation: u32,
    has_snapshot: bool,
    source_cache: Vec<u8>,
    highlight_cache: Vec<HighlightSpan>,
    highlight_cache_generation: u32,
}

/// The message for a grammar that the parser does not accept, where
/// `detail` is the parser's own account.
pub open spec fn grammar_failure(detail: Seq<char>) -> Seq<char> {
    "Failed to set parser language: "@ + detail
}

/// The message for queries that do not compile, where `detail` is the
/// compiler's own account.
pub open spec fn configuration_failure(detail: Seq<char>) -> Seq<char> {
    "Failed to create highlight configuration: "@ + detail
}

/// `message` reports that the queries did not compile, with the text of
/// `error` as its detail.
pub open spec fn reports_query_error(message: Seq<char>, error: tree_sitter::QueryError) -> bool {
    exists|detail: String| #[trigger]
        to_string_from_display_ensures::<tree_sitter::QueryError>(&error, detail) && message
            == configuration_failure(detail@)
}

/// `message` reports that the parser did not accept the grammar, with the
/// text of `error` as its detail.
pub open spec fn reports_grammar_error(message: Seq<char>, error: tree_sitter::LanguageError)
    -> bool {
    exists|detail: String| #[trigger]
        to_string_from_display_ensures::<tree_sitter::LanguageError>(&error, detail) && message
            == grammar_failure(detail@)
}

/// The text of a query that may be left out: empty where it is.
pub open spec fn query_text(query: Option<&str>) -> Seq<char> {
    match query {
        Some(text) => text@,
        None => ""@,
    }
}

/// The name under which the queries of every language are compiled.
pub open spec fn configuration_name() -> Seq<char> {
    "source"@
}

/// The grammar is accepted and its queries compile, so a highlighter can
/// be made from them.
pub open spec fn can_set_up(
    grammar: tree_sitter_language::LanguageFn,
    highlights: Seq<char>,
    injections: Seq<char>,
    locals: Seq<char>,
) -> bool {
    &&& grammar_accepted(grammar)
    &&& queries_compile(grammar, configuration_name(), highlights, injections, locals)
}

/// `made` is what setting up a highlighter for `language` from the grammar
/// and the query texts gives. It is a highlighter exactly when the parser
/// accepts the grammar and the queries compile, and then one without
/// snapshot and spans. A grammar that is not accepted is reported with the
/// parser's error, and queries that do not compile with the compiler's.
pub open spec fn is_set_up_from(
    made: Result<SyntaxHighlighter, String>,
    language: Language,
    grammar: tree_sitter_language::LanguageFn,
    highlights: Seq<char>,
    injections: Seq<char>,
    locals: Seq<char>,
) -> bool {
    &&& made is Ok <==> can_set_up(grammar, highlights, injections, locals)
    &&& made matches Ok(h) ==> {
        &&& h.wf()
        &&& h@ == CacheState::empty()
        &&& h.language_of() == language
    }
    &&& made matches Err(message) ==> {
        if grammar_accepted(grammar) {
            exists|error: tree_sitter::QueryError| reports_query_error(message@, error)
        } else {
            exists|error: tree_sitter::LanguageError| reports_grammar_error(message@, error)
        }
    }
}

/// `message` reports a grammar or queries that the parsing crates refused.
pub open spec fn is_setup_failure(message: Seq<char>) -> bool {
    ||| exists|detail: Seq<char>| message == #[trigger] grammar_failure(detail)
    ||| exists|detail: Seq<char>| message == #[trigger] configuration_failure(detail)
}

impl SyntaxHighlighter {
    /// The language that the highlighter was made for.
    pub closed spec fn language_of(&self) -> Language {
        self.language
    }

    /// The compiled queries with which the document is classified.
    pub closed spec fn configuration(&self) -> tree_sitter_highlight::HighlightConfiguration {
        self.config
    }

    /// The state of the highlighter.
    pub closed spec fn view(&self) -> CacheState {
        CacheState {
            generation: self.buffer_generation,
            has_snapshot: self.has_snapshot,
            source: self.source_cache@,
            spans: self.highlight_cache@,
            spans_generation: self.highlight_cache_generation,
        }
    }

    /// The cached spans are ordered.
    pub open spec fn wf(&self) -> bool {
        spans_ordered(self@.spans)
    }

    /// What the classifier reports for the current snapshot.
    pub open spec fn classification(&self) -> Option<Seq<TokenEvent>> {
        classified(self.configuration(), self@.source)
    }

    /// Both highlighters were made for the same language with the same
    /// compiled queries.
    pub open spec fn same_setup(&self, other: &SyntaxHighlighter) -> bool {
        &&& self.language_of() == other.language_of()
        &&& self.configuration() == other.configuration()
    }

    /// A highlighter for `language` that classifies with `config`. It has
    /// no snapshot and no spans yet.
    pub fn from_configuration(
        language: Language,
        config: tree_sitter_highlight::HighlightConfiguration,
    ) -> (highlighter: SyntaxHighlighter)
        ensures
            highlighter.wf(),
            highlighter@ == CacheState::empty(),
            highlighter.language_of() == language,
            highlighter.configuration() == config,
    {
        SyntaxHighlighter {
            language,
            config,
            buffer_generation: 0,
            has_snapshot: false,
            source_cache: Vec::new(),
            highlight_cache: Vec::new(),
            highlight_cache_generation: 0,
        }
    }

    /// Finishes the setup from the outcome of compiling the queries: a
    /// highlighter that recognizes the standard scope names, or the
    /// message that reports why the queries did not compile.
    pub fn from_built(
        language: Language,
        built: Result<tree_sitter_highlight::HighlightConfiguration, tree_sitter::QueryError>,
    ) -> (highlighter: Result<SyntaxHighlighter, String>)
        ensures
            highlighter is Ok <==> built is Ok,
            highlighter matches Ok(h) ==> {
                &&& h.wf()
                &&& h@ == CacheState::empty()
                &&& h.language_of() == language
            },
            highlighter matches Err(message) ==> {
                &&& built is Err
                &&& reports_query_error(message@, built->Err_0)
                &&& is_setup_failure(message@)
            },
    {
        match built {
            Ok(config) => {
                let mut config = config;
                let names = highlight_names();
                configure(&mut config, &names);
                Ok(SyntaxHighlighter::from_configuration(language, config))
            },
            Err(error) => {
                let detail = error.to_string();
                let message = String::from_str("Failed to create highlight configuration: ").concat(
                    detail.as_str(),
                );
                assert(message@ == configuration_failure(detail@));
                Err(message)
            },
        }
    }

    /// Finishes the setup from the outcome of trying the grammar on a
    /// parser: reports the parser's error, or goes on to compile the
    /// queries under the name `source` and to make the highlighter.
    pub fn from_checked(
        language: Language,
        checked: Result<(), tree_sitter::LanguageError>,
        grammar: tree_sitter_language::LanguageFn,
        highlights: &str,
        injections: Option<&str>,
        locals: Option<&str>,
    ) -> (highlighter: Result<SyntaxHighlighter, String>)
        ensures
            highlighter is Ok <==> checked is Ok && queries_compile(
                grammar,
                configuration_name(),
                highlights@,
                query_text(injections),
                query_text(locals),
            ),
            highlighter matches Ok(h) ==> {
                &&& h.wf()
                &&& h@ == CacheState::empty()
                &&& h.language_of() == language
            },
            highlighter matches Err(message) ==> match checked {
                Err(error) => reports_grammar_error(message@, error),
                Ok(_) => exists|error: tree_sitter::QueryError|
                    reports_query_error(message@, error),
            },
    {
        match checked {
            Err(error) => {
                let detail = error.to_string();
                let message = String::from_str("Failed to set parser language: ").concat(
                    detail.as_str(),
                );
                assert(message@ == grammar_failure(detail@));
                Err(message)
            },
            Ok(()) => {
                let injections = match injections {
                    Some(query) => query,
                    None => "",
                };
                let locals = match locals {
                    Some(query) => query,
                    None => "",
                };
                let built = new_configuration(grammar, "source", highlights, injections, locals);
                let highlighter = SyntaxHighlighter::from_built(language, built);
                proof {
                    if built is Err {
                        assert(reports_query_error(highlighter->Err_0@, built->Err_0));
                    }
                }
                highlighter
            },
        }
    }

    /// Creates a highlighter for `language` from a grammar and its
    /// queries. Succeeds exactly when the parser accepts the grammar and
    /// the queries compile; otherwise the message reports the error of
    /// the parser, or else that of the query compiler.
    pub fn with_grammar(
        language: Language,
        grammar: tree_sitter_language::LanguageFn,
        highlights: &str,
        injections: Option<&str>,
        locals: Option<&str>,
    ) -> (highlighter: Result<SyntaxHighlighter, String>)
        ensures
            is_set_up_from(
                highlighter,
                language,
                grammar,
                highlights@,
                query_text(injections),
                query_text(locals),
            ),
            highlighter matches Err(message) ==> is_setup_failure(message@),
    {
        let checked = check_grammar(grammar);
        let highlighter = SyntaxHighlighter::from_checked(
            language,
            checked,
            grammar,
            highlights,
            injections,
            locals,
        );
        proof {
            if checked is Err && highlighter is Err {
                assert(reports_grammar_error(highlighter->Err_0@, checked->Err_0));
            }
        }
        highlighter
    }

    /// Create a new syntax highlighter for the given language.
    ///
    /// Fails at once for a language without a bundled grammar. For a
    /// bundled language it succeeds exactly when the parser accepts the
    /// bundled grammar and its queries compile, and otherwise reports the
    /// error of the parser or of the query compiler.
    pub fn new(language: Language) -> (highlighter: Result<SyntaxHighlighter, String>)
        ensures
            !has_bundled_grammar(language) ==> highlighter is Err && highlighter->Err_0@
                == unavailable_message(language),
            has_bundled_grammar(language) ==> exists|
                parts: (
                    tree_sitter_language::LanguageFn,
                    &'static str,
                    Option<&'static str>,
                    Option<&'static str>,
                ),
            |
                {
                    &&& #[trigger] call_ensures(get_language_config, (language,), Ok(parts))
                    &&& is_set_up_from(
                        highlighter,
                        language,
                        parts.0,
                        parts.1@,
                        query_text(parts.2),
                        query_text(parts.3),
                    )
                },
            highlighter matches Ok(h) ==> {
                &&& h.wf()
                &&& h@ == CacheState::empty()
                &&& h.language_of() == language
            },
            highlighter matches Err(message) ==> has_bundled_grammar(language)
                ==> is_setup_failure(message@),
    {
        let config = get_language_config(language);
        match config {
            Err(message) => Err(message),
            Ok(parts) => {
                let highlighter = SyntaxHighlighter::with_grammar(
                    language,
                    parts.0,
                    parts.1,
                    parts.2,
                    parts.3,
                );
                assert(call_ensures(get_language_config, (language,), Ok(parts)));
                highlighter
            },
        }
    }

    /// Hands in the bytes of the document as generation
    /// `buffer_generation`. The snapshot is replaced unless one of that
    /// generation is stored already. Nothing is classified here, and the
    /// cached spans are left alone: a later query finds them stale by
    /// their generation.
    pub fn update(&mut self, source: Vec<u8>, buffer_generation: u32)
        requires
            old(self).wf(),
        ensures
            final(self).wf(),
            final(self).same_setup(old(self)),
            final(self)@ == old(self)@.updated(source@, buffer_generation),
            old(self)@.in_step() && buffer_generation != old(self)@.spans_generation
                ==> final(self)@.in_step(),
    {
        if self.buffer_generation == buffer_generation && self.has_snapshot {
            return;
        }
        self.has_snapshot = true;
        self.source_cache = source;
        self.buffer_generation = buffer_generation;
    }

    /// The generation of the stored snapshot.
    pub fn generation(&self) -> (generation: u32)
        ensures
            generation == self@.generation,
    {
        self.buffer_generation
    }

    /// Get a reference to the cached source buffer.
    pub fn cached_source(&self) -> (source: &[u8])
        ensures
            source@ == self@.source,
    {
        self.source_cache.as_slice()
    }

    /// Whether the next query has to run the classifier: the spans are
    /// not current and the snapshot has bytes to classify.
    pub fn needs_classification(&self) -> (needed: bool)
        ensures
            needed == self@.needs_classification(),
    {
        let fresh = self.highlight_cache_generation == self.buffer_generation
            && self.highlight_cache.len() > 0;
        !fresh && self.source_cache.len() > 0
    }

    /// Brings the cached spans up to date, given what the classifier
    /// reports for the snapshot. Spans that are current stay, and
    /// `outcome` is not looked at. Otherwise the old spans go; an empty
    /// snapshot gets no spans, and any other the spans of `outcome`, or
    /// none when `outcome` is a failure or is not in byte order.
    pub fn refresh_with(&mut self, outcome: Option<Vec<TokenEvent>>, fb: &Palette)
        requires
            old(self).wf(),
        ensures
            final(self).wf(),
            final(self).same_setup(old(self)),
            final(self)@ == old(self)@.refreshed(outcome_view(outcome), *fb),
            old(self)@.in_step() ==> final(self)@.in_step() && final(self)@.in_document(),
    {
        proof {
            if self@.in_step() {
                lemma_refresh_keeps_step(self@, outcome_view(outcome), *fb);
            }
        }
        if self.highlight_cache_generation == self.buffer_generation && self.highlight_cache.len()
            > 0 {
            return;
        }
        proof {
            lemma_classification_spans_ordered(
                outcome_view(outcome),
                self.source_cache@.len() as int,
                *fb,
            );
        }
        self.highlight_cache.clear();
        self.highlight_cache_generation = self.buffer_generation;
        if self.source_cache.len() == 0 {
            return;
        }
        match outcome {
            Some(events) => {
                match build_spans(&events, self.source_cache.len(), fb) {
                    Some(spans) => {
                        self.highlight_cache = spans;
                    },
                    None => {},
                }
            },
            None => {},
        }
    }

    /// Ensure highlights are cached for the current buffer generation:
    /// runs the classifier over the snapshot when the spans are not
    /// current, and stores what it reports.
    pub fn ensure_highlights_cached(&mut self, fb: &Palette)
        requires
            old(self).wf(),
        ensures
            final(self).wf(),
            final(self).same_setup(old(self)),
            final(self)@ == old(self)@.refreshed(old(self).classification(), *fb),
            old(self)@.in_step() ==> final(self)@.in_step() && final(self)@.in_document(),
    {
        let outcome = if self.needs_classification() {
            classify(&self.config, self.source_cache.as_slice())
        } else {
            None
        };
        self.refresh_with(outcome, fb);
    }

    /// The cached spans that reach into `[start_byte, end_byte)`, each cut
    /// down to the part inside the range. Reads the cache as it is.
    pub fn cached_highlights(&self, start_byte: usize, end_byte: usize) -> (spans: Vec<
        HighlightSpan,
    >)
        ensures
            spans@ == self@.highlights(start_byte, end_byte),
    {
        clip_spans(&self.highlight_cache, start_byte, end_byte)
    }

    /// Get highlight spans for a byte range.
    ///
    /// Brings the cache up to date first, then answers from the cache. An
    /// empty or inverted range, or one outside the document, has an empty
    /// answer.
    pub fn get_highlights(&mut self, start_byte: usize, end_byte: usize, fb: &Palette) -> (spans:
        Vec<HighlightSpan>)
        requires
            old(self).wf(),
        ensures
            final(self).wf(),
            final(self).same_setup(old(self)),
            final(self)@ == old(self)@.refreshed(old(self).classification(), *fb),
            old(self)@.in_step() ==> final(self)@.in_step() && final(self)@.in_document(),
            spans@ == final(self)@.highlights(start_byte, end_byte),
    {
        self.ensure_highlights_cached(fb);
        self.cached_highlights(start_byte, end_byte)
    }

    /// The language that the highlighter was made for.
    pub fn language(&self) -> (language: Language)
        ensures
            language == self.language_of(),
    {
        self.language
    }
}

} // verus!
