//! The grammars and highlight queries that come with the library, one
//! set for each language whose grammar crate is linked in.

use vstd::prelude::*;
use vstd::string::*;
use crate::language::{language_name, Language};

verus! {

/// Whether the library comes with a grammar for the language.
pub open spec fn has_bundled_grammar(language: Language) -> bool {
    match language {
        Language::Toml
        | Language::Kotlin
        | Language::Markdown
        | Language::Sql
        | Language::Dockerfile => false,
        _ => true,
    }
}

/// Whether highlighting the language uses an injection query.
pub open spec fn uses_injections(language: Language) -> bool {
    language == Language::Rust || language == Language::JavaScript || language == Language::Html
}

/// Whether highlighting the language uses a locals query.
pub open spec fn uses_locals(language: Language) -> bool {
    language == Language::JavaScript || language == Language::TypeScript
}

/// The message that reports a language without a bundled grammar.
pub open spec fn unavailable_message(language: Language) -> Seq<char> {
    if language == Language::Toml {
        "Language "@ + language_name(language)
            + " is temporarily disabled (tree-sitter version incompatibility)."@
    } else {
        "Language "@ + language_name(language) + " is not enabled."@
    }
}

/// The Rust grammar and highlight query of `tree_sitter_rust`: its constants
/// `LANGUAGE` and `HIGHLIGHTS_QUERY`.
///
/// Trusted: both are handed on as the crate gives them; nothing is claimed
/// about their contents.
#[verifier::external_body]
fn rust_grammar() -> (grammar: (tree_sitter_language::LanguageFn, &'static str)) {
    (tree_sitter_rust::LANGUAGE, tree_sitter_rust::HIGHLIGHTS_QUERY)
}

/// The injection query of `tree_sitter_rust`, its constant `INJECTIONS_QUERY`.
///
/// Trusted: handed on as the crate gives it.
#[verifier::external_body]
fn rust_injections() -> (query: &'static str) {
    tree_sitter_rust::INJECTIONS_QUERY
}

/// The Python grammar and highlight query of `tree_sitter_python`: its constants
/// `LANGUAGE` and `HIGHLIGHTS_QUERY`.
///
/// Trusted: both are handed on as the crate gives them; nothing is claimed
/// about their contents.
#[verifier::external_body]
fn python_grammar() -> (grammar: (tree_sitter_language::LanguageFn, &'static str)) {
    (tree_sitter_python::LANGUAGE, tree_sitter_python::HIGHLIGHTS_QUERY)
}

/// The JavaScript grammar and highlight query of `tree_sitter_javascript`: its constants
/// `LANGUAGE` and `HIGHLIGHT_QUERY`.
///
/// Trusted: both are handed on as the crate gives them; nothing is claimed
/// about their contents.
#[verifier::external_body]
fn javascript_grammar() -> (grammar: (tree_sitter_language::LanguageFn, &'static str)) {
    (tree_sitter_javascript::LANGUAGE, tree_sitter_javascript::HIGHLIGHT_QUERY)
}

/// The injection query of `tree_sitter_javascript`, its constant `INJECTIONS_QUERY`.
///
/// Trusted: handed on as the crate gives it.
#[verifier::external_body]
fn javascript_injections() -> (query: &'static str) {
    tree_sitter_javascript::INJECTIONS_QUERY
}

/// The locals query of `tree_sitter_javascript`, its constant `LOCALS_QUERY`.
///
/// Trusted: handed on as the crate gives it.
#[verifier::external_body]
fn javascript_locals() -> (query: &'static str) {
    tree_sitter_javascript::LOCALS_QUERY
}

/// The TypeScript grammar and highlight query of `tree_sitter_typescript`: its constants
/// `LANGUAGE_TYPESCRIPT` and `HIGHLIGHTS_QUERY`.
///
/// Trusted: both are handed on as the crate gives them; nothing is claimed
/// about their contents.
#[verifier::external_body]
fn typescript_grammar() -> (grammar: (tree_sitter_language::LanguageFn, &'static str)) {
    (tree_sitter_typescript::LANGUAGE_TYPESCRIPT, tree_sitter_typescript::HIGHLIGHTS_QUERY)
}

/// The locals query of `tree_sitter_typescript`, its constant `LOCALS_QUERY`.
///
/// Trusted: handed on as the crate gives it.
#[verifier::external_body]
fn typescript_locals() -> (query: &'static str) {
    tree_sitter_typescript::LOCALS_QUERY
}

/// The C grammar and highlight query of `tree_sitter_c`: its constants
/// `LANGUAGE` and `HIGHLIGHT_QUERY`.
///
/// Trusted: both are handed on as the crate gives them; nothing is claimed
/// about their contents.
#[verifier::external_body]
fn c_grammar() -> (grammar: (tree_sitter_language::LanguageFn, &'static str)) {
    (tree_sitter_c::LANGUAGE, tree_sitter_c::HIGHLIGHT_QUERY)
}

/// The Cpp grammar and highlight query of `tree_sitter_cpp`: its constants
/// `LANGUAGE` and `HIGHLIGHT_QUERY`.
///
/// Trusted: both are handed on as the crate gives them; nothing is claimed
/// about their contents.
#[verifier::external_body]
fn cpp_grammar() -> (grammar: (tree_sitter_language::LanguageFn, &'static str)) {
    (tree_sitter_cpp::LANGUAGE, tree_sitter_cpp::HIGHLIGHT_QUERY)
}

/// The Swift grammar and highlight query of `tree_sitter_swift`: its constants
/// `LANGUAGE` and `HIGHLIGHTS_QUERY`.
///
/// Trusted: both are handed on as the crate gives them; nothing is claimed
/// about their contents.
#[verifier::external_body]
fn swift_grammar() -> (grammar: (tree_sitter_language::LanguageFn, &'static str)) {
    (tree_sitter_swift::LANGUAGE, tree_sitter_swift::HIGHLIGHTS_QUERY)
}

/// The Go grammar and highlight query of `tree_sitter_go`: its constants
/// `LANGUAGE` and `HIGHLIGHTS_QUERY`.
///
/// Trusted: both are handed on as the crate gives them; nothing is claimed
/// about their contents.
#[verifier::external_body]
fn go_grammar() -> (grammar: (tree_sitter_language::LanguageFn, &'static str)) {
    (tree_sitter_go::LANGUAGE, tree_sitter_go::HIGHLIGHTS_QUERY)
}

/// The Java grammar and highlight query of `tree_sitter_java`: its constants
/// `LANGUAGE` and `HIGHLIGHTS_QUERY`.
///
/// Trusted: both are handed on as the crate gives them; nothing is claimed
/// about their contents.
#[verifier::external_body]
fn java_grammar() -> (grammar: (tree_sitter_language::LanguageFn, &'static str)) {
    (tree_sitter_java::LANGUAGE, tree_sitter_java::HIGHLIGHTS_QUERY)
}

/// The Ruby grammar and highlight query of `tree_sitter_ruby`: its constants
/// `LANGUAGE` and `HIGHLIGHTS_QUERY`.
///
/// Trusted: both are handed on as the crate gives them; nothing is claimed
/// about their contents.
#[verifier::external_body]
fn ruby_grammar() -> (grammar: (tree_sitter_language::LanguageFn, &'static str)) {
    (tree_sitter_ruby::LANGUAGE, tree_sitter_ruby::HIGHLIGHTS_QUERY)
}

/// The Php grammar and highlight query of `tree_sitter_php`: its constants
/// `LANGUAGE_PHP` and `HIGHLIGHTS_QUERY`.
///
/// Trusted: both are handed on as the crate gives them; nothing is claimed
/// about their contents.
#[verifier::external_body]
fn php_grammar() -> (grammar: (tree_sitter_language::LanguageFn, &'static str)) {
    (tree_sitter_php::LANGUAGE_PHP, tree_sitter_php::HIGHLIGHTS_QUERY)
}

/// The Scala grammar and highlight query of `tree_sitter_scala`: its constants
/// `LANGUAGE` and `HIGHLIGHTS_QUERY`.
///
/// Trusted: both are handed on as the crate gives them; nothing is claimed
/// about their contents.
#[verifier::external_body]
fn scala_grammar() -> (grammar: (tree_sitter_language::LanguageFn, &'static str)) {
    (tree_sitter_scala::LANGUAGE, tree_sitter_scala::HIGHLIGHTS_QUERY)
}

/// The Haskell grammar and highlight query of `tree_sitter_haskell`: its constants
/// `LANGUAGE` and `HIGHLIGHTS_QUERY`.
///
/// Trusted: both are handed on as the crate gives them; nothing is claimed
/// about their contents.
#[verifier::external_body]
fn haskell_grammar() -> (grammar: (tree_sitter_language::LanguageFn, &'static str)) {
    (tree_sitter_haskell::LANGUAGE, tree_sitter_haskell::HIGHLIGHTS_QUERY)
}

/// The Elixir grammar and highlight query of `tree_sitter_elixir`: its constants
/// `LANGUAGE` and `HIGHLIGHTS_QUERY`.
///
/// Trusted: both are handed on as the crate gives them; nothing is claimed
/// about their contents.
#[verifier::external_body]
fn elixir_grammar() -> (grammar: (tree_sitter_language::LanguageFn, &'static str)) {
    (tree_sitter_elixir::LANGUAGE, tree_sitter_elixir::HIGHLIGHTS_QUERY)
}

/// The Zig grammar and highlight query of `tree_sitter_zig`: its constants
/// `LANGUAGE` and `HIGHLIGHTS_QUERY`.
///
/// Trusted: both are handed on as the crate gives them; nothing is claimed
/// about their contents.
#[verifier::external_body]
fn zig_grammar() -> (grammar: (tree_sitter_language::LanguageFn, &'static str)) {
    (tree_sitter_zig::LANGUAGE, tree_sitter_zig::HIGHLIGHTS_QUERY)
}

/// The Html grammar and highlight query of `tree_sitter_html`: its constants
/// `LANGUAGE` and `HIGHLIGHTS_QUERY`.
///
/// Trusted: both are handed on as the crate gives them; nothing is claimed
/// about their contents.
#[verifier::external_body]
fn html_grammar() -> (grammar: (tree_sitter_language::LanguageFn, &'static str)) {
    (tree_sitter_html::LANGUAGE, tree_sitter_html::HIGHLIGHTS_QUERY)
}

/// The injection query of `tree_sitter_html`, its constant `INJECTIONS_QUERY`.
///
/// Trusted: handed on as the crate gives it.
#[verifier::external_body]
fn html_injections() -> (query: &'static str) {
    tree_sitter_html::INJECTIONS_QUERY
}

/// The Css grammar and highlight query of `tree_sitter_css`: its constants
/// `LANGUAGE` and `HIGHLIGHTS_QUERY`.
///
/// Trusted: both are handed on as the crate gives them; nothing is claimed
/// about their contents.
#[verifier::external_body]
fn css_grammar() -> (grammar: (tree_sitter_language::LanguageFn, &'static str)) {
    (tree_sitter_css::LANGUAGE, tree_sitter_css::HIGHLIGHTS_QUERY)
}

/// The Json grammar and highlight query of `tree_sitter_json`: its constants
/// `LANGUAGE` and `HIGHLIGHTS_QUERY`.
///
/// Trusted: both are handed on as the crate gives them; nothing is claimed
/// about their contents.
#[verifier::external_body]
fn json_grammar() -> (grammar: (tree_sitter_language::LanguageFn, &'static str)) {
    (tree_sitter_json::LANGUAGE, tree_sitter_json::HIGHLIGHTS_QUERY)
}

/// The Yaml grammar and highlight query of `tree_sitter_yaml`: its constants
/// `LANGUAGE` and `HIGHLIGHTS_QUERY`.
///
/// Trusted: both are handed on as the crate gives them; nothing is claimed
/// about their contents.
#[verifier::external_body]
fn yaml_grammar() -> (grammar: (tree_sitter_language::LanguageFn, &'static str)) {
    (tree_sitter_yaml::LANGUAGE, tree_sitter_yaml::HIGHLIGHTS_QUERY)
}

/// The Xml grammar and highlight query of `tree_sitter_xml`: its constants
/// `LANGUAGE_XML` and `XML_HIGHLIGHT_QUERY`.
///
/// Trusted: both are handed on as the crate gives them; nothing is claimed
/// about their contents.
#[verifier::external_body]
fn xml_grammar() -> (grammar: (tree_sitter_language::LanguageFn, &'static str)) {
    (tree_sitter_xml::LANGUAGE_XML, tree_sitter_xml::XML_HIGHLIGHT_QUERY)
}

/// The Bash grammar and highlight query of `tree_sitter_bash`: its constants
/// `LANGUAGE` and `HIGHLIGHT_QUERY`.
///
/// Trusted: both are handed on as the crate gives them; nothing is claimed
/// about their contents.
#[verifier::external_body]
fn bash_grammar() -> (grammar: (tree_sitter_language::LanguageFn, &'static str)) {
    (tree_sitter_bash::LANGUAGE, tree_sitter_bash::HIGHLIGHT_QUERY)
}

/// The grammar, the highlight query, and where they are used the
/// injection and locals queries of a language; or the message that
/// reports that the library has no grammar for it.
pub fn get_language_config(language: Language) -> (config: Result<
    (tree_sitter_language::LanguageFn, &'static str, Option<&'static str>, Option<&'static str>),
    String,
>)
    ensures
        config is Ok <==> has_bundled_grammar(language),
        config matches Err(message) ==> message@ == unavailable_message(language),
        config matches Ok(parts) ==> {
            &&& parts.2 is Some <==> uses_injections(language)
            &&& parts.3 is Some <==> uses_locals(language)
        },
{
    match language {
        Language::Rust => {
            let (grammar, highlights) = rust_grammar();
            Ok((grammar, highlights, Some(rust_injections()), None))
        },
        Language::Python => {
            let (grammar, highlights) = python_grammar();
            Ok((grammar, highlights, None, None))
        },
        Language::JavaScript => {
            let (grammar, highlights) = javascript_grammar();
            Ok((grammar, highlights, Some(javascript_injections()), Some(javascript_locals())))
        },
        Language::TypeScript => {
            let (grammar, highlights) = typescript_grammar();
            Ok((grammar, highlights, None, Some(typescript_locals())))
        },
        Language::C => {
            let (grammar, highlights) = c_grammar();
            Ok((grammar, highlights, None, None))
        },
        Language::Cpp => {
            let (grammar, highlights) = cpp_grammar();
            Ok((grammar, highlights, None, None))
        },
        Language::Swift => {
            let (grammar, highlights) = swift_grammar();
            Ok((grammar, highlights, None, None))
        },
        Language::Go => {
            let (grammar, highlights) = go_grammar();
            Ok((grammar, highlights, None, None))
        },
        Language::Java => {
            let (grammar, highlights) = java_grammar();
            Ok((grammar, highlights, None, None))
        },
        Language::Ruby => {
            let (grammar, highlights) = ruby_grammar();
            Ok((grammar, highlights, None, None))
        },
        Language::Php => {
            let (grammar, highlights) = php_grammar();
            Ok((grammar, highlights, None, None))
        },
        Language::Scala => {
            let (grammar, highlights) = scala_grammar();
            Ok((grammar, highlights, None, None))
        },
        Language::Haskell => {
            let (grammar, highlights) = haskell_grammar();
            Ok((grammar, highlights, None, None))
        },
        Language::Elixir => {
            let (grammar, highlights) = elixir_grammar();
            Ok((grammar, highlights, None, None))
        },
        Language::Zig => {
            let (grammar, highlights) = zig_grammar();
            Ok((grammar, highlights, None, None))
        },
        Language::Html => {
            let (grammar, highlights) = html_grammar();
            Ok((grammar, highlights, Some(html_injections()), None))
        },
        Language::Css => {
            let (grammar, highlights) = css_grammar();
            Ok((grammar, highlights, None, None))
        },
        Language::Json => {
            let (grammar, highlights) = json_grammar();
            Ok((grammar, highlights, None, None))
        },
        Language::Yaml => {
            let (grammar, highlights) = yaml_grammar();
            Ok((grammar, highlights, None, None))
        },
        Language::Xml => {
            let (grammar, highlights) = xml_grammar();
            Ok((grammar, highlights, None, None))
        },
        Language::Bash => {
            let (grammar, highlights) = bash_grammar();
            Ok((grammar, highlights, None, None))
        },
        Language::Toml => Err(
            String::from_str("Language ").concat(language.name()).concat(
                " is temporarily disabled (tree-sitter version incompatibility).",
            ),
        ),
        Language::Kotlin | Language::Markdown | Language::Sql | Language::Dockerfile => Err(
            String::from_str("Language ").concat(language.name()).concat(" is not enabled."),
        ),
    }
}

} // verus!
