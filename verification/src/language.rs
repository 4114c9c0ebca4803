//! The supported languages and their detection from file names.

use vstd::prelude::*;
use crate::text::{lowercase_of, same_text, to_lowercase};

verus! {

/// Supported programming languages.
#[derive(Debug, Clone, Copy, PartialEq, Eq, Structural)]
pub enum Language {
    Rust,
    Python,
    JavaScript,
    TypeScript,
    C,
    Cpp,
    Swift,
    Go,
    Java,
    Ruby,
    Php,
    Kotlin,
    Scala,
    Haskell,
    Elixir,
    Zig,
    Html,
    Css,
    Markdown,
    Json,
    Yaml,
    Toml,
    Xml,
    Bash,
    Sql,
    Dockerfile,
}

/// The language that a lowercase file extension stands for.
pub open spec fn extension_language(ext: Seq<char>) -> Option<Language> {
    if ext == "rs"@ {
        Some(Language::Rust)
    } else if ext == "py"@ || ext == "pyw"@ || ext == "pyi"@ {
        Some(Language::Python)
    } else if ext == "js"@ || ext == "mjs"@ || ext == "cjs"@ || ext == "jsx"@ {
        Some(Language::JavaScript)
    } else if ext == "ts"@ || ext == "mts"@ || ext == "cts"@ || ext == "tsx"@ {
        Some(Language::TypeScript)
    } else if ext == "c"@ || ext == "h"@ {
        Some(Language::C)
    } else if ext == "cpp"@ || ext == "cc"@ || ext == "cxx"@ || ext == "hpp"@ || ext == "hh"@
        || ext == "hxx"@ || ext == "c++"@ {
        Some(Language::Cpp)
    } else if ext == "swift"@ {
        Some(Language::Swift)
    } else if ext == "go"@ {
        Some(Language::Go)
    } else if ext == "java"@ {
        Some(Language::Java)
    } else if ext == "rb"@ || ext == "rake"@ || ext == "gemspec"@ {
        Some(Language::Ruby)
    } else if ext == "php"@ || ext == "phtml"@ || ext == "php3"@ || ext == "php4"@
        || ext == "php5"@ || ext == "php7"@ || ext == "phps"@ {
        Some(Language::Php)
    } else if ext == "kt"@ || ext == "kts"@ {
        Some(Language::Kotlin)
    } else if ext == "scala"@ || ext == "sc"@ {
        Some(Language::Scala)
    } else if ext == "hs"@ || ext == "lhs"@ {
        Some(Language::Haskell)
    } else if ext == "ex"@ || ext == "exs"@ {
        Some(Language::Elixir)
    } else if ext == "zig"@ {
        Some(Language::Zig)
    } else if ext == "html"@ || ext == "htm"@ {
        Some(Language::Html)
    } else if ext == "css"@ {
        Some(Language::Css)
    } else if ext == "md"@ || ext == "markdown"@ || ext == "mkd"@ || ext == "mkdn"@ {
        Some(Language::Markdown)
    } else if ext == "json"@ || ext == "jsonc"@ {
        Some(Language::Json)
    } else if ext == "yaml"@ || ext == "yml"@ {
        Some(Language::Yaml)
    } else if ext == "toml"@ {
        Some(Language::Toml)
    } else if ext == "xml"@ || ext == "xsl"@ || ext == "xsd"@ || ext == "svg"@ {
        Some(Language::Xml)
    } else if ext == "sh"@ || ext == "bash"@ || ext == "zsh"@ {
        Some(Language::Bash)
    } else if ext == "sql"@ || ext == "mysql"@ || ext == "pgsql"@ {
        Some(Language::Sql)
    } else {
        None
    }
}

/// The language that a lowercase file name stands for, for files that are
/// known by their whole name.
pub open spec fn filename_language(filename: Seq<char>) -> Option<Language> {
    if filename == "dockerfile"@ || filename == "containerfile"@ {
        Some(Language::Dockerfile)
    } else if filename == "makefile"@ || filename == "gnumakefile"@ {
        Some(Language::Bash)
    } else if filename == "rakefile"@ || filename == "gemfile"@ {
        Some(Language::Ruby)
    } else {
        None
    }
}

/// The name of a language, as written in its variant.
pub open spec fn language_name(language: Language) -> Seq<char> {
    match language {
        Language::Rust => "Rust"@,
        Language::Python => "Python"@,
        Language::JavaScript => "JavaScript"@,
        Language::TypeScript => "TypeScript"@,
        Language::C => "C"@,
        Language::Cpp => "Cpp"@,
        Language::Swift => "Swift"@,
        Language::Go => "Go"@,
        Language::Java => "Java"@,
        Language::Ruby => "Ruby"@,
        Language::Php => "Php"@,
        Language::Kotlin => "Kotlin"@,
        Language::Scala => "Scala"@,
        Language::Haskell => "Haskell"@,
        Language::Elixir => "Elixir"@,
        Language::Zig => "Zig"@,
        Language::Html => "Html"@,
        Language::Css => "Css"@,
        Language::Markdown => "Markdown"@,
        Language::Json => "Json"@,
        Language::Yaml => "Yaml"@,
        Language::Toml => "Toml"@,
        Language::Xml => "Xml"@,
        Language::Bash => "Bash"@,
        Language::Sql => "Sql"@,
        Language::Dockerfile => "Dockerfile"@,
    }
}

impl Language {
    /// Detects the language from a file extension, in any letter case.
    pub fn from_extension(ext: &str) -> (language: Option<Language>)
        ensures
            language == extension_language(lowercase_of(ext@)),
    {
        let lower = to_lowercase(ext);
        Language::from_lowercase_extension(lower.as_str())
    }

    /// Detects the language from a file extension that is already lowercase.
    pub fn from_lowercase_extension(ext: &str) -> (language: Option<Language>)
        ensures
            language == extension_language(ext@),
    {
        if same_text(ext, "rs") {
            Some(Language::Rust)
        } else if same_text(ext, "py") || same_text(ext, "pyw") || same_text(ext, "pyi") {
            Some(Language::Python)
        } else if same_text(ext, "js") || same_text(ext, "mjs") || same_text(ext, "cjs")
            || same_text(ext, "jsx") {
            Some(Language::JavaScript)
        } else if same_text(ext, "ts") || same_text(ext, "mts") || same_text(ext, "cts")
            || same_text(ext, "tsx") {
            Some(Language::TypeScript)
        } else if same_text(ext, "c") || same_text(ext, "h") {
            Some(Language::C)
        } else if same_text(ext, "cpp") || same_text(ext, "cc") || same_text(ext, "cxx")
            || same_text(ext, "hpp") || same_text(ext, "hh") || same_text(ext, "hxx")
            || same_text(ext, "c++") {
            Some(Language::Cpp)
        } else if same_text(ext, "swift") {
            Some(Language::Swift)
        } else if same_text(ext, "go") {
            Some(Language::Go)
        } else if same_text(ext, "java") {
            Some(Language::Java)
        } else if same_text(ext, "rb") || same_text(ext, "rake") || same_text(ext, "gemspec") {
            Some(Language::Ruby)
        } else if same_text(ext, "php") || same_text(ext, "phtml") || same_text(ext, "php3")
            || same_text(ext, "php4") || same_text(ext, "php5") || same_text(ext, "php7")
            || same_text(ext, "phps") {
            Some(Language::Php)
        } else if same_text(ext, "kt") || same_text(ext, "kts") {
            Some(Language::Kotlin)
        } else if same_text(ext, "scala") || same_text(ext, "sc") {
            Some(Language::Scala)
        } else if same_text(ext, "hs") || same_text(ext, "lhs") {
            Some(Language::Haskell)
        } else if same_text(ext, "ex") || same_text(ext, "exs") {
            Some(Language::Elixir)
        } else if same_text(ext, "zig") {
            Some(Language::Zig)
        } else if same_text(ext, "html") || same_text(ext, "htm") {
            Some(Language::Html)
        } else if same_text(ext, "css") {
            Some(Language::Css)
        } else if same_text(ext, "md") || same_text(ext, "markdown") || same_text(ext, "mkd")
            || same_text(ext, "mkdn") {
            Some(Language::Markdown)
        } else if same_text(ext, "json") || same_text(ext, "jsonc") {
            Some(Language::Json)
        } else if same_text(ext, "yaml") || same_text(ext, "yml") {
            Some(Language::Yaml)
        } else if same_text(ext, "toml") {
            Some(Language::Toml)
        } else if same_text(ext, "xml") || same_text(ext, "xsl") || same_text(ext, "xsd")
            || same_text(ext, "svg") {
            Some(Language::Xml)
        } else if same_text(ext, "sh") || same_text(ext, "bash") || same_text(ext, "zsh") {
            Some(Language::Bash)
        } else if same_text(ext, "sql") || same_text(ext, "mysql") || same_text(ext, "pgsql") {
            Some(Language::Sql)
        } else {
            None
        }
    }

    /// Detects the language from a file name, in any letter case, for
    /// special files without an extension.
    pub fn from_filename(filename: &str) -> (language: Option<Language>)
        ensures
            language == filename_language(lowercase_of(filename@)),
    {
        let lower = to_lowercase(filename);
        Language::from_lowercase_filename(lower.as_str())
    }

    /// Detects the language from a file name that is already lowercase.
    pub fn from_lowercase_filename(filename: &str) -> (language: Option<Language>)
        ensures
            language == filename_language(filename@),
    {
        if same_text(filename, "dockerfile") || same_text(filename, "containerfile") {
            Some(Language::Dockerfile)
        } else if same_text(filename, "makefile") || same_text(filename, "gnumakefile") {
            Some(Language::Bash)
        } else if same_text(filename, "rakefile") || same_text(filename, "gemfile") {
            Some(Language::Ruby)
        } else {
            None
        }
    }

    /// The name of the language.
    pub fn name(self) -> (name: &'static str)
        ensures
            name@ == language_name(self),
    {
        match self {
            Language::Rust => "Rust",
            Language::Python => "Python",
            Language::JavaScript => "JavaScript",
            Language::TypeScript => "TypeScript",
            Language::C => "C",
            Language::Cpp => "Cpp",
            Language::Swift => "Swift",
            Language::Go => "Go",
            Language::Java => "Java",
            Language::Ruby => "Ruby",
            Language::Php => "Php",
            Language::Kotlin => "Kotlin",
            Language::Scala => "Scala",
            Language::Haskell => "Haskell",
            Language::Elixir => "Elixir",
            Language::Zig => "Zig",
            Language::Html => "Html",
            Language::Css => "Css",
            Language::Markdown => "Markdown",
            Language::Json => "Json",
            Language::Yaml => "Yaml",
            Language::Toml => "Toml",
            Language::Xml => "Xml",
            Language::Bash => "Bash",
            Language::Sql => "Sql",
            Language::Dockerfile => "Dockerfile",
        }
    }
}

} // verus!
