use syntax_highlight::language::Language;

#[test]
fn extension_of_each_language_is_detected() {
    assert_eq!(Language::from_extension("rs"), Some(Language::Rust));
    assert_eq!(Language::from_extension("py"), Some(Language::Python));
    assert_eq!(Language::from_extension("pyw"), Some(Language::Python));
    assert_eq!(Language::from_extension("pyi"), Some(Language::Python));
    assert_eq!(Language::from_extension("js"), Some(Language::JavaScript));
    assert_eq!(Language::from_extension("mjs"), Some(Language::JavaScript));
    assert_eq!(Language::from_extension("cjs"), Some(Language::JavaScript));
    assert_eq!(Language::from_extension("jsx"), Some(Language::JavaScript));
    assert_eq!(Language::from_extension("ts"), Some(Language::TypeScript));
    assert_eq!(Language::from_extension("mts"), Some(Language::TypeScript));
    assert_eq!(Language::from_extension("cts"), Some(Language::TypeScript));
    assert_eq!(Language::from_extension("tsx"), Some(Language::TypeScript));
    assert_eq!(Language::from_extension("c"), Some(Language::C));
    assert_eq!(Language::from_extension("h"), Some(Language::C));
    assert_eq!(Language::from_extension("cpp"), Some(Language::Cpp));
    assert_eq!(Language::from_extension("cc"), Some(Language::Cpp));
    assert_eq!(Language::from_extension("cxx"), Some(Language::Cpp));
    assert_eq!(Language::from_extension("hpp"), Some(Language::Cpp));
    assert_eq!(Language::from_extension("hh"), Some(Language::Cpp));
    assert_eq!(Language::from_extension("hxx"), Some(Language::Cpp));
    assert_eq!(Language::from_extension("c++"), Some(Language::Cpp));
    assert_eq!(Language::from_extension("swift"), Some(Language::Swift));
    assert_eq!(Language::from_extension("go"), Some(Language::Go));
    assert_eq!(Language::from_extension("java"), Some(Language::Java));
    assert_eq!(Language::from_extension("rb"), Some(Language::Ruby));
    assert_eq!(Language::from_extension("rake"), Some(Language::Ruby));
    assert_eq!(Language::from_extension("gemspec"), Some(Language::Ruby));
    assert_eq!(Language::from_extension("php"), Some(Language::Php));
    assert_eq!(Language::from_extension("phtml"), Some(Language::Php));
    assert_eq!(Language::from_extension("php3"), Some(Language::Php));
    assert_eq!(Language::from_extension("php4"), Some(Language::Php));
    assert_eq!(Language::from_extension("php5"), Some(Language::Php));
    assert_eq!(Language::from_extension("php7"), Some(Language::Php));
    assert_eq!(Language::from_extension("phps"), Some(Language::Php));
    assert_eq!(Language::from_extension("kt"), Some(Language::Kotlin));
    assert_eq!(Language::from_extension("kts"), Some(Language::Kotlin));
    assert_eq!(Language::from_extension("scala"), Some(Language::Scala));
    assert_eq!(Language::from_extension("sc"), Some(Language::Scala));
    assert_eq!(Language::from_extension("hs"), Some(Language::Haskell));
    assert_eq!(Language::from_extension("lhs"), Some(Language::Haskell));
    assert_eq!(Language::from_extension("ex"), Some(Language::Elixir));
    assert_eq!(Language::from_extension("exs"), Some(Language::Elixir));
    assert_eq!(Language::from_extension("zig"), Some(Language::Zig));
    assert_eq!(Language::from_extension("html"), Some(Language::Html));
    assert_eq!(Language::from_extension("htm"), Some(Language::Html));
    assert_eq!(Language::from_extension("css"), Some(Language::Css));
    assert_eq!(Language::from_extension("md"), Some(Language::Markdown));
    assert_eq!(Language::from_extension("markdown"), Some(Language::Markdown));
    assert_eq!(Language::from_extension("mkd"), Some(Language::Markdown));
    assert_eq!(Language::from_extension("mkdn"), Some(Language::Markdown));
    assert_eq!(Language::from_extension("json"), Some(Language::Json));
    assert_eq!(Language::from_extension("jsonc"), Some(Language::Json));
    assert_eq!(Language::from_extension("yaml"), Some(Language::Yaml));
    assert_eq!(Language::from_extension("yml"), Some(Language::Yaml));
    assert_eq!(Language::from_extension("toml"), Some(Language::Toml));
    assert_eq!(Language::from_extension("xml"), Some(Language::Xml));
    assert_eq!(Language::from_extension("xsl"), Some(Language::Xml));
    assert_eq!(Language::from_extension("xsd"), Some(Language::Xml));
    assert_eq!(Language::from_extension("svg"), Some(Language::Xml));
    assert_eq!(Language::from_extension("sh"), Some(Language::Bash));
    assert_eq!(Language::from_extension("bash"), Some(Language::Bash));
    assert_eq!(Language::from_extension("zsh"), Some(Language::Bash));
    assert_eq!(Language::from_extension("sql"), Some(Language::Sql));
    assert_eq!(Language::from_extension("mysql"), Some(Language::Sql));
    assert_eq!(Language::from_extension("pgsql"), Some(Language::Sql));
}

#[test]
fn extension_is_matched_in_any_letter_case() {
    assert_eq!(Language::from_extension("RS"), Some(Language::Rust));
    assert_eq!(Language::from_extension("Py"), Some(Language::Python));
    assert_eq!(Language::from_extension("JSON"), Some(Language::Json));
    assert_eq!(Language::from_extension("C++"), Some(Language::Cpp));
    assert_eq!(Language::from_extension("MarkDown"), Some(Language::Markdown));
}

#[test]
fn extension_is_lowercased_by_unicode_rules() {
    // The Kelvin sign lowercases to the letter k.
    assert_eq!(Language::from_extension("\u{212A}t"), Some(Language::Kotlin));
    assert_eq!(Language::from_lowercase_extension("\u{212A}t"), None);
}

#[test]
fn unknown_extension_is_not_detected() {
    assert_eq!(Language::from_extension(""), None);
    assert_eq!(Language::from_extension("txt"), None);
    assert_eq!(Language::from_extension(".rs"), None);
    assert_eq!(Language::from_extension("rs "), None);
    assert_eq!(Language::from_extension("dockerfile"), None);
}

#[test]
fn lowercase_extension_lookup_is_exact() {
    assert_eq!(Language::from_lowercase_extension("rs"), Some(Language::Rust));
    assert_eq!(Language::from_lowercase_extension("RS"), None);
    assert_eq!(Language::from_lowercase_extension("yml"), Some(Language::Yaml));
    assert_eq!(Language::from_lowercase_extension("Yml"), None);
}

#[test]
fn special_file_names_are_detected() {
    assert_eq!(Language::from_filename("dockerfile"), Some(Language::Dockerfile));
    assert_eq!(Language::from_filename("containerfile"), Some(Language::Dockerfile));
    assert_eq!(Language::from_filename("makefile"), Some(Language::Bash));
    assert_eq!(Language::from_filename("gnumakefile"), Some(Language::Bash));
    assert_eq!(Language::from_filename("rakefile"), Some(Language::Ruby));
    assert_eq!(Language::from_filename("gemfile"), Some(Language::Ruby));
}

#[test]
fn file_name_is_matched_in_any_letter_case() {
    assert_eq!(Language::from_filename("Dockerfile"), Some(Language::Dockerfile));
    assert_eq!(Language::from_filename("Makefile"), Some(Language::Bash));
    assert_eq!(Language::from_filename("GNUmakefile"), Some(Language::Bash));
    assert_eq!(Language::from_filename("GEMFILE"), Some(Language::Ruby));
    assert_eq!(Language::from_lowercase_filename("Makefile"), None);
    assert_eq!(Language::from_lowercase_filename("makefile"), Some(Language::Bash));
}

#[test]
fn other_file_names_are_not_detected() {
    assert_eq!(Language::from_filename(""), None);
    assert_eq!(Language::from_filename("main.rs"), None);
    assert_eq!(Language::from_filename("dockerfile.dev"), None);
    assert_eq!(Language::from_filename("rs"), None);
}

#[test]
fn language_name_is_the_variant_name() {
    assert_eq!(Language::Rust.name(), "Rust");
    assert_eq!(Language::JavaScript.name(), "JavaScript");
    assert_eq!(Language::Cpp.name(), "Cpp");
    assert_eq!(Language::Dockerfile.name(), "Dockerfile");
    assert_eq!(Language::Toml.name(), format!("{:?}", Language::Toml));
    assert_eq!(Language::TypeScript.name(), format!("{:?}", Language::TypeScript));
}
