[package]
name = "syntax_highlight"
version = "0.1.0"
edition = "2021"
publish = false

[dependencies]
tree-sitter = "=0.25.10"
tree-sitter-highlight = "=0.25.10"
tree-sitter-language = "=0.1.9"
tree-sitter-bash = "=0.25.1"
tree-sitter-c = "=0.24.2"
tree-sitter-cpp = "=0.23.4"
tree-sitter-css = "=0.25.0"
tree-sitter-dockerfile = "=0.2.0"
tree-sitter-elixir = "=0.3.5"
tree-sitter-go = "=0.25.0"
tree-sitter-haskell = "=0.24.1"
tree-sitter-html = "=0.23.2"
tree-sitter-java = "=0.23.5"
tree-sitter-javascript = "=0.25.0"
tree-sitter-json = "=0.24.8"
tree-sitter-kotlin = "=0.2.11"
tree-sitter-markdown = "=0.7.1"
tree-sitter-php = "=0.25.1"
tree-sitter-python = "=0.25.0"
tree-sitter-ruby = "=0.23.1"
tree-sitter-rust = "=0.24.2"
tree-sitter-scala = "=0.26.3"
tree-sitter-sql = "=0.0.2"
tree-sitter-swift = "=0.7.4"
tree-sitter-typescript = "=0.23.2"
tree-sitter-xml = "=0.7.0"
tree-sitter-yaml = "=0.7.2"
tree-sitter-zig = "=1.1.2"
