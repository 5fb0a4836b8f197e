//! The language registry: one metadata record per language.
//!
//! The record of a language sits at its ordinal ([`Language::ordinal`]); the
//! detector scans the records in this order, so an earlier record wins a tie.

use vstd::prelude::*;

use crate::category::LanguageCategory;
use crate::comment::{BlockComment, CommentStyle};
use crate::language::{Language, LANGUAGE_COUNT};
use crate::meta::{Color, Icon};
use crate::text::lower;

verus! {

/// Everything the detector and callers know about one language.
#[derive(Debug, Clone, Copy)]
pub struct LanguageInfo {
    pub language: Language,
    /// Machine name, lowercase, e.g. `"rust"`.
    pub canonical_name: &'static str,
    /// Human-facing name, e.g. `"Rust"`.
    pub display_name: &'static str,
    pub category: LanguageCategory,
    pub comments: CommentStyle,
    pub color: Option<Color>,
    pub icon: Option<Icon>,
    /// Exact file names that identify the language (case-sensitive).
    pub filenames: &'static [&'static str],
    /// Extensions without the dot (matched ignoring ASCII case).
    pub extensions: &'static [&'static str],
    /// Interpreter names that may follow `#!`.
    pub shebangs: &'static [&'static str],
    /// Lowercase alternative names accepted as tokens.
    pub aliases: &'static [&'static str],
}

/// The registry, in ordinal order.
#[verifier::opaque]
pub open spec fn registry() -> Seq<LanguageInfo> {
    seq![
        LanguageInfo {
            language: Language::RUST,
            canonical_name: "rust",
            display_name: "Rust",
            category: LanguageCategory::Code,
            comments: CommentStyle { line: &["//"], block: &[BlockComment { start: "/*", end: "*/" }] },
            color: Some(Color { r: 0xDE, g: 0xA5, b: 0x84 }),
            icon: Some(Icon { glyph: '\u{e7a8}', color: Some(Color { r: 0xDE, g: 0xA5, b: 0x84 }) }),
            filenames: &[],
            extensions: &["rs"],
            shebangs: &[],
            aliases: &["rs"],
        },
        LanguageInfo {
            language: Language::PYTHON,
            canonical_name: "python",
            display_name: "Python",
            category: LanguageCategory::Code,
            comments: CommentStyle { line: &["#"], block: &[] },
            color: Some(Color { r: 0x35, g: 0x72, b: 0xA5 }),
            icon: Some(Icon { glyph: '\u{e73c}', color: Some(Color { r: 0x35, g: 0x72, b: 0xA5 }) }),
            filenames: &[],
            extensions: &["py", "pyw", "pyi"],
            shebangs: &["python", "python2", "python3"],
            aliases: &["py", "python3"],
        },
        LanguageInfo {
            language: Language::MAKEFILE,
            canonical_name: "makefile",
            display_name: "Makefile",
            category: LanguageCategory::Build,
            comments: CommentStyle { line: &["#"], block: &[] },
            color: Some(Color { r: 0x42, g: 0x78, b: 0x19 }),
            icon: Some(Icon { glyph: '\u{e779}', color: Some(Color { r: 0x42, g: 0x78, b: 0x19 }) }),
            filenames: &["Makefile", "makefile", "GNUmakefile"],
            extensions: &["mk", "mak"],
            shebangs: &[],
            aliases: &["make"],
        },
        LanguageInfo {
            language: Language::SHELL,
            canonical_name: "shell",
            display_name: "Shell",
            category: LanguageCategory::Code,
            comments: CommentStyle { line: &["#"], block: &[] },
            color: Some(Color { r: 0x89, g: 0xE0, b: 0x51 }),
            icon: Some(Icon { glyph: '\u{f489}', color: Some(Color { r: 0x89, g: 0xE0, b: 0x51 }) }),
            filenames: &[".bashrc", ".bash_profile", ".zshrc", ".profile"],
            extensions: &["sh", "bash", "zsh"],
            shebangs: &["sh", "bash", "zsh", "dash", "ksh"],
            aliases: &["sh", "bash", "zsh"],
        },
        LanguageInfo {
            language: Language::JAVASCRIPT,
            canonical_name: "javascript",
            display_name: "JavaScript",
            category: LanguageCategory::Code,
            comments: CommentStyle { line: &["//"], block: &[BlockComment { start: "/*", end: "*/" }] },
            color: Some(Color { r: 0xF1, g: 0xE0, b: 0x5A }),
            icon: Some(Icon { glyph: '\u{e74e}', color: Some(Color { r: 0xF1, g: 0xE0, b: 0x5A }) }),
            filenames: &[],
            extensions: &["js", "mjs", "cjs", "jsx"],
            shebangs: &["node", "nodejs"],
            aliases: &["js", "node"],
        },
        LanguageInfo {
            language: Language::INI,
            canonical_name: "ini",
            display_name: "INI",
            category: LanguageCategory::Config,
            comments: CommentStyle { line: &[";", "#"], block: &[] },
            color: Some(Color { r: 0xD1, g: 0xDB, b: 0xE0 }),
            icon: Some(Icon { glyph: '\u{e615}', color: Some(Color { r: 0xD1, g: 0xDB, b: 0xE0 }) }),
            filenames: &["setup.cfg", "project.godot", "mimeapps.list", ".editorconfig"],
            extensions: &["ini"],
            shebangs: &[],
            aliases: &["dosini"],
        },
        LanguageInfo {
            language: Language::GIT_CONFIG,
            canonical_name: "git-config",
            display_name: "Git Config",
            category: LanguageCategory::Config,
            comments: CommentStyle { line: &["#", ";"], block: &[] },
            color: Some(Color { r: 0xF4, g: 0x4D, b: 0x27 }),
            icon: Some(Icon { glyph: '\u{e702}', color: Some(Color { r: 0xF4, g: 0x4D, b: 0x27 }) }),
            filenames: &[".gitconfig", ".gitmodules"],
            extensions: &[],
            shebangs: &[],
            aliases: &["gitconfig"],
        },
        LanguageInfo {
            language: Language::GIT_REBASE_TODO,
            canonical_name: "git-rebase-todo",
            display_name: "Git Rebase Todo",
            category: LanguageCategory::Config,
            comments: CommentStyle { line: &["#"], block: &[] },
            color: Some(Color { r: 0xF4, g: 0x4D, b: 0x27 }),
            icon: Some(Icon { glyph: '\u{e702}', color: Some(Color { r: 0xF4, g: 0x4D, b: 0x27 }) }),
            filenames: &["git-rebase-todo"],
            extensions: &[],
            shebangs: &[],
            aliases: &["git-rebase"],
        },
        LanguageInfo {
            language: Language::NGINX,
            canonical_name: "nginx",
            display_name: "Nginx",
            category: LanguageCategory::Config,
            comments: CommentStyle { line: &["#"], block: &[] },
            color: Some(Color { r: 0x00, g: 0x96, b: 0x39 }),
            icon: Some(Icon { glyph: '\u{e776}', color: Some(Color { r: 0x00, g: 0x96, b: 0x39 }) }),
            filenames: &["nginx.conf"],
            extensions: &[],
            shebangs: &[],
            aliases: &[],
        },
        LanguageInfo {
            language: Language::CRONTAB,
            canonical_name: "crontab",
            display_name: "Crontab",
            category: LanguageCategory::Config,
            comments: CommentStyle { line: &["#"], block: &[] },
            color: None,
            icon: None,
            filenames: &[],
            extensions: &[],
            shebangs: &[],
            aliases: &["cron"],
        },
        LanguageInfo {
            language: Language::MPD_CONFIG,
            canonical_name: "mpd-config",
            display_name: "MPD Config",
            category: LanguageCategory::Config,
            comments: CommentStyle { line: &["#"], block: &[] },
            color: None,
            icon: None,
            filenames: &[],
            extensions: &[],
            shebangs: &[],
            aliases: &["mpd"],
        },
        LanguageInfo {
            language: Language::TOML,
            canonical_name: "toml",
            display_name: "TOML",
            category: LanguageCategory::Config,
            comments: CommentStyle { line: &["#"], block: &[] },
            color: Some(Color { r: 0x9C, g: 0x42, b: 0x21 }),
            icon: Some(Icon { glyph: '\u{e6b2}', color: Some(Color { r: 0x9C, g: 0x42, b: 0x21 }) }),
            filenames: &[],
            extensions: &["toml"],
            shebangs: &[],
            aliases: &[],
        },
        LanguageInfo {
            language: Language::JSON,
            canonical_name: "json",
            display_name: "JSON",
            category: LanguageCategory::Data,
            comments: CommentStyle { line: &[], block: &[] },
            color: Some(Color { r: 0x29, g: 0x29, b: 0x29 }),
            icon: Some(Icon { glyph: '\u{e60b}', color: Some(Color { r: 0x29, g: 0x29, b: 0x29 }) }),
            filenames: &[],
            extensions: &["json"],
            shebangs: &[],
            aliases: &[],
        },
        LanguageInfo {
            language: Language::MARKDOWN,
            canonical_name: "markdown",
            display_name: "Markdown",
            category: LanguageCategory::Document,
            comments: CommentStyle { line: &[], block: &[BlockComment { start: "<!--", end: "-->" }] },
            color: Some(Color { r: 0x08, g: 0x3F, b: 0xA1 }),
            icon: Some(Icon { glyph: '\u{e73e}', color: Some(Color { r: 0x08, g: 0x3F, b: 0xA1 }) }),
            filenames: &[],
            extensions: &["md", "markdown"],
            shebangs: &[],
            aliases: &["md"],
        },
        LanguageInfo {
            language: Language::C,
            canonical_name: "c",
            display_name: "C",
            category: LanguageCategory::Code,
            comments: CommentStyle { line: &["//"], block: &[BlockComment { start: "/*", end: "*/" }] },
            color: Some(Color { r: 0x55, g: 0x55, b: 0x55 }),
            icon: Some(Icon { glyph: '\u{e61e}', color: Some(Color { r: 0x55, g: 0x55, b: 0x55 }) }),
            filenames: &[],
            extensions: &["c", "h"],
            shebangs: &[],
            aliases: &[],
        },
        LanguageInfo {
            language: Language::CPP,
            canonical_name: "cpp",
            display_name: "C++",
            category: LanguageCategory::Code,
            comments: CommentStyle { line: &["//"], block: &[BlockComment { start: "/*", end: "*/" }] },
            color: Some(Color { r: 0xF3, g: 0x4B, b: 0x7D }),
            icon: Some(Icon { glyph: '\u{e61d}', color: Some(Color { r: 0xF3, g: 0x4B, b: 0x7D }) }),
            filenames: &[],
            extensions: &["cpp", "cc", "cxx", "hpp", "hh", "hxx", "h"],
            shebangs: &[],
            aliases: &["c++"],
        },
        LanguageInfo {
            language: Language::GO,
            canonical_name: "go",
            display_name: "Go",
            category: LanguageCategory::Code,
            comments: CommentStyle { line: &["//"], block: &[BlockComment { start: "/*", end: "*/" }] },
            color: Some(Color { r: 0x00, g: 0xAD, b: 0xD8 }),
            icon: Some(Icon { glyph: '\u{e627}', color: Some(Color { r: 0x00, g: 0xAD, b: 0xD8 }) }),
            filenames: &[],
            extensions: &["go"],
            shebangs: &[],
            aliases: &["golang"],
        },
        LanguageInfo {
            language: Language::TYPESCRIPT,
            canonical_name: "typescript",
            display_name: "TypeScript",
            category: LanguageCategory::Code,
            comments: CommentStyle { line: &["//"], block: &[BlockComment { start: "/*", end: "*/" }] },
            color: Some(Color { r: 0x31, g: 0x78, b: 0xC6 }),
            icon: Some(Icon { glyph: '\u{e628}', color: Some(Color { r: 0x31, g: 0x78, b: 0xC6 }) }),
            filenames: &[],
            extensions: &["ts", "tsx", "mts", "cts"],
            shebangs: &["ts-node"],
            aliases: &["ts"],
        },
        LanguageInfo {
            language: Language::HTML,
            canonical_name: "html",
            display_name: "HTML",
            category: LanguageCategory::Markup,
            comments: CommentStyle { line: &[], block: &[BlockComment { start: "<!--", end: "-->" }] },
            color: Some(Color { r: 0xE3, g: 0x4C, b: 0x26 }),
            icon: Some(Icon { glyph: '\u{e736}', color: Some(Color { r: 0xE3, g: 0x4C, b: 0x26 }) }),
            filenames: &[],
            extensions: &["html", "htm"],
            shebangs: &[],
            aliases: &["xhtml"],
        },
        LanguageInfo {
            language: Language::CSS,
            canonical_name: "css",
            display_name: "CSS",
            category: LanguageCategory::Markup,
            comments: CommentStyle { line: &[], block: &[BlockComment { start: "/*", end: "*/" }] },
            color: Some(Color { r: 0x56, g: 0x3D, b: 0x7C }),
            icon: Some(Icon { glyph: '\u{e749}', color: Some(Color { r: 0x56, g: 0x3D, b: 0x7C }) }),
            filenames: &[],
            extensions: &["css"],
            shebangs: &[],
            aliases: &[],
        },
        LanguageInfo {
            language: Language::YAML,
            canonical_name: "yaml",
            display_name: "YAML",
            category: LanguageCategory::Data,
            comments: CommentStyle { line: &["#"], block: &[] },
            color: Some(Color { r: 0xCB, g: 0x17, b: 0x1E }),
            icon: Some(Icon { glyph: '\u{e6a8}', color: Some(Color { r: 0xCB, g: 0x17, b: 0x1E }) }),
            filenames: &[],
            extensions: &["yaml", "yml"],
            shebangs: &[],
            aliases: &["yml"],
        },
        LanguageInfo {
            language: Language::XML,
            canonical_name: "xml",
            display_name: "XML",
            category: LanguageCategory::Markup,
            comments: CommentStyle { line: &[], block: &[BlockComment { start: "<!--", end: "-->" }] },
            color: Some(Color { r: 0x00, g: 0x60, b: 0xAC }),
            icon: Some(Icon { glyph: '\u{e619}', color: Some(Color { r: 0x00, g: 0x60, b: 0xAC }) }),
            filenames: &[],
            extensions: &["xml", "xsd", "xsl"],
            shebangs: &[],
            aliases: &[],
        },
        LanguageInfo {
            language: Language::JAVA,
            canonical_name: "java",
            display_name: "Java",
            category: LanguageCategory::Code,
            comments: CommentStyle { line: &["//"], block: &[BlockComment { start: "/*", end: "*/" }] },
            color: Some(Color { r: 0xB0, g: 0x72, b: 0x19 }),
            icon: Some(Icon { glyph: '\u{e738}', color: Some(Color { r: 0xB0, g: 0x72, b: 0x19 }) }),
            filenames: &[],
            extensions: &["java"],
            shebangs: &[],
            aliases: &[],
        },
        LanguageInfo {
            language: Language::CSHARP,
            canonical_name: "csharp",
            display_name: "C#",
            category: LanguageCategory::Code,
            comments: CommentStyle { line: &["//"], block: &[BlockComment { start: "/*", end: "*/" }] },
            color: Some(Color { r: 0x17, g: 0x86, b: 0x00 }),
            icon: Some(Icon { glyph: '\u{e648}', color: Some(Color { r: 0x17, g: 0x86, b: 0x00 }) }),
            filenames: &[],
            extensions: &["cs", "csx"],
            shebangs: &[],
            aliases: &["cs", "c#"],
        },
        LanguageInfo {
            language: Language::RUBY,
            canonical_name: "ruby",
            display_name: "Ruby",
            category: LanguageCategory::Code,
            comments: CommentStyle { line: &["#"], block: &[BlockComment { start: "=begin", end: "=end" }] },
            color: Some(Color { r: 0x70, g: 0x15, b: 0x16 }),
            icon: Some(Icon { glyph: '\u{e739}', color: Some(Color { r: 0x70, g: 0x15, b: 0x16 }) }),
            filenames: &["Rakefile", "Gemfile"],
            extensions: &["rb", "rake", "gemspec"],
            shebangs: &["ruby"],
            aliases: &["rb"],
        },
        LanguageInfo {
            language: Language::PHP,
            canonical_name: "php",
            display_name: "PHP",
            category: LanguageCategory::Code,
            comments: CommentStyle { line: &["//", "#"], block: &[BlockComment { start: "/*", end: "*/" }] },
            color: Some(Color { r: 0x4F, g: 0x5D, b: 0x95 }),
            icon: Some(Icon { glyph: '\u{e73d}', color: Some(Color { r: 0x4F, g: 0x5D, b: 0x95 }) }),
            filenames: &[],
            extensions: &["php"],
            shebangs: &["php"],
            aliases: &[],
        },
        LanguageInfo {
            language: Language::LUA,
            canonical_name: "lua",
            display_name: "Lua",
            category: LanguageCategory::Code,
            comments: CommentStyle { line: &["--"], block: &[BlockComment { start: "--[[", end: "]]" }] },
            color: Some(Color { r: 0x00, g: 0x00, b: 0x80 }),
            icon: Some(Icon { glyph: '\u{e620}', color: Some(Color { r: 0x00, g: 0x00, b: 0x80 }) }),
            filenames: &[],
            extensions: &["lua"],
            shebangs: &["lua", "luajit"],
            aliases: &[],
        },
        LanguageInfo {
            language: Language::SQL,
            canonical_name: "sql",
            display_name: "SQL",
            category: LanguageCategory::Data,
            comments: CommentStyle { line: &["--"], block: &[BlockComment { start: "/*", end: "*/" }] },
            color: Some(Color { r: 0xE3, g: 0x8C, b: 0x00 }),
            icon: Some(Icon { glyph: '\u{e706}', color: Some(Color { r: 0xE3, g: 0x8C, b: 0x00 }) }),
            filenames: &[],
            extensions: &["sql"],
            shebangs: &[],
            aliases: &[],
        },
        LanguageInfo {
            language: Language::DOCKERFILE,
            canonical_name: "dockerfile",
            display_name: "Dockerfile",
            category: LanguageCategory::Build,
            comments: CommentStyle { line: &["#"], block: &[] },
            color: Some(Color { r: 0x38, g: 0x4D, b: 0x54 }),
            icon: Some(Icon { glyph: '\u{e7b0}', color: Some(Color { r: 0x38, g: 0x4D, b: 0x54 }) }),
            filenames: &["Dockerfile", "Containerfile"],
            extensions: &["dockerfile"],
            shebangs: &[],
            aliases: &["docker"],
        },
        LanguageInfo {
            language: Language::ZIG,
            canonical_name: "zig",
            display_name: "Zig",
            category: LanguageCategory::Code,
            comments: CommentStyle { line: &["//"], block: &[] },
            color: Some(Color { r: 0xEC, g: 0x91, b: 0x5C }),
            icon: Some(Icon { glyph: '\u{e6a9}', color: Some(Color { r: 0xEC, g: 0x91, b: 0x5C }) }),
            filenames: &[],
            extensions: &["zig"],
            shebangs: &[],
            aliases: &[],
        },
        LanguageInfo {
            language: Language::OXYGEN,
            canonical_name: "oxygen",
            display_name: "Oxygen",
            category: LanguageCategory::Dsl,
            comments: CommentStyle { line: &["//"], block: &[BlockComment { start: "/*", end: "*/" }] },
            color: None,
            icon: None,
            filenames: &[],
            extensions: &["oxy"],
            shebangs: &[],
            aliases: &[],
        },
        LanguageInfo {
            language: Language::VERILOG,
            canonical_name: "verilog",
            display_name: "Verilog",
            category: LanguageCategory::Code,
            comments: CommentStyle { line: &["//"], block: &[BlockComment { start: "/*", end: "*/" }] },
            color: Some(Color { r: 0xB2, g: 0xB7, b: 0xF8 }),
            icon: Some(Icon { glyph: '\u{f035b}', color: Some(Color { r: 0xB2, g: 0xB7, b: 0xF8 }) }),
            filenames: &[],
            extensions: &["v", "vh"],
            shebangs: &[],
            aliases: &[],
        },
        LanguageInfo {
            language: Language::SYSTEMVERILOG,
            canonical_name: "systemverilog",
            display_name: "SystemVerilog",
            category: LanguageCategory::Code,
            comments: CommentStyle { line: &["//"], block: &[BlockComment { start: "/*", end: "*/" }] },
            color: Some(Color { r: 0xDA, g: 0xE1, b: 0xC2 }),
            icon: Some(Icon { glyph: '\u{f035b}', color: Some(Color { r: 0xDA, g: 0xE1, b: 0xC2 }) }),
            filenames: &[],
            extensions: &["sv", "svh"],
            shebangs: &[],
            aliases: &["sv"],
        },
        LanguageInfo {
            language: Language::VHDL,
            canonical_name: "vhdl",
            display_name: "VHDL",
            category: LanguageCategory::Code,
            comments: CommentStyle { line: &["--"], block: &[] },
            color: Some(Color { r: 0xAD, g: 0xB2, b: 0xCB }),
            icon: Some(Icon { glyph: '\u{f035b}', color: Some(Color { r: 0xAD, g: 0xB2, b: 0xCB }) }),
            filenames: &[],
            extensions: &["vhd", "vhdl"],
            shebangs: &[],
            aliases: &[],
        },
        LanguageInfo {
            language: Language::BSV,
            canonical_name: "bsv",
            display_name: "Bluespec SystemVerilog",
            category: LanguageCategory::Code,
            comments: CommentStyle { line: &["//"], block: &[BlockComment { start: "/*", end: "*/" }] },
            color: Some(Color { r: 0x12, g: 0x22, b: 0x3C }),
            icon: None,
            filenames: &[],
            extensions: &["bsv"],
            shebangs: &[],
            aliases: &["bluespec"],
        },
        LanguageInfo {
            language: Language::BLUESPEC_HASKELL,
            canonical_name: "bluespec-haskell",
            display_name: "Bluespec Haskell",
            category: LanguageCategory::Code,
            comments: CommentStyle { line: &["--"], block: &[BlockComment { start: "{-", end: "-}" }] },
            color: Some(Color { r: 0x12, g: 0x22, b: 0x3C }),
            icon: None,
            filenames: &[],
            extensions: &["bs"],
            shebangs: &[],
            aliases: &["bh"],
        },
        LanguageInfo {
            language: Language::SDC,
            canonical_name: "sdc",
            display_name: "Synopsys Design Constraints",
            category: LanguageCategory::Dsl,
            comments: CommentStyle { line: &["#"], block: &[] },
            color: None,
            icon: None,
            filenames: &[],
            extensions: &["sdc", "xdc"],
            shebangs: &[],
            aliases: &["xdc"],
        },
        LanguageInfo {
            language: Language::OBJECTIVE_C,
            canonical_name: "objective-c",
            display_name: "Objective-C",
            category: LanguageCategory::Code,
            comments: CommentStyle { line: &["//"], block: &[BlockComment { start: "/*", end: "*/" }] },
            color: Some(Color { r: 0x43, g: 0x8E, b: 0xFF }),
            icon: Some(Icon { glyph: '\u{e61e}', color: Some(Color { r: 0x43, g: 0x8E, b: 0xFF }) }),
            filenames: &[],
            extensions: &["m", "h"],
            shebangs: &[],
            aliases: &["objc"],
        },
        LanguageInfo {
            language: Language::MATLAB,
            canonical_name: "matlab",
            display_name: "MATLAB",
            category: LanguageCategory::Code,
            comments: CommentStyle { line: &["%"], block: &[BlockComment { start: "%{", end: "%}" }] },
            color: Some(Color { r: 0xE1, g: 0x67, b: 0x37 }),
            icon: None,
            filenames: &[],
            extensions: &["m"],
            shebangs: &[],
            aliases: &[],
        },
        LanguageInfo {
            language: Language::PERL,
            canonical_name: "perl",
            display_name: "Perl",
            category: LanguageCategory::Code,
            comments: CommentStyle { line: &["#"], block: &[BlockComment { start: "=pod", end: "=cut" }] },
            color: Some(Color { r: 0x02, g: 0x98, b: 0xC3 }),
            icon: Some(Icon { glyph: '\u{e769}', color: Some(Color { r: 0x02, g: 0x98, b: 0xC3 }) }),
            filenames: &[],
            extensions: &["pl", "pm"],
            shebangs: &["perl"],
            aliases: &[],
        },
        LanguageInfo {
            language: Language::PROLOG,
            canonical_name: "prolog",
            display_name: "Prolog",
            category: LanguageCategory::Code,
            comments: CommentStyle { line: &["%"], block: &[BlockComment { start: "/*", end: "*/" }] },
            color: Some(Color { r: 0x74, g: 0x28, b: 0x3C }),
            icon: None,
            filenames: &[],
            extensions: &["pl", "pro"],
            shebangs: &[],
            aliases: &[],
        },
        LanguageInfo {
            language: Language::R,
            canonical_name: "r",
            display_name: "R",
            category: LanguageCategory::Code,
            comments: CommentStyle { line: &["#"], block: &[] },
            color: Some(Color { r: 0x19, g: 0x8C, b: 0xE7 }),
            icon: Some(Icon { glyph: '\u{f07d4}', color: Some(Color { r: 0x19, g: 0x8C, b: 0xE7 }) }),
            filenames: &[],
            extensions: &["r"],
            shebangs: &["Rscript"],
            aliases: &["rscript"],
        },
        LanguageInfo {
            language: Language::REBOL,
            canonical_name: "rebol",
            display_name: "Rebol",
            category: LanguageCategory::Code,
            comments: CommentStyle { line: &[";"], block: &[] },
            color: Some(Color { r: 0x35, g: 0x8A, b: 0x5B }),
            icon: None,
            filenames: &[],
            extensions: &["r", "reb"],
            shebangs: &[],
            aliases: &[],
        },
        LanguageInfo {
            language: Language::FSHARP,
            canonical_name: "fsharp",
            display_name: "F#",
            category: LanguageCategory::Code,
            comments: CommentStyle { line: &["//"], block: &[BlockComment { start: "(*", end: "*)" }] },
            color: Some(Color { r: 0xB8, g: 0x45, b: 0xFC }),
            icon: Some(Icon { glyph: '\u{e7a7}', color: Some(Color { r: 0xB8, g: 0x45, b: 0xFC }) }),
            filenames: &[],
            extensions: &["fs", "fsi", "fsx"],
            shebangs: &[],
            aliases: &["f#"],
        },
        LanguageInfo {
            language: Language::FORTH,
            canonical_name: "forth",
            display_name: "Forth",
            category: LanguageCategory::Code,
            comments: CommentStyle { line: &["\\"], block: &[BlockComment { start: "(", end: ")" }] },
            color: Some(Color { r: 0x34, g: 0x17, b: 0x08 }),
            icon: None,
            filenames: &[],
            extensions: &["fth", "4th", "fs"],
            shebangs: &[],
            aliases: &[],
        },
    ]
}

/// The record at position `i` of the registry.
pub open spec fn info_at(i: int) -> LanguageInfo {
    registry()[i]
}

/// The registry holds one record per language, and the record at position
/// `i` is the record of the language whose ordinal is `i`.
pub proof fn registry_is_indexed_by_ordinal()
    ensures
        registry().len() == LANGUAGE_COUNT,
        forall|i: int|
            0 <= i < registry().len() ==> (#[trigger] registry()[i]).language.ordinal() == i,
{
    reveal(registry);
}

/// Tells the registry's canonical names apart by their length, first and
/// last character; -1 for any other text.
spec fn name_index(s: Seq<char>) -> int {
    if s.len() == 4 && s[0] == 'r' && s.last() == 't' {
        0
    } else if s.len() == 6 && s[0] == 'p' && s.last() == 'n' {
        1
    } else if s.len() == 8 && s[0] == 'm' && s.last() == 'e' {
        2
    } else if s.len() == 5 && s[0] == 's' && s.last() == 'l' {
        3
    } else if s.len() == 10 && s[0] == 'j' && s.last() == 't' {
        4
    } else if s.len() == 3 && s[0] == 'i' && s.last() == 'i' {
        5
    } else if s.len() == 10 && s[0] == 'g' && s.last() == 'g' {
        6
    } else if s.len() == 15 && s[0] == 'g' && s.last() == 'o' {
        7
    } else if s.len() == 5 && s[0] == 'n' && s.last() == 'x' {
        8
    } else if s.len() == 7 && s[0] == 'c' && s.last() == 'b' {
        9
    } else if s.len() == 10 && s[0] == 'm' && s.last() == 'g' {
        10
    } else if s.len() == 4 && s[0] == 't' && s.last() == 'l' {
        11
    } else if s.len() == 4 && s[0] == 'j' && s.last() == 'n' {
        12
    } else if s.len() == 8 && s[0] == 'm' && s.last() == 'n' {
        13
    } else if s.len() == 1 && s[0] == 'c' && s.last() == 'c' {
        14
    } else if s.len() == 3 && s[0] == 'c' && s.last() == 'p' {
        15
    } else if s.len() == 2 && s[0] == 'g' && s.last() == 'o' {
        16
    } else if s.len() == 10 && s[0] == 't' && s.last() == 't' {
        17
    } else if s.len() == 4 && s[0] == 'h' && s.last() == 'l' {
        18
    } else if s.len() == 3 && s[0] == 'c' && s.last() == 's' {
        19
    } else if s.len() == 4 && s[0] == 'y' && s.last() == 'l' {
        20
    } else if s.len() == 3 && s[0] == 'x' && s.last() == 'l' {
        21
    } else if s.len() == 4 && s[0] == 'j' && s.last() == 'a' {
        22
    } else if s.len() == 6 && s[0] == 'c' && s.last() == 'p' {
        23
    } else if s.len() == 4 && s[0] == 'r' && s.last() == 'y' {
        24
    } else if s.len() == 3 && s[0] == 'p' && s.last() == 'p' {
        25
    } else if s.len() == 3 && s[0] == 'l' && s.last() == 'a' {
        26
    } else if s.len() == 3 && s[0] == 's' && s.last() == 'l' {
        27
    } else if s.len() == 10 && s[0] == 'd' && s.last() == 'e' {
        28
    } else if s.len() == 3 && s[0] == 'z' && s.last() == 'g' {
        29
    } else if s.len() == 6 && s[0] == 'o' && s.last() == 'n' {
        30
    } else if s.len() == 7 && s[0] == 'v' && s.last() == 'g' {
        31
    } else if s.len() == 13 && s[0] == 's' && s.last() == 'g' {
        32
    } else if s.len() == 4 && s[0] == 'v' && s.last() == 'l' {
        33
    } else if s.len() == 3 && s[0] == 'b' && s.last() == 'v' {
        34
    } else if s.len() == 16 && s[0] == 'b' && s.last() == 'l' {
        35
    } else if s.len() == 3 && s[0] == 's' && s.last() == 'c' {
        36
    } else if s.len() == 11 && s[0] == 'o' && s.last() == 'c' {
        37
    } else if s.len() == 6 && s[0] == 'm' && s.last() == 'b' {
        38
    } else if s.len() == 4 && s[0] == 'p' && s.last() == 'l' {
        39
    } else if s.len() == 6 && s[0] == 'p' && s.last() == 'g' {
        40
    } else if s.len() == 1 && s[0] == 'r' && s.last() == 'r' {
        41
    } else if s.len() == 5 && s[0] == 'r' && s.last() == 'l' {
        42
    } else if s.len() == 6 && s[0] == 'f' && s.last() == 'p' {
        43
    } else if s.len() == 5 && s[0] == 'f' && s.last() == 'h' {
        44
    } else {
        -1
    }
}

proof fn lemma_name_index()
    ensures
        forall|i: int|
            0 <= i < registry().len() ==> name_index((#[trigger] registry()[i]).canonical_name@)
                == i,
{
    reveal(registry);
    reveal_strlit("rust");
    reveal_strlit("python");
    reveal_strlit("makefile");
    reveal_strlit("shell");
    reveal_strlit("javascript");
    reveal_strlit("ini");
    reveal_strlit("git-config");
    reveal_strlit("git-rebase-todo");
    reveal_strlit("nginx");
    reveal_strlit("crontab");
    reveal_strlit("mpd-config");
    reveal_strlit("toml");
    reveal_strlit("json");
    reveal_strlit("markdown");
    reveal_strlit("c");
    reveal_strlit("cpp");
    reveal_strlit("go");
    reveal_strlit("typescript");
    reveal_strlit("html");
    reveal_strlit("css");
    reveal_strlit("yaml");
    reveal_strlit("xml");
    reveal_strlit("java");
    reveal_strlit("csharp");
    reveal_strlit("ruby");
    reveal_strlit("php");
    reveal_strlit("lua");
    reveal_strlit("sql");
    reveal_strlit("dockerfile");
    reveal_strlit("zig");
    reveal_strlit("oxygen");
    reveal_strlit("verilog");
    reveal_strlit("systemverilog");
    reveal_strlit("vhdl");
    reveal_strlit("bsv");
    reveal_strlit("bluespec-haskell");
    reveal_strlit("sdc");
    reveal_strlit("objective-c");
    reveal_strlit("matlab");
    reveal_strlit("perl");
    reveal_strlit("prolog");
    reveal_strlit("r");
    reveal_strlit("rebol");
    reveal_strlit("fsharp");
    reveal_strlit("forth");
    assert forall|i: int| 0 <= i < registry().len() implies name_index(
        (#[trigger] registry()[i]).canonical_name@,
    ) == i by {
        if i == 0 {
        } else if i == 1 {
        } else if i == 2 {
        } else if i == 3 {
        } else if i == 4 {
        } else if i == 5 {
        } else if i == 6 {
        } else if i == 7 {
        } else if i == 8 {
        } else if i == 9 {
        } else if i == 10 {
        } else if i == 11 {
        } else if i == 12 {
        } else if i == 13 {
        } else if i == 14 {
        } else if i == 15 {
        } else if i == 16 {
        } else if i == 17 {
        } else if i == 18 {
        } else if i == 19 {
        } else if i == 20 {
        } else if i == 21 {
        } else if i == 22 {
        } else if i == 23 {
        } else if i == 24 {
        } else if i == 25 {
        } else if i == 26 {
        } else if i == 27 {
        } else if i == 28 {
        } else if i == 29 {
        } else if i == 30 {
        } else if i == 31 {
        } else if i == 32 {
        } else if i == 33 {
        } else if i == 34 {
        } else if i == 35 {
        } else if i == 36 {
        } else if i == 37 {
        } else if i == 38 {
        } else if i == 39 {
        } else if i == 40 {
        } else if i == 41 {
        } else if i == 42 {
        } else if i == 43 {
        } else if i == 44 {
        }
    }
}

/// No two records share a canonical name.
pub proof fn canonical_names_are_unique()
    ensures
        forall|i: int, j: int|
            0 <= i < registry().len() && 0 <= j < registry().len() && i != j ==> (#[trigger] registry()[i]).canonical_name@
                != (#[trigger] registry()[j]).canonical_name@,
{
    lemma_name_index();
}

/// Every canonical name is lowercase.
pub proof fn canonical_names_are_lowercase()
    ensures
        forall|i: int|
            0 <= i < registry().len() ==> lower((#[trigger] registry()[i]).canonical_name@)
                == registry()[i].canonical_name@,
{
    reveal(registry);
    reveal_strlit("rust");
    reveal_strlit("python");
    reveal_strlit("makefile");
    reveal_strlit("shell");
    reveal_strlit("javascript");
    reveal_strlit("ini");
    reveal_strlit("git-config");
    reveal_strlit("git-rebase-todo");
    reveal_strlit("nginx");
    reveal_strlit("crontab");
    reveal_strlit("mpd-config");
    reveal_strlit("toml");
    reveal_strlit("json");
    reveal_strlit("markdown");
    reveal_strlit("c");
    reveal_strlit("cpp");
    reveal_strlit("go");
    reveal_strlit("typescript");
    reveal_strlit("html");
    reveal_strlit("css");
    reveal_strlit("yaml");
    reveal_strlit("xml");
    reveal_strlit("java");
    reveal_strlit("csharp");
    reveal_strlit("ruby");
    reveal_strlit("php");
    reveal_strlit("lua");
    reveal_strlit("sql");
    reveal_strlit("dockerfile");
    reveal_strlit("zig");
    reveal_strlit("oxygen");
    reveal_strlit("verilog");
    reveal_strlit("systemverilog");
    reveal_strlit("vhdl");
    reveal_strlit("bsv");
    reveal_strlit("bluespec-haskell");
    reveal_strlit("sdc");
    reveal_strlit("objective-c");
    reveal_strlit("matlab");
    reveal_strlit("perl");
    reveal_strlit("prolog");
    reveal_strlit("r");
    reveal_strlit("rebol");
    reveal_strlit("fsharp");
    reveal_strlit("forth");
    assert forall|i: int| 0 <= i < registry().len() implies lower(
        (#[trigger] registry()[i]).canonical_name@,
    ) == registry()[i].canonical_name@ by {
        assert(lower(registry()[i].canonical_name@) =~= registry()[i].canonical_name@);
    }
}

/// No alias of any record is the canonical name of a record.
pub proof fn aliases_are_not_canonical_names()
    ensures
        forall|i: int, m: int, j: int|
            0 <= i < registry().len() && 0 <= m < registry()[i].aliases@.len() && 0 <= j
                < registry().len() ==> (#[trigger] registry()[i].aliases@[m])@
                != (#[trigger] registry()[j]).canonical_name@,
{
    lemma_name_index();
    reveal(registry);
    reveal_strlit("bash");
    reveal_strlit("bh");
    reveal_strlit("bluespec");
    reveal_strlit("c#");
    reveal_strlit("c++");
    reveal_strlit("cron");
    reveal_strlit("cs");
    reveal_strlit("docker");
    reveal_strlit("dosini");
    reveal_strlit("f#");
    reveal_strlit("git-rebase");
    reveal_strlit("gitconfig");
    reveal_strlit("golang");
    reveal_strlit("js");
    reveal_strlit("make");
    reveal_strlit("md");
    reveal_strlit("mpd");
    reveal_strlit("node");
    reveal_strlit("objc");
    reveal_strlit("py");
    reveal_strlit("python3");
    reveal_strlit("rb");
    reveal_strlit("rs");
    reveal_strlit("rscript");
    reveal_strlit("sh");
    reveal_strlit("sv");
    reveal_strlit("ts");
    reveal_strlit("xdc");
    reveal_strlit("xhtml");
    reveal_strlit("yml");
    reveal_strlit("zsh");
    assert forall|i: int| #![trigger registry()[i]] 0 <= i < registry().len() implies forall|m: int|
        0 <= m < registry()[i].aliases@.len() ==> name_index(
            (#[trigger] registry()[i].aliases@[m])@,
        ) == -1 by {
        if i == 0 {
            assert forall|m: int| 0 <= m < registry()[i].aliases@.len() implies name_index(
                (#[trigger] registry()[i].aliases@[m])@,
            ) == -1 by {
                if m == 0 {
                }
            }
        } else if i == 1 {
            assert forall|m: int| 0 <= m < registry()[i].aliases@.len() implies name_index(
                (#[trigger] registry()[i].aliases@[m])@,
            ) == -1 by {
                if m == 0 {
                } else if m == 1 {
                }
            }
        } else if i == 2 {
            assert forall|m: int| 0 <= m < registry()[i].aliases@.len() implies name_index(
                (#[trigger] registry()[i].aliases@[m])@,
            ) == -1 by {
                if m == 0 {
                }
            }
        } else if i == 3 {
            assert forall|m: int| 0 <= m < registry()[i].aliases@.len() implies name_index(
                (#[trigger] registry()[i].aliases@[m])@,
            ) == -1 by {
                if m == 0 {
                } else if m == 1 {
                } else if m == 2 {
                }
            }
        } else if i == 4 {
            assert forall|m: int| 0 <= m < registry()[i].aliases@.len() implies name_index(
                (#[trigger] registry()[i].aliases@[m])@,
            ) == -1 by {
                if m == 0 {
                } else if m == 1 {
                }
            }
        } else if i == 5 {
            assert forall|m: int| 0 <= m < registry()[i].aliases@.len() implies name_index(
                (#[trigger] registry()[i].aliases@[m])@,
            ) == -1 by {
                if m == 0 {
                }
            }
        } else if i == 6 {
            assert forall|m: int| 0 <= m < registry()[i].aliases@.len() implies name_index(
                (#[trigger] registry()[i].aliases@[m])@,
            ) == -1 by {
                if m == 0 {
                }
            }
        } else if i == 7 {
            assert forall|m: int| 0 <= m < registry()[i].aliases@.len() implies name_index(
                (#[trigger] registry()[i].aliases@[m])@,
            ) == -1 by {
                if m == 0 {
                }
            }
        } else if i == 8 {
            assert forall|m: int| 0 <= m < registry()[i].aliases@.len() implies name_index(
                (#[trigger] registry()[i].aliases@[m])@,
            ) == -1 by {}
        } else if i == 9 {
            assert forall|m: int| 0 <= m < registry()[i].aliases@.len() implies name_index(
                (#[trigger] registry()[i].aliases@[m])@,
            ) == -1 by {
                if m == 0 {
                }
            }
        } else if i == 10 {
            assert forall|m: int| 0 <= m < registry()[i].aliases@.len() implies name_index(
                (#[trigger] registry()[i].aliases@[m])@,
            ) == -1 by {
                if m == 0 {
                }
            }
        } else if i == 11 {
            assert forall|m: int| 0 <= m < registry()[i].aliases@.len() implies name_index(
                (#[trigger] registry()[i].aliases@[m])@,
            ) == -1 by {}
        } else if i == 12 {
            assert forall|m: int| 0 <= m < registry()[i].aliases@.len() implies name_index(
                (#[trigger] registry()[i].aliases@[m])@,
            ) == -1 by {}
        } else if i == 13 {
            assert forall|m: int| 0 <= m < registry()[i].aliases@.len() implies name_index(
                (#[trigger] registry()[i].aliases@[m])@,
            ) == -1 by {
                if m == 0 {
                }
            }
        } else if i == 14 {
            assert forall|m: int| 0 <= m < registry()[i].aliases@.len() implies name_index(
                (#[trigger] registry()[i].aliases@[m])@,
            ) == -1 by {}
        } else if i == 15 {
            assert forall|m: int| 0 <= m < registry()[i].aliases@.len() implies name_index(
                (#[trigger] registry()[i].aliases@[m])@,
            ) == -1 by {
                if m == 0 {
                }
            }
        } else if i == 16 {
            assert forall|m: int| 0 <= m < registry()[i].aliases@.len() implies name_index(
                (#[trigger] registry()[i].aliases@[m])@,
            ) == -1 by {
                if m == 0 {
                }
            }
        } else if i == 17 {
            assert forall|m: int| 0 <= m < registry()[i].aliases@.len() implies name_index(
                (#[trigger] registry()[i].aliases@[m])@,
            ) == -1 by {
                if m == 0 {
                }
            }
        } else if i == 18 {
            assert forall|m: int| 0 <= m < registry()[i].aliases@.len() implies name_index(
                (#[trigger] registry()[i].aliases@[m])@,
            ) == -1 by {
                if m == 0 {
                }
            }
        } else if i == 19 {
            assert forall|m: int| 0 <= m < registry()[i].aliases@.len() implies name_index(
                (#[trigger] registry()[i].aliases@[m])@,
            ) == -1 by {}
        } else if i == 20 {
            assert forall|m: int| 0 <= m < registry()[i].aliases@.len() implies name_index(
                (#[trigger] registry()[i].aliases@[m])@,
            ) == -1 by {
                if m == 0 {
                }
            }
        } else if i == 21 {
            assert forall|m: int| 0 <= m < registry()[i].aliases@.len() implies name_index(
                (#[trigger] registry()[i].aliases@[m])@,
            ) == -1 by {}
        } else if i == 22 {
            assert forall|m: int| 0 <= m < registry()[i].aliases@.len() implies name_index(
                (#[trigger] registry()[i].aliases@[m])@,
            ) == -1 by {}
        } else if i == 23 {
            assert forall|m: int| 0 <= m < registry()[i].aliases@.len() implies name_index(
                (#[trigger] registry()[i].aliases@[m])@,
            ) == -1 by {
                if m == 0 {
                } else if m == 1 {
                }
            }
        } else if i == 24 {
            assert forall|m: int| 0 <= m < registry()[i].aliases@.len() implies name_index(
                (#[trigger] registry()[i].aliases@[m])@,
            ) == -1 by {
                if m == 0 {
                }
            }
        } else if i == 25 {
            assert forall|m: int| 0 <= m < registry()[i].aliases@.len() implies name_index(
                (#[trigger] registry()[i].aliases@[m])@,
            ) == -1 by {}
        } else if i == 26 {
            assert forall|m: int| 0 <= m < registry()[i].aliases@.len() implies name_index(
                (#[trigger] registry()[i].aliases@[m])@,
            ) == -1 by {}
        } else if i == 27 {
            assert forall|m: int| 0 <= m < registry()[i].aliases@.len() implies name_index(
                (#[trigger] registry()[i].aliases@[m])@,
            ) == -1 by {}
        } else if i == 28 {
            assert forall|m: int| 0 <= m < registry()[i].aliases@.len() implies name_index(
                (#[trigger] registry()[i].aliases@[m])@,
            ) == -1 by {
                if m == 0 {
                }
            }
        } else if i == 29 {
            assert forall|m: int| 0 <= m < registry()[i].aliases@.len() implies name_index(
                (#[trigger] registry()[i].aliases@[m])@,
            ) == -1 by {}
        } else if i == 30 {
            assert forall|m: int| 0 <= m < registry()[i].aliases@.len() implies name_index(
                (#[trigger] registry()[i].aliases@[m])@,
            ) == -1 by {}
        } else if i == 31 {
            assert forall|m: int| 0 <= m < registry()[i].aliases@.len() implies name_index(
                (#[trigger] registry()[i].aliases@[m])@,
            ) == -1 by {}
        } else if i == 32 {
            assert forall|m: int| 0 <= m < registry()[i].aliases@.len() implies name_index(
                (#[trigger] registry()[i].aliases@[m])@,
            ) == -1 by {
                if m == 0 {
                }
            }
        } else if i == 33 {
            assert forall|m: int| 0 <= m < registry()[i].aliases@.len() implies name_index(
                (#[trigger] registry()[i].aliases@[m])@,
            ) == -1 by {}
        } else if i == 34 {
            assert forall|m: int| 0 <= m < registry()[i].aliases@.len() implies name_index(
                (#[trigger] registry()[i].aliases@[m])@,
            ) == -1 by {
                if m == 0 {
                }
            }
        } else if i == 35 {
            assert forall|m: int| 0 <= m < registry()[i].aliases@.len() implies name_index(
                (#[trigger] registry()[i].aliases@[m])@,
            ) == -1 by {
                if m == 0 {
                }
            }
        } else if i == 36 {
            assert forall|m: int| 0 <= m < registry()[i].aliases@.len() implies name_index(
                (#[trigger] registry()[i].aliases@[m])@,
            ) == -1 by {
                if m == 0 {
                }
            }
        } else if i == 37 {
            assert forall|m: int| 0 <= m < registry()[i].aliases@.len() implies name_index(
                (#[trigger] registry()[i].aliases@[m])@,
            ) == -1 by {
                if m == 0 {
                }
            }
        } else if i == 38 {
            assert forall|m: int| 0 <= m < registry()[i].aliases@.len() implies name_index(
                (#[trigger] registry()[i].aliases@[m])@,
            ) == -1 by {}
        } else if i == 39 {
            assert forall|m: int| 0 <= m < registry()[i].aliases@.len() implies name_index(
                (#[trigger] registry()[i].aliases@[m])@,
            ) == -1 by {}
        } else if i == 40 {
            assert forall|m: int| 0 <= m < registry()[i].aliases@.len() implies name_index(
                (#[trigger] registry()[i].aliases@[m])@,
            ) == -1 by {}
        } else if i == 41 {
            assert forall|m: int| 0 <= m < registry()[i].aliases@.len() implies name_index(
                (#[trigger] registry()[i].aliases@[m])@,
            ) == -1 by {
                if m == 0 {
                }
            }
        } else if i == 42 {
            assert forall|m: int| 0 <= m < registry()[i].aliases@.len() implies name_index(
                (#[trigger] registry()[i].aliases@[m])@,
            ) == -1 by {}
        } else if i == 43 {
            assert forall|m: int| 0 <= m < registry()[i].aliases@.len() implies name_index(
                (#[trigger] registry()[i].aliases@[m])@,
            ) == -1 by {
                if m == 0 {
                }
            }
        } else if i == 44 {
            assert forall|m: int| 0 <= m < registry()[i].aliases@.len() implies name_index(
                (#[trigger] registry()[i].aliases@[m])@,
            ) == -1 by {}
        }
    }
}

/// All known languages and their metadata, in ordinal order.
pub fn languages() -> (r: &'static [LanguageInfo])
    ensures
        r@ == registry(),
{
    let r: &'static [LanguageInfo] = &[
        LanguageInfo {
            language: Language::RUST,
            canonical_name: "rust",
            display_name: "Rust",
            category: LanguageCategory::Code,
            comments: CommentStyle { line: &["//"], block: &[BlockComment { start: "/*", end: "*/" }] },
            color: Some(Color { r: 0xDE, g: 0xA5, b: 0x84 }),
            icon: Some(Icon { glyph: '\u{e7a8}', color: Some(Color { r: 0xDE, g: 0xA5, b: 0x84 }) }),
            filenames: &[],
            extensions: &["rs"],
            shebangs: &[],
            aliases: &["rs"],
        },
        LanguageInfo {
            language: Language::PYTHON,
            canonical_name: "python",
            display_name: "Python",
            category: LanguageCategory::Code,
            comments: CommentStyle { line: &["#"], block: &[] },
            color: Some(Color { r: 0x35, g: 0x72, b: 0xA5 }),
            icon: Some(Icon { glyph: '\u{e73c}', color: Some(Color { r: 0x35, g: 0x72, b: 0xA5 }) }),
            filenames: &[],
            extensions: &["py", "pyw", "pyi"],
            shebangs: &["python", "python2", "python3"],
            aliases: &["py", "python3"],
        },
        LanguageInfo {
            language: Language::MAKEFILE,
            canonical_name: "makefile",
            display_name: "Makefile",
            category: LanguageCategory::Build,
            comments: CommentStyle { line: &["#"], block: &[] },
            color: Some(Color { r: 0x42, g: 0x78, b: 0x19 }),
            icon: Some(Icon { glyph: '\u{e779}', color: Some(Color { r: 0x42, g: 0x78, b: 0x19 }) }),
            filenames: &["Makefile", "makefile", "GNUmakefile"],
            extensions: &["mk", "mak"],
            shebangs: &[],
            aliases: &["make"],
        },
        LanguageInfo {
            language: Language::SHELL,
            canonical_name: "shell",
            display_name: "Shell",
            category: LanguageCategory::Code,
            comments: CommentStyle { line: &["#"], block: &[] },
            color: Some(Color { r: 0x89, g: 0xE0, b: 0x51 }),
            icon: Some(Icon { glyph: '\u{f489}', color: Some(Color { r: 0x89, g: 0xE0, b: 0x51 }) }),
            filenames: &[".bashrc", ".bash_profile", ".zshrc", ".profile"],
            extensions: &["sh", "bash", "zsh"],
            shebangs: &["sh", "bash", "zsh", "dash", "ksh"],
            aliases: &["sh", "bash", "zsh"],
        },
        LanguageInfo {
            language: Language::JAVASCRIPT,
            canonical_name: "javascript",
            display_name: "JavaScript",
            category: LanguageCategory::Code,
            comments: CommentStyle { line: &["//"], block: &[BlockComment { start: "/*", end: "*/" }] },
            color: Some(Color { r: 0xF1, g: 0xE0, b: 0x5A }),
            icon: Some(Icon { glyph: '\u{e74e}', color: Some(Color { r: 0xF1, g: 0xE0, b: 0x5A }) }),
            filenames: &[],
            extensions: &["js", "mjs", "cjs", "jsx"],
            shebangs: &["node", "nodejs"],
            aliases: &["js", "node"],
        },
        LanguageInfo {
            language: Language::INI,
            canonical_name: "ini",
            display_name: "INI",
            category: LanguageCategory::Config,
            comments: CommentStyle { line: &[";", "#"], block: &[] },
            color: Some(Color { r: 0xD1, g: 0xDB, b: 0xE0 }),
            icon: Some(Icon { glyph: '\u{e615}', color: Some(Color { r: 0xD1, g: 0xDB, b: 0xE0 }) }),
            filenames: &["setup.cfg", "project.godot", "mimeapps.list", ".editorconfig"],
            extensions: &["ini"],
            shebangs: &[],
            aliases: &["dosini"],
        },
        LanguageInfo {
            language: Language::GIT_CONFIG,
            canonical_name: "git-config",
            display_name: "Git Config",
            category: LanguageCategory::Config,
            comments: CommentStyle { line: &["#", ";"], block: &[] },
            color: Some(Color { r: 0xF4, g: 0x4D, b: 0x27 }),
            icon: Some(Icon { glyph: '\u{e702}', color: Some(Color { r: 0xF4, g: 0x4D, b: 0x27 }) }),
            filenames: &[".gitconfig", ".gitmodules"],
            extensions: &[],
            shebangs: &[],
            aliases: &["gitconfig"],
        },
        LanguageInfo {
            language: Language::GIT_REBASE_TODO,
            canonical_name: "git-rebase-todo",
            display_name: "Git Rebase Todo",
            category: LanguageCategory::Config,
            comments: CommentStyle { line: &["#"], block: &[] },
            color: Some(Color { r: 0xF4, g: 0x4D, b: 0x27 }),
            icon: Some(Icon { glyph: '\u{e702}', color: Some(Color { r: 0xF4, g: 0x4D, b: 0x27 }) }),
            filenames: &["git-rebase-todo"],
            extensions: &[],
            shebangs: &[],
            aliases: &["git-rebase"],
        },
        LanguageInfo {
            language: Language::NGINX,
            canonical_name: "nginx",
            display_name: "Nginx",
            category: LanguageCategory::Config,
            comments: CommentStyle { line: &["#"], block: &[] },
            color: Some(Color { r: 0x00, g: 0x96, b: 0x39 }),
            icon: Some(Icon { glyph: '\u{e776}', color: Some(Color { r: 0x00, g: 0x96, b: 0x39 }) }),
            filenames: &["nginx.conf"],
            extensions: &[],
            shebangs: &[],
            aliases: &[],
        },
        LanguageInfo {
            language: Language::CRONTAB,
            canonical_name: "crontab",
            display_name: "Crontab",
            category: LanguageCategory::Config,
            comments: CommentStyle { line: &["#"], block: &[] },
            color: None,
            icon: None,
            filenames: &[],
            extensions: &[],
            shebangs: &[],
            aliases: &["cron"],
        },
        LanguageInfo {
            language: Language::MPD_CONFIG,
            canonical_name: "mpd-config",
            display_name: "MPD Config",
            category: LanguageCategory::Config,
            comments: CommentStyle { line: &["#"], block: &[] },
            color: None,
            icon: None,
            filenames: &[],
            extensions: &[],
            shebangs: &[],
            aliases: &["mpd"],
        },
        LanguageInfo {
            language: Language::TOML,
            canonical_name: "toml",
            display_name: "TOML",
            category: LanguageCategory::Config,
            comments: CommentStyle { line: &["#"], block: &[] },
            color: Some(Color { r: 0x9C, g: 0x42, b: 0x21 }),
            icon: Some(Icon { glyph: '\u{e6b2}', color: Some(Color { r: 0x9C, g: 0x42, b: 0x21 }) }),
            filenames: &[],
            extensions: &["toml"],
            shebangs: &[],
            aliases: &[],
        },
        LanguageInfo {
            language: Language::JSON,
            canonical_name: "json",
            display_name: "JSON",
            category: LanguageCategory::Data,
            comments: CommentStyle { line: &[], block: &[] },
            color: Some(Color { r: 0x29, g: 0x29, b: 0x29 }),
            icon: Some(Icon { glyph: '\u{e60b}', color: Some(Color { r: 0x29, g: 0x29, b: 0x29 }) }),
            filenames: &[],
            extensions: &["json"],
            shebangs: &[],
            aliases: &[],
        },
        LanguageInfo {
            language: Language::MARKDOWN,
            canonical_name: "markdown",
            display_name: "Markdown",
            category: LanguageCategory::Document,
            comments: CommentStyle { line: &[], block: &[BlockComment { start: "<!--", end: "-->" }] },
            color: Some(Color { r: 0x08, g: 0x3F, b: 0xA1 }),
            icon: Some(Icon { glyph: '\u{e73e}', color: Some(Color { r: 0x08, g: 0x3F, b: 0xA1 }) }),
            filenames: &[],
            extensions: &["md", "markdown"],
            shebangs: &[],
            aliases: &["md"],
        },
        LanguageInfo {
            language: Language::C,
            canonical_name: "c",
            display_name: "C",
            category: LanguageCategory::Code,
            comments: CommentStyle { line: &["//"], block: &[BlockComment { start: "/*", end: "*/" }] },
            color: Some(Color { r: 0x55, g: 0x55, b: 0x55 }),
            icon: Some(Icon { glyph: '\u{e61e}', color: Some(Color { r: 0x55, g: 0x55, b: 0x55 }) }),
            filenames: &[],
            extensions: &["c", "h"],
            shebangs: &[],
            aliases: &[],
        },
        LanguageInfo {
            language: Language::CPP,
            canonical_name: "cpp",
            display_name: "C++",
            category: LanguageCategory::Code,
            comments: CommentStyle { line: &["//"], block: &[BlockComment { start: "/*", end: "*/" }] },
            color: Some(Color { r: 0xF3, g: 0x4B, b: 0x7D }),
            icon: Some(Icon { glyph: '\u{e61d}', color: Some(Color { r: 0xF3, g: 0x4B, b: 0x7D }) }),
            filenames: &[],
            extensions: &["cpp", "cc", "cxx", "hpp", "hh", "hxx", "h"],
            shebangs: &[],
            aliases: &["c++"],
        },
        LanguageInfo {
            language: Language::GO,
            canonical_name: "go",
            display_name: "Go",
            category: LanguageCategory::Code,
            comments: CommentStyle { line: &["//"], block: &[BlockComment { start: "/*", end: "*/" }] },
            color: Some(Color { r: 0x00, g: 0xAD, b: 0xD8 }),
            icon: Some(Icon { glyph: '\u{e627}', color: Some(Color { r: 0x00, g: 0xAD, b: 0xD8 }) }),
            filenames: &[],
            extensions: &["go"],
            shebangs: &[],
            aliases: &["golang"],
        },
        LanguageInfo {
            language: Language::TYPESCRIPT,
            canonical_name: "typescript",
            display_name: "TypeScript",
            category: LanguageCategory::Code,
            comments: CommentStyle { line: &["//"], block: &[BlockComment { start: "/*", end: "*/" }] },
            color: Some(Color { r: 0x31, g: 0x78, b: 0xC6 }),
            icon: Some(Icon { glyph: '\u{e628}', color: Some(Color { r: 0x31, g: 0x78, b: 0xC6 }) }),
            filenames: &[],
            extensions: &["ts", "tsx", "mts", "cts"],
            shebangs: &["ts-node"],
            aliases: &["ts"],
        },
        LanguageInfo {
            language: Language::HTML,
            canonical_name: "html",
            display_name: "HTML",
            category: LanguageCategory::Markup,
            comments: CommentStyle { line: &[], block: &[BlockComment { start: "<!--", end: "-->" }] },
            color: Some(Color { r: 0xE3, g: 0x4C, b: 0x26 }),
            icon: Some(Icon { glyph: '\u{e736}', color: Some(Color { r: 0xE3, g: 0x4C, b: 0x26 }) }),
            filenames: &[],
            extensions: &["html", "htm"],
            shebangs: &[],
            aliases: &["xhtml"],
        },
        LanguageInfo {
            language: Language::CSS,
            canonical_name: "css",
            display_name: "CSS",
            category: LanguageCategory::Markup,
            comments: CommentStyle { line: &[], block: &[BlockComment { start: "/*", end: "*/" }] },
            color: Some(Color { r: 0x56, g: 0x3D, b: 0x7C }),
            icon: Some(Icon { glyph: '\u{e749}', color: Some(Color { r: 0x56, g: 0x3D, b: 0x7C }) }),
            filenames: &[],
            extensions: &["css"],
            shebangs: &[],
            aliases: &[],
        },
        LanguageInfo {
            language: Language::YAML,
            canonical_name: "yaml",
            display_name: "YAML",
            category: LanguageCategory::Data,
            comments: CommentStyle { line: &["#"], block: &[] },
            color: Some(Color { r: 0xCB, g: 0x17, b: 0x1E }),
            icon: Some(Icon { glyph: '\u{e6a8}', color: Some(Color { r: 0xCB, g: 0x17, b: 0x1E }) }),
            filenames: &[],
            extensions: &["yaml", "yml"],
            shebangs: &[],
            aliases: &["yml"],
        },
        LanguageInfo {
            language: Language::XML,
            canonical_name: "xml",
            display_name: "XML",
            category: LanguageCategory::Markup,
            comments: CommentStyle { line: &[], block: &[BlockComment { start: "<!--", end: "-->" }] },
            color: Some(Color { r: 0x00, g: 0x60, b: 0xAC }),
            icon: Some(Icon { glyph: '\u{e619}', color: Some(Color { r: 0x00, g: 0x60, b: 0xAC }) }),
            filenames: &[],
            extensions: &["xml", "xsd", "xsl"],
            shebangs: &[],
            aliases: &[],
        },
        LanguageInfo {
            language: Language::JAVA,
            canonical_name: "java",
            display_name: "Java",
            category: LanguageCategory::Code,
            comments: CommentStyle { line: &["//"], block: &[BlockComment { start: "/*", end: "*/" }] },
            color: Some(Color { r: 0xB0, g: 0x72, b: 0x19 }),
            icon: Some(Icon { glyph: '\u{e738}', color: Some(Color { r: 0xB0, g: 0x72, b: 0x19 }) }),
            filenames: &[],
            extensions: &["java"],
            shebangs: &[],
            aliases: &[],
        },
        LanguageInfo {
            language: Language::CSHARP,
            canonical_name: "csharp",
            display_name: "C#",
            category: LanguageCategory::Code,
            comments: CommentStyle { line: &["//"], block: &[BlockComment { start: "/*", end: "*/" }] },
            color: Some(Color { r: 0x17, g: 0x86, b: 0x00 }),
            icon: Some(Icon { glyph: '\u{e648}', color: Some(Color { r: 0x17, g: 0x86, b: 0x00 }) }),
            filenames: &[],
            extensions: &["cs", "csx"],
            shebangs: &[],
            aliases: &["cs", "c#"],
        },
        LanguageInfo {
            language: Language::RUBY,
            canonical_name: "ruby",
            display_name: "Ruby",
            category: LanguageCategory::Code,
            comments: CommentStyle { line: &["#"], block: &[BlockComment { start: "=begin", end: "=end" }] },
            color: Some(Color { r: 0x70, g: 0x15, b: 0x16 }),
            icon: Some(Icon { glyph: '\u{e739}', color: Some(Color { r: 0x70, g: 0x15, b: 0x16 }) }),
            filenames: &["Rakefile", "Gemfile"],
            extensions: &["rb", "rake", "gemspec"],
            shebangs: &["ruby"],
            aliases: &["rb"],
        },
        LanguageInfo {
            language: Language::PHP,
            canonical_name: "php",
            display_name: "PHP",
            category: LanguageCategory::Code,
            comments: CommentStyle { line: &["//", "#"], block: &[BlockComment { start: "/*", end: "*/" }] },
            color: Some(Color { r: 0x4F, g: 0x5D, b: 0x95 }),
            icon: Some(Icon { glyph: '\u{e73d}', color: Some(Color { r: 0x4F, g: 0x5D, b: 0x95 }) }),
            filenames: &[],
            extensions: &["php"],
            shebangs: &["php"],
            aliases: &[],
        },
        LanguageInfo {
            language: Language::LUA,
            canonical_name: "lua",
            display_name: "Lua",
            category: LanguageCategory::Code,
            comments: CommentStyle { line: &["--"], block: &[BlockComment { start: "--[[", end: "]]" }] },
            color: Some(Color { r: 0x00, g: 0x00, b: 0x80 }),
            icon: Some(Icon { glyph: '\u{e620}', color: Some(Color { r: 0x00, g: 0x00, b: 0x80 }) }),
            filenames: &[],
            extensions: &["lua"],
            shebangs: &["lua", "luajit"],
            aliases: &[],
        },
        LanguageInfo {
            language: Language::SQL,
            canonical_name: "sql",
            display_name: "SQL",
            category: LanguageCategory::Data,
            comments: CommentStyle { line: &["--"], block: &[BlockComment { start: "/*", end: "*/" }] },
            color: Some(Color { r: 0xE3, g: 0x8C, b: 0x00 }),
            icon: Some(Icon { glyph: '\u{e706}', color: Some(Color { r: 0xE3, g: 0x8C, b: 0x00 }) }),
            filenames: &[],
            extensions: &["sql"],
            shebangs: &[],
            aliases: &[],
        },
        LanguageInfo {
            language: Language::DOCKERFILE,
            canonical_name: "dockerfile",
            display_name: "Dockerfile",
            category: LanguageCategory::Build,
            comments: CommentStyle { line: &["#"], block: &[] },
            color: Some(Color { r: 0x38, g: 0x4D, b: 0x54 }),
            icon: Some(Icon { glyph: '\u{e7b0}', color: Some(Color { r: 0x38, g: 0x4D, b: 0x54 }) }),
            filenames: &["Dockerfile", "Containerfile"],
            extensions: &["dockerfile"],
            shebangs: &[],
            aliases: &["docker"],
        },
        LanguageInfo {
            language: Language::ZIG,
            canonical_name: "zig",
            display_name: "Zig",
            category: LanguageCategory::Code,
            comments: CommentStyle { line: &["//"], block: &[] },
            color: Some(Color { r: 0xEC, g: 0x91, b: 0x5C }),
            icon: Some(Icon { glyph: '\u{e6a9}', color: Some(Color { r: 0xEC, g: 0x91, b: 0x5C }) }),
            filenames: &[],
            extensions: &["zig"],
            shebangs: &[],
            aliases: &[],
        },
        LanguageInfo {
            language: Language::OXYGEN,
            canonical_name: "oxygen",
            display_name: "Oxygen",
            category: LanguageCategory::Dsl,
            comments: CommentStyle { line: &["//"], block: &[BlockComment { start: "/*", end: "*/" }] },
            color: None,
            icon: None,
            filenames: &[],
            extensions: &["oxy"],
            shebangs: &[],
            aliases: &[],
        },
        LanguageInfo {
            language: Language::VERILOG,
            canonical_name: "verilog",
            display_name: "Verilog",
            category: LanguageCategory::Code,
            comments: CommentStyle { line: &["//"], block: &[BlockComment { start: "/*", end: "*/" }] },
            color: Some(Color { r: 0xB2, g: 0xB7, b: 0xF8 }),
            icon: Some(Icon { glyph: '\u{f035b}', color: Some(Color { r: 0xB2, g: 0xB7, b: 0xF8 }) }),
            filenames: &[],
            extensions: &["v", "vh"],
            shebangs: &[],
            aliases: &[],
        },
        LanguageInfo {
            language: Language::SYSTEMVERILOG,
            canonical_name: "systemverilog",
            display_name: "SystemVerilog",
            category: LanguageCategory::Code,
            comments: CommentStyle { line: &["//"], block: &[BlockComment { start: "/*", end: "*/" }] },
            color: Some(Color { r: 0xDA, g: 0xE1, b: 0xC2 }),
            icon: Some(Icon { glyph: '\u{f035b}', color: Some(Color { r: 0xDA, g: 0xE1, b: 0xC2 }) }),
            filenames: &[],
            extensions: &["sv", "svh"],
            shebangs: &[],
            aliases: &["sv"],
        },
        LanguageInfo {
            language: Language::VHDL,
            canonical_name: "vhdl",
            display_name: "VHDL",
            category: LanguageCategory::Code,
            comments: CommentStyle { line: &["--"], block: &[] },
            color: Some(Color { r: 0xAD, g: 0xB2, b: 0xCB }),
            icon: Some(Icon { glyph: '\u{f035b}', color: Some(Color { r: 0xAD, g: 0xB2, b: 0xCB }) }),
            filenames: &[],
            extensions: &["vhd", "vhdl"],
            shebangs: &[],
            aliases: &[],
        },
        LanguageInfo {
            language: Language::BSV,
            canonical_name: "bsv",
            display_name: "Bluespec SystemVerilog",
            category: LanguageCategory::Code,
            comments: CommentStyle { line: &["//"], block: &[BlockComment { start: "/*", end: "*/" }] },
            color: Some(Color { r: 0x12, g: 0x22, b: 0x3C }),
            icon: None,
            filenames: &[],
            extensions: &["bsv"],
            shebangs: &[],
            aliases: &["bluespec"],
        },
        LanguageInfo {
            language: Language::BLUESPEC_HASKELL,
            canonical_name: "bluespec-haskell",
            display_name: "Bluespec Haskell",
            category: LanguageCategory::Code,
            comments: CommentStyle { line: &["--"], block: &[BlockComment { start: "{-", end: "-}" }] },
            color: Some(Color { r: 0x12, g: 0x22, b: 0x3C }),
            icon: None,
            filenames: &[],
            extensions: &["bs"],
            shebangs: &[],
            aliases: &["bh"],
        },
        LanguageInfo {
            language: Language::SDC,
            canonical_name: "sdc",
            display_name: "Synopsys Design Constraints",
            category: LanguageCategory::Dsl,
            comments: CommentStyle { line: &["#"], block: &[] },
            color: None,
            icon: None,
            filenames: &[],
            extensions: &["sdc", "xdc"],
            shebangs: &[],
            aliases: &["xdc"],
        },
        LanguageInfo {
            language: Language::OBJECTIVE_C,
            canonical_name: "objective-c",
            display_name: "Objective-C",
            category: LanguageCategory::Code,
            comments: CommentStyle { line: &["//"], block: &[BlockComment { start: "/*", end: "*/" }] },
            color: Some(Color { r: 0x43, g: 0x8E, b: 0xFF }),
            icon: Some(Icon { glyph: '\u{e61e}', color: Some(Color { r: 0x43, g: 0x8E, b: 0xFF }) }),
            filenames: &[],
            extensions: &["m", "h"],
            shebangs: &[],
            aliases: &["objc"],
        },
        LanguageInfo {
            language: Language::MATLAB,
            canonical_name: "matlab",
            display_name: "MATLAB",
            category: LanguageCategory::Code,
            comments: CommentStyle { line: &["%"], block: &[BlockComment { start: "%{", end: "%}" }] },
            color: Some(Color { r: 0xE1, g: 0x67, b: 0x37 }),
            icon: None,
            filenames: &[],
            extensions: &["m"],
            shebangs: &[],
            aliases: &[],
        },
        LanguageInfo {
            language: Language::PERL,
            canonical_name: "perl",
            display_name: "Perl",
            category: LanguageCategory::Code,
            comments: CommentStyle { line: &["#"], block: &[BlockComment { start: "=pod", end: "=cut" }] },
            color: Some(Color { r: 0x02, g: 0x98, b: 0xC3 }),
            icon: Some(Icon { glyph: '\u{e769}', color: Some(Color { r: 0x02, g: 0x98, b: 0xC3 }) }),
            filenames: &[],
            extensions: &["pl", "pm"],
            shebangs: &["perl"],
            aliases: &[],
        },
        LanguageInfo {
            language: Language::PROLOG,
            canonical_name: "prolog",
            display_name: "Prolog",
            category: LanguageCategory::Code,
            comments: CommentStyle { line: &["%"], block: &[BlockComment { start: "/*", end: "*/" }] },
            color: Some(Color { r: 0x74, g: 0x28, b: 0x3C }),
            icon: None,
            filenames: &[],
            extensions: &["pl", "pro"],
            shebangs: &[],
            aliases: &[],
        },
        LanguageInfo {
            language: Language::R,
            canonical_name: "r",
            display_name: "R",
            category: LanguageCategory::Code,
            comments: CommentStyle { line: &["#"], block: &[] },
            color: Some(Color { r: 0x19, g: 0x8C, b: 0xE7 }),
            icon: Some(Icon { glyph: '\u{f07d4}', color: Some(Color { r: 0x19, g: 0x8C, b: 0xE7 }) }),
            filenames: &[],
            extensions: &["r"],
            shebangs: &["Rscript"],
            aliases: &["rscript"],
        },
        LanguageInfo {
            language: Language::REBOL,
            canonical_name: "rebol",
            display_name: "Rebol",
            category: LanguageCategory::Code,
            comments: CommentStyle { line: &[";"], block: &[] },
            color: Some(Color { r: 0x35, g: 0x8A, b: 0x5B }),
            icon: None,
            filenames: &[],
            extensions: &["r", "reb"],
            shebangs: &[],
            aliases: &[],
        },
        LanguageInfo {
            language: Language::FSHARP,
            canonical_name: "fsharp",
            display_name: "F#",
            category: LanguageCategory::Code,
            comments: CommentStyle { line: &["//"], block: &[BlockComment { start: "(*", end: "*)" }] },
            color: Some(Color { r: 0xB8, g: 0x45, b: 0xFC }),
            icon: Some(Icon { glyph: '\u{e7a7}', color: Some(Color { r: 0xB8, g: 0x45, b: 0xFC }) }),
            filenames: &[],
            extensions: &["fs", "fsi", "fsx"],
            shebangs: &[],
            aliases: &["f#"],
        },
        LanguageInfo {
            language: Language::FORTH,
            canonical_name: "forth",
            display_name: "Forth",
            category: LanguageCategory::Code,
            comments: CommentStyle { line: &["\\"], block: &[BlockComment { start: "(", end: ")" }] },
            color: Some(Color { r: 0x34, g: 0x17, b: 0x08 }),
            icon: None,
            filenames: &[],
            extensions: &["fth", "4th", "fs"],
            shebangs: &[],
            aliases: &[],
        },
    ];
    proof {
        reveal(registry);
    }
    r
}

} // verus!
