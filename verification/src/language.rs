//! Language identity.
//!
//! Languages are identified by a small opaque [`LanguageId`], the position of
//! their record in the registry ([`crate::info::languages`]). Common languages are
//! named by the variants of [`Language`].

use vstd::prelude::*;

use crate::category::LanguageCategory;
use crate::comment::CommentStyle;
use crate::info::{
    canonical_names_are_unique, info_at, languages, registry, registry_is_indexed_by_ordinal,
    LanguageInfo,
};
use crate::meta::{Color, Icon};
use crate::text::{first_match, lemma_first_match_at, lemma_first_match_member, str_is};

verus! {

/// Number of languages the registry knows.
pub const LANGUAGE_COUNT: u16 = 45;

/// Opaque, stable identifier for a language.
///
/// The numeric value is the index into the internal registry table; treat it as
/// opaque outside the crate.
#[derive(Debug, Clone, Copy, PartialEq, Eq, Hash)]
pub struct LanguageId(pub(crate) u16);

impl LanguageId {
    /// Every id names a registry entry.
    #[verifier::type_invariant]
    spec fn in_registry(self) -> bool {
        self.0 < LANGUAGE_COUNT
    }

    /// The registry position this id stands for.
    pub closed spec fn index(self) -> int {
        self.0 as int
    }

    /// The raw index. Exposed for serialization/debugging; not a stable wire id.
    pub fn as_u16(self) -> (r: u16)
        ensures
            r == self.index(),
    {
        self.0
    }

    /// The canonical name of the language, a stable string key.
    pub fn as_str(self) -> (r: &'static str)
        ensures
            0 <= self.index() < LANGUAGE_COUNT,
            r == info_at(self.index()).canonical_name,
    {
        proof {
            use_type_invariant(self);
        }
        Language::from_index(self.0).name()
    }
}

/// A detected language. Cheap to copy; each variant is one registry entry.
#[allow(non_camel_case_types)]
#[derive(Debug, Clone, Copy, PartialEq, Eq, Hash, Structural)]
pub enum Language {
    /// Rust.
    RUST,
    /// Python.
    PYTHON,
    /// Makefile.
    MAKEFILE,
    /// Shell.
    SHELL,
    /// JavaScript.
    JAVASCRIPT,
    /// INI.
    INI,
    /// Git Config.
    GIT_CONFIG,
    /// Git Rebase Todo.
    GIT_REBASE_TODO,
    /// Nginx.
    NGINX,
    /// Crontab.
    CRONTAB,
    /// MPD Config.
    MPD_CONFIG,
    /// TOML.
    TOML,
    /// JSON.
    JSON,
    /// Markdown.
    MARKDOWN,
    /// C.
    C,
    /// C++.
    CPP,
    /// Go.
    GO,
    /// TypeScript.
    TYPESCRIPT,
    /// HTML.
    HTML,
    /// CSS.
    CSS,
    /// YAML.
    YAML,
    /// XML.
    XML,
    /// Java.
    JAVA,
    /// C#.
    CSHARP,
    /// Ruby.
    RUBY,
    /// PHP.
    PHP,
    /// Lua.
    LUA,
    /// SQL.
    SQL,
    /// Dockerfile.
    DOCKERFILE,
    /// Zig.
    ZIG,
    /// Oxygen.
    OXYGEN,
    /// Verilog.
    VERILOG,
    /// SystemVerilog.
    SYSTEMVERILOG,
    /// VHDL.
    VHDL,
    /// Bluespec SystemVerilog.
    BSV,
    /// Bluespec Haskell.
    BLUESPEC_HASKELL,
    /// Synopsys Design Constraints.
    SDC,
    /// Objective-C.
    OBJECTIVE_C,
    /// MATLAB.
    MATLAB,
    /// Perl.
    PERL,
    /// Prolog.
    PROLOG,
    /// R.
    R,
    /// Rebol.
    REBOL,
    /// F#.
    FSHARP,
    /// Forth.
    FORTH,
}

/// The record's canonical name is exactly `name`.
pub open spec fn has_name(name: Seq<char>) -> spec_fn(LanguageInfo) -> bool {
    |i: LanguageInfo| i.canonical_name@ == name
}

/// The language whose name (canonical name, exactly) is `name`: the first
/// registry entry with that name.
pub open spec fn language_named(name: Seq<char>) -> Option<Language> {
    match first_match(registry(), has_name(name)) {
        Some(i) => Some(i.language),
        None => None,
    }
}

/// Looking a language up by its own canonical name gives the language back.
pub proof fn name_round_trip(l: Language)
    ensures
        language_named(info_at(l.ordinal()).canonical_name@) == Some(l),
{
    registry_is_indexed_by_ordinal();
    canonical_names_are_unique();
    let k = l.ordinal();
    let n = info_at(k).canonical_name@;
    lemma_first_match_at(registry(), has_name(n), k);
}

/// A name finds only a language whose canonical name is exactly that name
/// (case included).
pub proof fn named_language_has_that_name(name: Seq<char>)
    ensures
        language_named(name) matches Some(l) ==> info_at(l.ordinal()).canonical_name@ == name,
{
    registry_is_indexed_by_ordinal();
    lemma_first_match_member(registry(), has_name(name));
    if let Some(i) = first_match(registry(), has_name(name)) {
        let k = choose|k: int| 0 <= k < registry().len() && registry()[k] == i;
        assert(registry()[k].language.ordinal() == k);
    }
}

impl Language {
    /// Position of this language's record in the registry.
    pub open spec fn ordinal(self) -> int {
        match self {
            Language::RUST => 0,
            Language::PYTHON => 1,
            Language::MAKEFILE => 2,
            Language::SHELL => 3,
            Language::JAVASCRIPT => 4,
            Language::INI => 5,
            Language::GIT_CONFIG => 6,
            Language::GIT_REBASE_TODO => 7,
            Language::NGINX => 8,
            Language::CRONTAB => 9,
            Language::MPD_CONFIG => 10,
            Language::TOML => 11,
            Language::JSON => 12,
            Language::MARKDOWN => 13,
            Language::C => 14,
            Language::CPP => 15,
            Language::GO => 16,
            Language::TYPESCRIPT => 17,
            Language::HTML => 18,
            Language::CSS => 19,
            Language::YAML => 20,
            Language::XML => 21,
            Language::JAVA => 22,
            Language::CSHARP => 23,
            Language::RUBY => 24,
            Language::PHP => 25,
            Language::LUA => 26,
            Language::SQL => 27,
            Language::DOCKERFILE => 28,
            Language::ZIG => 29,
            Language::OXYGEN => 30,
            Language::VERILOG => 31,
            Language::SYSTEMVERILOG => 32,
            Language::VHDL => 33,
            Language::BSV => 34,
            Language::BLUESPEC_HASKELL => 35,
            Language::SDC => 36,
            Language::OBJECTIVE_C => 37,
            Language::MATLAB => 38,
            Language::PERL => 39,
            Language::PROLOG => 40,
            Language::R => 41,
            Language::REBOL => 42,
            Language::FSHARP => 43,
            Language::FORTH => 44,
        }
    }

    pub(crate) fn from_index(index: u16) -> (r: Self)
        requires
            index < LANGUAGE_COUNT,
        ensures
            r.ordinal() == index,
    {
        match index {
            0 => Language::RUST,
            1 => Language::PYTHON,
            2 => Language::MAKEFILE,
            3 => Language::SHELL,
            4 => Language::JAVASCRIPT,
            5 => Language::INI,
            6 => Language::GIT_CONFIG,
            7 => Language::GIT_REBASE_TODO,
            8 => Language::NGINX,
            9 => Language::CRONTAB,
            10 => Language::MPD_CONFIG,
            11 => Language::TOML,
            12 => Language::JSON,
            13 => Language::MARKDOWN,
            14 => Language::C,
            15 => Language::CPP,
            16 => Language::GO,
            17 => Language::TYPESCRIPT,
            18 => Language::HTML,
            19 => Language::CSS,
            20 => Language::YAML,
            21 => Language::XML,
            22 => Language::JAVA,
            23 => Language::CSHARP,
            24 => Language::RUBY,
            25 => Language::PHP,
            26 => Language::LUA,
            27 => Language::SQL,
            28 => Language::DOCKERFILE,
            29 => Language::ZIG,
            30 => Language::OXYGEN,
            31 => Language::VERILOG,
            32 => Language::SYSTEMVERILOG,
            33 => Language::VHDL,
            34 => Language::BSV,
            35 => Language::BLUESPEC_HASKELL,
            36 => Language::SDC,
            37 => Language::OBJECTIVE_C,
            38 => Language::MATLAB,
            39 => Language::PERL,
            40 => Language::PROLOG,
            41 => Language::R,
            42 => Language::REBOL,
            43 => Language::FSHARP,
            _ => Language::FORTH,
        }
    }

    pub fn id(self) -> (r: LanguageId)
        ensures
            r.index() == self.ordinal(),
            0 <= self.ordinal() < LANGUAGE_COUNT,
    {
        LanguageId(
            match self {
                Language::RUST => 0u16,
                Language::PYTHON => 1u16,
                Language::MAKEFILE => 2u16,
                Language::SHELL => 3u16,
                Language::JAVASCRIPT => 4u16,
                Language::INI => 5u16,
                Language::GIT_CONFIG => 6u16,
                Language::GIT_REBASE_TODO => 7u16,
                Language::NGINX => 8u16,
                Language::CRONTAB => 9u16,
                Language::MPD_CONFIG => 10u16,
                Language::TOML => 11u16,
                Language::JSON => 12u16,
                Language::MARKDOWN => 13u16,
                Language::C => 14u16,
                Language::CPP => 15u16,
                Language::GO => 16u16,
                Language::TYPESCRIPT => 17u16,
                Language::HTML => 18u16,
                Language::CSS => 19u16,
                Language::YAML => 20u16,
                Language::XML => 21u16,
                Language::JAVA => 22u16,
                Language::CSHARP => 23u16,
                Language::RUBY => 24u16,
                Language::PHP => 25u16,
                Language::LUA => 26u16,
                Language::SQL => 27u16,
                Language::DOCKERFILE => 28u16,
                Language::ZIG => 29u16,
                Language::OXYGEN => 30u16,
                Language::VERILOG => 31u16,
                Language::SYSTEMVERILOG => 32u16,
                Language::VHDL => 33u16,
                Language::BSV => 34u16,
                Language::BLUESPEC_HASKELL => 35u16,
                Language::SDC => 36u16,
                Language::OBJECTIVE_C => 37u16,
                Language::MATLAB => 38u16,
                Language::PERL => 39u16,
                Language::PROLOG => 40u16,
                Language::R => 41u16,
                Language::REBOL => 42u16,
                Language::FSHARP => 43u16,
                Language::FORTH => 44u16,
            },
        )
    }

    /// Full metadata record for this language.
    pub fn info(self) -> (r: &'static LanguageInfo)
        ensures
            *r == info_at(self.ordinal()),
            r.language == self,
    {
        let all = languages();
        let k = self.id().as_u16();
        proof {
            registry_is_indexed_by_ordinal();
        }
        &all[k as usize]
    }

    /// Canonical (machine) name, e.g. `"rust"`.
    pub fn name(self) -> (r: &'static str)
        ensures
            r == info_at(self.ordinal()).canonical_name,
    {
        self.info().canonical_name
    }

    /// Human-facing name, e.g. `"Rust"`.
    pub fn display_name(self) -> (r: &'static str)
        ensures
            r == info_at(self.ordinal()).display_name,
    {
        self.info().display_name
    }

    pub fn category(self) -> (r: LanguageCategory)
        ensures
            r == info_at(self.ordinal()).category,
    {
        self.info().category
    }

    pub fn comments(self) -> (r: CommentStyle)
        ensures
            r == info_at(self.ordinal()).comments,
    {
        self.info().comments
    }

    pub fn color(self) -> (r: Option<Color>)
        ensures
            r == info_at(self.ordinal()).color,
    {
        self.info().color
    }

    pub fn icon(self) -> (r: Option<Icon>)
        ensures
            r == info_at(self.ordinal()).icon,
    {
        self.info().icon
    }

    /// The language whose canonical name is exactly `name`.
    pub fn from_name(name: &str) -> (r: Option<Language>)
        ensures
            r == language_named(name@),
    {
        let all = languages();
        let target = crate::text::chars_of(name);
        let ghost p = has_name(name@);
        let mut k: usize = 0;
        assert(registry().skip(0) =~= registry());
        while k < all.len()
            invariant
                all@ == registry(),
                target@ == name@,
                p == has_name(name@),
                k <= all@.len(),
                first_match(registry(), p) == first_match(registry().skip(k as int), p),
            decreases all@.len() - k,
        {
            assert(registry().skip(k as int).drop_first() =~= registry().skip(k + 1));
            assert(registry().skip(k as int)[0] == all@[k as int]);
            if str_is(all[k].canonical_name, target.as_slice()) {
                return Some(all[k].language);
            }
            k += 1;
        }
        None
    }
}

} // verus!
