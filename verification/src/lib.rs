//! `taste`: a small, fast, extensible language/format detector.
//!
//! Detection is data-driven: a registry ([`info::languages`]) holds all
//! language metadata, and the engine in [`detect`] resolves a [`Language`] from
//! a path, an in-memory buffer, the head of a file, or a bare token. Special
//! cases live as data in [`rules`], not scattered through the detector.

use vstd::prelude::*;

pub mod category;
pub mod comment;
pub mod detect;
pub mod info;
pub mod language;
pub mod meta;
pub mod rules;
pub mod text;

pub use category::LanguageCategory;
pub use comment::{BlockComment, CommentStyle};
pub use detect::{
    detect_buffer, detect_file, detect_language, detect_path, detect_path_name, detect_token,
    get_shebang_executable, path_parts, Confidence, Detection, DetectionSource, PathParts,
};
pub use info::{languages, LanguageInfo};
pub use language::{Language, LanguageId};
pub use meta::{Color, Icon};
pub use rules::{path_rules, PathRule};

use detect::token_language;
use info::registry;

verus! {

/// All known languages and their metadata.
pub fn all_languages() -> (r: &'static [LanguageInfo])
    ensures
        r@ == registry(),
{
    languages()
}

/// Look up a language by canonical name or alias.
pub fn language_by_token(token: &str) -> (r: Option<Language>)
    ensures
        r == token_language(token@),
{
    match detect_token(token) {
        Some(d) => Some(d.language),
        None => None,
    }
}

} // verus!
