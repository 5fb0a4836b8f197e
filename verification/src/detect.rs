//! The detection engine: path, buffer, file-head, and token detection.
//!
//! Path-only detection ([`detect_path`]) looks at the path text alone.
//! [`detect_buffer`] and [`detect_file`] also look at the first line of
//! content for a shebang. All return a rich [`Detection`] so callers can see
//! *how* a language was identified, not just *which*.

use vstd::prelude::*;

use crate::info::{
    aliases_are_not_canonical_names, canonical_names_are_lowercase, canonical_names_are_unique,
    info_at, languages, registry, registry_is_indexed_by_ordinal, LanguageInfo,
};
use crate::language::Language;
use crate::rules::{
    glob_double_star_absorbs_any_run, glob_double_star_slash_may_be_empty, glob_match, glob_spec,
    glob_literal_prefix_matches_itself, glob_star_absorbs_any_run_within_segment,
    glob_without_stars_is_equality, no_slash, path_rule_table, path_rules, rule_language, PathRule,
};
use crate::text::{
    after_last, ascii_words, chars_of, contains, contains_run, ends_with, eq_ignore_ascii_case,
    find_last, first_match, is_ascii_ws, is_prefix, is_suffix, last_index,
    lemma_after_last_concat, lemma_first_match_at, lemma_first_match_member,
    lemma_first_match_none, lemma_first_match_some, lemma_last_index, lemma_lower_char,
    lemma_lower_idempotent, lemma_words_of_word_then, lemma_words_skip_ws, lower, lower_char, next_word,
    no_ascii_ws, same_chars, starts_with, str_is, string_of, to_lower, words_have_no_whitespace,
};
use vstd::string::StringSliceAdditionalSpecFns;
use vstd::utf8::{decode_utf8, encode_utf8, is_ascii_chars, valid_utf8};

verus! {

/// How a language was identified, in rough precedence order.
#[derive(Debug, Clone, Copy, PartialEq, Eq, Structural)]
pub enum DetectionSource {
    ExactFilename,
    SpecialPath,
    Shebang,
    Extension,
    Token,
    Content,
    Fallback,
}

/// Confidence in a detection result.
#[derive(Debug, Clone, Copy, PartialEq, Eq, PartialOrd, Ord)]
pub enum Confidence {
    Low,
    Medium,
    High,
    Exact,
}

/// A detection result: the language plus provenance.
#[derive(Debug, Clone, Copy, PartialEq, Eq)]
pub struct Detection {
    pub language: Language,
    pub source: DetectionSource,
    pub confidence: Confidence,
    /// Other languages that also claim the same extension, in priority order
    /// (most likely alternative first). Empty unless `source` is
    /// [`DetectionSource::Extension`] and the extension is ambiguous (e.g.
    /// `.h`, `.m`, `.pl`, `.r`, `.fs`).
    pub alternatives: &'static [Language],
}

/// What a [`Detection`] says, with its alternatives as a sequence.
pub struct Found {
    pub language: Language,
    pub source: DetectionSource,
    pub confidence: Confidence,
    pub alternatives: Seq<Language>,
}

impl View for Detection {
    type V = Found;

    open spec fn view(&self) -> Found {
        Found {
            language: self.language,
            source: self.source,
            confidence: self.confidence,
            alternatives: self.alternatives@,
        }
    }
}

/// A finding with no alternatives.
pub open spec fn found(language: Language, source: DetectionSource, confidence: Confidence) -> Found {
    Found { language, source, confidence, alternatives: seq![] }
}

/// The view of an optional detection.
pub open spec fn found_of(d: Option<Detection>) -> Option<Found> {
    match d {
        Some(d) => Some(d@),
        None => None,
    }
}

impl Detection {
    fn new(language: Language, source: DetectionSource, confidence: Confidence) -> (d: Self)
        ensures
            d@ == found(language, source, confidence),
    {
        let d = Self { language, source, confidence, alternatives: &[] };
        assert(d.alternatives@ =~= Seq::<Language>::empty());
        d
    }

    fn with_alternatives(
        language: Language,
        source: DetectionSource,
        confidence: Confidence,
        alternatives: &'static [Language],
    ) -> (d: Self)
        ensures
            d@ == (Found { language, source, confidence, alternatives: alternatives@ }),
    {
        Self { language, source, confidence, alternatives }
    }
}

// ---------------------------------------------------------------------------
// Path normalization
// ---------------------------------------------------------------------------

/// Components of a path useful for detection.
#[derive(Debug, Clone)]
pub struct PathParts {
    /// `/`-separated path with duplicate separators collapsed.
    pub normalized: Option<String>,
    /// Final path component, if any.
    pub filename: Option<String>,
    /// Lowercased final extension (without the dot), if any.
    pub extension: Option<String>,
}

/// What a [`PathParts`] holds, as character sequences.
pub struct Parts {
    pub normalized: Option<Seq<char>>,
    pub filename: Option<Seq<char>>,
    pub extension: Option<Seq<char>>,
}

/// The text of an optional string.
pub open spec fn text_of(s: Option<String>) -> Option<Seq<char>> {
    match s {
        Some(s) => Some(s@),
        None => None,
    }
}

impl View for PathParts {
    type V = Parts;

    open spec fn view(&self) -> Parts {
        Parts {
            normalized: text_of(self.normalized),
            filename: text_of(self.filename),
            extension: text_of(self.extension),
        }
    }
}

/// `/` and `\` both separate path components.
pub open spec fn is_sep(c: char) -> bool {
    c == '/' || c == '\\'
}

/// The `/`-separated form of a path: every separator becomes `/`, and a
/// separator that directly follows another separator is dropped.
pub open spec fn normalize(p: Seq<char>) -> Seq<char>
    decreases p.len(),
{
    if p.len() == 0 {
        seq![]
    } else if !is_sep(p.last()) {
        normalize(p.drop_last()).push(p.last())
    } else if p.len() >= 2 && is_sep(p[p.len() - 2]) {
        normalize(p.drop_last())
    } else {
        normalize(p.drop_last()).push('/')
    }
}

/// The text holds no `\` and no two `/` in a row.
pub open spec fn is_normalized(s: Seq<char>) -> bool {
    &&& forall|j: int| 0 <= j < s.len() ==> s[j] != '\\'
    &&& forall|j: int| 0 <= j < s.len() - 1 ==> !(s[j] == '/' && #[trigger] s[j + 1] == '/')
}

proof fn lemma_normalize_shape(p: Seq<char>)
    ensures
        is_normalized(normalize(p)),
        (normalize(p).len() > 0 && normalize(p).last() == '/') <==> (p.len() > 0 && is_sep(
            p.last(),
        )),
    decreases p.len(),
{
    if p.len() > 0 {
        let q = p.drop_last();
        lemma_normalize_shape(q);
        if p.len() >= 2 {
            assert(q.last() == p[p.len() - 2]);
        }
    }
}

/// A path that is already normalized is left unchanged.
pub proof fn normalized_paths_are_left_unchanged(s: Seq<char>)
    requires
        is_normalized(s),
    ensures
        normalize(s) == s,
    decreases s.len(),
{
    if s.len() > 0 {
        let q = s.drop_last();
        assert(is_normalized(q)) by {
            assert forall|j: int| 0 <= j < q.len() - 1 implies !(q[j] == '/' && #[trigger] q[j
                + 1] == '/') by {
                assert(s[j + 1] == q[j + 1]);
            }
        }
        normalized_paths_are_left_unchanged(q);
        if s.len() >= 2 {
            assert(s[s.len() - 1] == s[(s.len() - 2) + 1]);
        }
        assert(q.push(s.last()) =~= s);
    }
}

/// A normalized path holds no `\` and no two `/` in a row, and normalizing
/// it again changes nothing.
pub proof fn normalization_is_canonical(p: Seq<char>)
    ensures
        is_normalized(normalize(p)),
        normalize(normalize(p)) == normalize(p),
{
    lemma_normalize_shape(p);
    normalized_paths_are_left_unchanged(normalize(p));
}

/// The final component of a normalized path, when it is not empty.
pub open spec fn file_name_of(norm: Seq<char>) -> Option<Seq<char>> {
    let f = after_last(norm, '/');
    if f.len() == 0 {
        None
    } else {
        Some(f)
    }
}

/// The lowercased text after the last `.` of a file name; none when the name
/// has no `.` or its only `.` leads it (a dotfile).
pub open spec fn extension_of(name: Seq<char>) -> Option<Seq<char>> {
    let k = last_index(name, '.');
    if k > 0 {
        Some(lower(name.skip(k + 1)))
    } else {
        None
    }
}

/// A file name is never empty and holds no `/`; an extension is lowercase
/// and holds no `.`.
pub proof fn parts_are_well_formed(p: Seq<char>)
    ensures
        parts_of(p).filename matches Some(f) ==> f.len() > 0 && !f.contains('/'),
        parts_of(p).extension matches Some(e) ==> lower(e) == e && !e.contains('.'),
{
    let n = normalize(p);
    lemma_last_index(n, '/');
    if let Some(f) = parts_of(p).filename {
        assert forall|j: int| 0 <= j < f.len() implies f[j] != '/' by {
            assert(f[j] == n[last_index(n, '/') + 1 + j]);
        }
        let k = last_index(f, '.');
        lemma_last_index(f, '.');
        if k > 0 {
            let tail = f.skip(k + 1);
            let e = lower(tail);
            assert forall|j: int| 0 <= j < e.len() implies e[j] != '.' && lower_char(e[j]) == e[j] by {
                assert(tail[j] == f[k + 1 + j]);
                lemma_lower_char(tail[j]);
            }
            assert(lower(e) =~= e);
        }
    }
}

/// No character of the run is a separator.
pub open spec fn no_sep(s: Seq<char>) -> bool {
    forall|j: int| 0 <= j < s.len() ==> !is_sep(#[trigger] s[j])
}

/// Normalizing leaves a run without separators as it is: the normal form of
/// `a + x` is the normal form of `a` followed by `x`.
pub proof fn normalization_keeps_separator_free_runs(a: Seq<char>, x: Seq<char>)
    requires
        no_sep(x),
    ensures
        normalize(a + x) == normalize(a) + x,
    decreases x.len(),
{
    if x.len() == 0 {
        assert(a + x =~= a);
        assert(normalize(a) + x =~= normalize(a));
    } else {
        assert((a + x).drop_last() =~= a + x.drop_last());
        assert((a + x).last() == x.last());
        assert(!is_sep(x[x.len() - 1]));
        normalization_keeps_separator_free_runs(a, x.drop_last());
        assert((normalize(a) + x.drop_last()).push(x.last()) =~= normalize(a) + x);
    }
}

/// A run of separators (`/` or `\`) that follows a non-separator (or starts
/// the path) becomes a single `/`.
pub proof fn separator_runs_become_one_slash(a: Seq<char>, run: Seq<char>)
    requires
        a.len() == 0 || !is_sep(a.last()),
        run.len() > 0,
        forall|j: int| 0 <= j < run.len() ==> is_sep(#[trigger] run[j]),
    ensures
        normalize(a + run) == normalize(a).push('/'),
    decreases run.len(),
{
    let p = a + run;
    assert(p.drop_last() =~= a + run.drop_last());
    assert(p.last() == run.last());
    assert(is_sep(run[run.len() - 1]));
    if run.len() == 1 {
        assert(p.drop_last() =~= a);
        if a.len() > 0 {
            assert(p[p.len() - 2] == a.last());
        }
    } else {
        separator_runs_become_one_slash(a, run.drop_last());
        assert(p[p.len() - 2] == run[run.len() - 2]);
    }
}

/// The file name of a path is its last component, whatever separators (`/`
/// or `\`) precede it: for a prefix that is empty or ends with a separator,
/// and a run without separators, the file name of `prefix + name` is `name`
/// (none when `name` is empty).
pub proof fn file_name_is_last_component(prefix: Seq<char>, name: Seq<char>)
    requires
        prefix.len() == 0 || is_sep(prefix.last()),
        no_sep(name),
    ensures
        parts_of(prefix + name).filename == (if name.len() > 0 {
            Some(name)
        } else {
            None::<Seq<char>>
        }),
{
    normalization_keeps_separator_free_runs(prefix, name);
    lemma_normalize_shape(prefix);
    assert(!name.contains('/')) by {
        if name.contains('/') {
            let j = choose|j: int| 0 <= j < name.len() && name[j] == '/';
            assert(is_sep(name[j]));
        }
    }
    lemma_after_last_concat(normalize(prefix), name, '/');
}

/// The extension of a path is the lowercased text after the last `.` of its
/// file name, when that `.` has something before it.
pub proof fn extension_is_text_after_last_dot(prefix: Seq<char>, stem: Seq<char>, ext: Seq<char>)
    requires
        prefix.len() == 0 || is_sep(prefix.last()),
        stem.len() > 0,
        no_sep(stem),
        no_sep(ext),
        !ext.contains('.'),
    ensures
        parts_of(prefix + (stem.push('.') + ext)).extension == Some(lower(ext)),
{
    let name = stem.push('.') + ext;
    assert(no_sep(name)) by {
        assert forall|j: int| 0 <= j < name.len() implies !is_sep(#[trigger] name[j]) by {
            if j < stem.len() {
                assert(name[j] == stem[j]);
            } else if j > stem.len() {
                assert(name[j] == ext[j - stem.len() - 1]);
            }
        }
    }
    file_name_is_last_component(prefix, name);
    lemma_after_last_concat(stem.push('.'), ext, '.');
}

/// A file name without a `.`, or whose only `.` leads it, has no extension.
pub proof fn names_without_inner_dot_have_no_extension(prefix: Seq<char>, name: Seq<char>)
    requires
        prefix.len() == 0 || is_sep(prefix.last()),
        no_sep(name),
        !name.contains('.') || (name.len() > 0 && name[0] == '.' && !name.skip(1).contains('.')),
    ensures
        parts_of(prefix + name).extension == None::<Seq<char>>,
{
    file_name_is_last_component(prefix, name);
    if !name.contains('.') {
        lemma_after_last_concat(Seq::<char>::empty(), name, '.');
        assert(Seq::<char>::empty() + name =~= name);
    } else {
        lemma_after_last_concat(seq!['.'], name.skip(1), '.');
        assert(seq!['.'] + name.skip(1) =~= name);
    }
}

/// The parts of the path whose text is `p`.
pub open spec fn parts_of(p: Seq<char>) -> Parts {
    let n = normalize(p);
    let f = file_name_of(n);
    Parts {
        normalized: Some(n),
        filename: f,
        extension: match f {
            Some(name) => extension_of(name),
            None => None,
        },
    }
}

fn normalize_chars(p: &[char]) -> (r: Vec<char>)
    ensures
        r@ == normalize(p@),
{
    let mut out: Vec<char> = Vec::new();
    let mut prev_slash = false;
    let mut i: usize = 0;
    while i < p.len()
        invariant
            i <= p@.len(),
            out@ == normalize(p@.take(i as int)),
            prev_slash == (i > 0 && is_sep(p@[i - 1])),
        decreases p@.len() - i,
    {
        let ch = p[i];
        let is_slash = ch == '/' || ch == '\\';
        proof {
            let t = p@.take(i + 1);
            assert(t.drop_last() =~= p@.take(i as int));
            assert(t.last() == ch);
            if i > 0 {
                assert(t[t.len() - 2] == p@[i - 1]);
            }
        }
        if is_slash {
            if !prev_slash {
                out.push('/');
            }
            prev_slash = true;
        } else {
            out.push(ch);
            prev_slash = false;
        }
        i += 1;
    }
    assert(p@.take(p@.len() as int) =~= p@);
    out
}

/// Normalize a path for matching: `\` becomes `/`, duplicate slashes collapse,
/// and the filename and extension are split out.
pub fn path_parts(path: &str) -> (r: PathParts)
    ensures
        r@ == parts_of(path@),
{
    let raw = chars_of(path);
    let norm = normalize_chars(raw.as_slice());
    let len = norm.len();
    let start: usize = match find_last(norm.as_slice(), '/') {
        Some(k) => {
            assert(k < len);
            k + 1
        },
        None => 0,
    };
    let name = &norm.as_slice()[start..norm.len()];
    assert(name@ == after_last(norm@, '/'));
    let filename: Option<String>;
    let extension: Option<String>;
    if name.len() == 0 {
        filename = None;
        extension = None;
    } else {
        filename = Some(string_of(name));
        // A leading dot is part of a dotfile name, not an extension.
        extension = match find_last(name, '.') {
            Some(k) => {
                if k > 0 {
                    let ext = &name[k + 1..name.len()];
                    assert(ext@ == name@.skip(k + 1));
                    let low = to_lower(ext);
                    Some(string_of(low.as_slice()))
                } else {
                    None
                }
            },
            None => None,
        };
    }
    PathParts { normalized: Some(string_of(norm.as_slice())), filename, extension }
}


// ---------------------------------------------------------------------------
// Registry lookups (linear scans over the registry; small N)
// ---------------------------------------------------------------------------

/// The texts of a list of strings.
pub open spec fn texts(s: Seq<&'static str>) -> Seq<Seq<char>> {
    s.map_values(|x: &'static str| x@)
}

/// Some string of `list` has the text `x`.
pub open spec fn listed(list: &'static [&'static str], x: Seq<char>) -> bool {
    texts(list@).contains(x)
}

/// Some string of `list` equals `x` up to ASCII case.
pub open spec fn listed_ignoring_case(list: &'static [&'static str], x: Seq<char>) -> bool {
    exists|j: int| 0 <= j < list@.len() && lower(#[trigger] list@[j]@) == lower(x)
}

/// The record lists `name` among its file names.
pub open spec fn claims_filename(name: Seq<char>) -> spec_fn(LanguageInfo) -> bool {
    |i: LanguageInfo| listed(i.filenames, name)
}

/// The record lists `ext` among its extensions, ignoring ASCII case.
pub open spec fn claims_extension(ext: Seq<char>) -> spec_fn(LanguageInfo) -> bool {
    |i: LanguageInfo| listed_ignoring_case(i.extensions, ext)
}

/// The record lists `exec` among its interpreters.
pub open spec fn claims_interpreter(exec: Seq<char>) -> spec_fn(LanguageInfo) -> bool {
    |i: LanguageInfo| listed(i.shebangs, exec)
}

/// The record's canonical name or one of its aliases is `name`.
pub open spec fn answers_to(name: Seq<char>) -> spec_fn(LanguageInfo) -> bool {
    |i: LanguageInfo| i.canonical_name@ == name || listed(i.aliases, name)
}

/// The language of a record, if there is one.
pub open spec fn language_of(i: Option<LanguageInfo>) -> Option<Language> {
    match i {
        Some(i) => Some(i.language),
        None => None,
    }
}

/// The first language in the registry whose record satisfies `p`.
pub open spec fn first_language(p: spec_fn(LanguageInfo) -> bool) -> Option<Language> {
    language_of(first_match(registry(), p))
}

/// Whether some string of `list` has the text `x`.
fn list_has(list: &'static [&'static str], x: &[char]) -> (r: bool)
    ensures
        r == listed(list, x@),
{
    let mut j: usize = 0;
    while j < list.len()
        invariant
            j <= list@.len(),
            forall|k: int| 0 <= k < j ==> list@[k]@ != x@,
        decreases list@.len() - j,
    {
        if str_is(list[j], x) {
            assert(texts(list@)[j as int] == x@);
            return true;
        }
        j += 1;
    }
    assert(!texts(list@).contains(x@)) by {
        assert forall|k: int| 0 <= k < texts(list@).len() implies texts(list@)[k] != x@ by {
            assert(texts(list@)[k] == list@[k]@);
        }
    }
    false
}

/// Whether some string of `list` equals `x` up to ASCII case.
fn list_has_ignoring_case(list: &'static [&'static str], x: &[char]) -> (r: bool)
    ensures
        r == listed_ignoring_case(list, x@),
{
    let mut j: usize = 0;
    while j < list.len()
        invariant
            j <= list@.len(),
            forall|k: int| 0 <= k < j ==> lower(#[trigger] list@[k]@) != lower(x@),
        decreases list@.len() - j,
    {
        let e = chars_of(list[j]);
        if eq_ignore_ascii_case(e.as_slice(), x) {
            return true;
        }
        j += 1;
    }
    false
}

/// The language of the first record that lists `filename` as a file name.
fn by_filename(filename: &[char]) -> (r: Option<Language>)
    ensures
        r == first_language(claims_filename(filename@)),
{
    let all = languages();
    let ghost p = claims_filename(filename@);
    let mut k: usize = 0;
    assert(registry().skip(0) =~= registry());
    while k < all.len()
        invariant
            all@ == registry(),
            p == claims_filename(filename@),
            k <= all@.len(),
            first_match(registry(), p) == first_match(registry().skip(k as int), p),
        decreases all@.len() - k,
    {
        assert(registry().skip(k as int).drop_first() =~= registry().skip(k + 1));
        assert(registry().skip(k as int)[0] == all@[k as int]);
        if list_has(all[k].filenames, filename) {
            return Some(all[k].language);
        }
        k += 1;
    }
    None
}

/// The language of the first record that lists `exec` as an interpreter.
fn by_shebang(exec: &[char]) -> (r: Option<Language>)
    ensures
        r == first_language(claims_interpreter(exec@)),
{
    let all = languages();
    let ghost p = claims_interpreter(exec@);
    let mut k: usize = 0;
    assert(registry().skip(0) =~= registry());
    while k < all.len()
        invariant
            all@ == registry(),
            p == claims_interpreter(exec@),
            k <= all@.len(),
            first_match(registry(), p) == first_match(registry().skip(k as int), p),
        decreases all@.len() - k,
    {
        assert(registry().skip(k as int).drop_first() =~= registry().skip(k + 1));
        assert(registry().skip(k as int)[0] == all@[k as int]);
        if list_has(all[k].shebangs, exec) {
            return Some(all[k].language);
        }
        k += 1;
    }
    None
}

/// The language a token names: the first record whose canonical name or an
/// alias is the token, lowercased.
pub open spec fn token_language(token: Seq<char>) -> Option<Language> {
    first_language(answers_to(lower(token)))
}

fn by_token(token: &[char]) -> (r: Option<Language>)
    ensures
        r == token_language(token@),
{
    let low = to_lower(token);
    let all = languages();
    let ghost p = answers_to(lower(token@));
    let mut k: usize = 0;
    assert(registry().skip(0) =~= registry());
    while k < all.len()
        invariant
            all@ == registry(),
            low@ == lower(token@),
            p == answers_to(lower(token@)),
            k <= all@.len(),
            first_match(registry(), p) == first_match(registry().skip(k as int), p),
        decreases all@.len() - k,
    {
        assert(registry().skip(k as int).drop_first() =~= registry().skip(k + 1));
        assert(registry().skip(k as int)[0] == all@[k as int]);
        if str_is(all[k].canonical_name, low.as_slice()) || list_has(all[k].aliases, low.as_slice()) {
            return Some(all[k].language);
        }
        k += 1;
    }
    None
}

/// An extension claimed by several records, with every candidate language in
/// priority order (most likely match first).
#[derive(Debug, Clone, Copy)]
pub struct AmbiguousExtension {
    pub ext: &'static str,
    pub candidates: &'static [Language],
}

/// Extensions claimed by more than one registry entry.
pub open spec fn ambiguous_table() -> Seq<AmbiguousExtension> {
    seq![
        AmbiguousExtension { ext: "h", candidates: &[Language::C, Language::CPP, Language::OBJECTIVE_C] },
        AmbiguousExtension { ext: "m", candidates: &[Language::OBJECTIVE_C, Language::MATLAB] },
        AmbiguousExtension { ext: "pl", candidates: &[Language::PERL, Language::PROLOG] },
        AmbiguousExtension { ext: "r", candidates: &[Language::R, Language::REBOL] },
        AmbiguousExtension { ext: "fs", candidates: &[Language::FSHARP, Language::FORTH] },
    ]
}

/// Extensions claimed by more than one registry entry, with every candidate
/// language in priority order. Checked before the general scan so that a
/// contested extension resolves to a deliberate choice plus alternatives,
/// instead of whichever record happens to come first in the registry.
fn ambiguous_extensions() -> (r: &'static [AmbiguousExtension])
    ensures
        r@ == ambiguous_table(),
{
    let r: &'static [AmbiguousExtension] = &[
        AmbiguousExtension { ext: "h", candidates: &[Language::C, Language::CPP, Language::OBJECTIVE_C] },
        AmbiguousExtension { ext: "m", candidates: &[Language::OBJECTIVE_C, Language::MATLAB] },
        AmbiguousExtension { ext: "pl", candidates: &[Language::PERL, Language::PROLOG] },
        AmbiguousExtension { ext: "r", candidates: &[Language::R, Language::REBOL] },
        AmbiguousExtension { ext: "fs", candidates: &[Language::FSHARP, Language::FORTH] },
    ];
    r
}

/// The table entry is for `ext`, ignoring ASCII case.
pub open spec fn names_extension(ext: Seq<char>) -> spec_fn(AmbiguousExtension) -> bool {
    |entry: AmbiguousExtension| lower(entry.ext@) == lower(ext)
}

/// How an extension resolves: the first table entry for it gives its first
/// candidate as the language and the rest as alternatives (nothing when that
/// entry has no candidate); an extension without a table entry goes to the
/// first record claiming it, with no alternatives.
pub open spec fn resolve_extension(ext: Seq<char>) -> Option<(Language, Seq<Language>)> {
    match first_match(ambiguous_table(), names_extension(ext)) {
        Some(entry) => if entry.candidates@.len() > 0 {
            Some((entry.candidates@[0], entry.candidates@.skip(1)))
        } else {
            None
        },
        None => match first_language(claims_extension(ext)) {
            Some(l) => Some((l, seq![])),
            None => None,
        },
    }
}

/// Resolve an extension to its primary language plus any alternatives, in
/// priority order.
fn by_extension(ext: &[char]) -> (r: Option<(Language, &'static [Language])>)
    ensures
        match (r, resolve_extension(ext@)) {
            (Some(got), Some(want)) => got.0 == want.0 && got.1@ == want.1,
            (None, None) => true,
            _ => false,
        },
{
    let table = ambiguous_extensions();
    let ghost q = names_extension(ext@);
    let mut a: usize = 0;
    assert(ambiguous_table().skip(0) =~= ambiguous_table());
    while a < table.len()
        invariant
            table@ == ambiguous_table(),
            q == names_extension(ext@),
            a <= table@.len(),
            first_match(ambiguous_table(), q) == first_match(ambiguous_table().skip(a as int), q),
        decreases table@.len() - a,
    {
        assert(ambiguous_table().skip(a as int).drop_first() =~= ambiguous_table().skip(a + 1));
        assert(ambiguous_table().skip(a as int)[0] == table@[a as int]);
        let candidates = table[a].candidates;
        let e = chars_of(table[a].ext);
        if eq_ignore_ascii_case(e.as_slice(), ext) {
            if candidates.len() == 0 {
                return None;
            }
            let (first, alternatives) = candidates.split_at(1);
            assert(alternatives@ == candidates@.skip(1));
            return Some((first[0], alternatives));
        }
        a += 1;
    }
    let all = languages();
    let ghost p = claims_extension(ext@);
    let mut k: usize = 0;
    assert(registry().skip(0) =~= registry());
    while k < all.len()
        invariant
            all@ == registry(),
            p == claims_extension(ext@),
            first_match(ambiguous_table(), names_extension(ext@)) == None::<AmbiguousExtension>,
            k <= all@.len(),
            first_match(registry(), p) == first_match(registry().skip(k as int), p),
        decreases all@.len() - k,
    {
        assert(registry().skip(k as int).drop_first() =~= registry().skip(k + 1));
        assert(registry().skip(k as int)[0] == all@[k as int]);
        if list_has_ignoring_case(all[k].extensions, ext) {
            let none: &'static [Language] = &[];
            assert(none@ =~= Seq::<Language>::empty());
            return Some((all[k].language, none));
        }
        k += 1;
    }
    None
}


/// A rule of the first, exact group hits: the whole normalized path `norm`
/// is its path, or the file name of `parts` is its file name.
pub open spec fn exact_hit(parts: Parts, norm: Seq<char>) -> spec_fn(PathRule) -> bool {
    |rule: PathRule|
        match rule {
            PathRule::ExactPath { path, .. } => path@ == norm,
            PathRule::ExactFilename { filename, .. } => parts.filename == Some(filename@),
            _ => false,
        }
}

/// A rule of the second, fuzzy group hits the normalized path `norm`.
pub open spec fn fuzzy_hit(norm: Seq<char>) -> spec_fn(PathRule) -> bool {
    |rule: PathRule|
        match rule {
            PathRule::Suffix { suffix, .. } => is_suffix(suffix@, norm),
            PathRule::Prefix { prefix, .. } => is_prefix(prefix@, norm),
            PathRule::Contains { needle, .. } => contains_run(norm, needle@),
            PathRule::Glob { pattern, .. } => glob_spec(encode_utf8(pattern@), encode_utf8(norm)),
            _ => false,
        }
}

/// What the override rules say of a path: the first exact rule that hits,
/// with exact confidence; failing that, the first fuzzy rule that hits, with
/// high confidence. Nothing for a path without a normalized form.
pub open spec fn special_path_of(parts: Parts) -> Option<(Language, Confidence)> {
    match parts.normalized {
        None => None,
        Some(norm) => match first_match(path_rule_table(), exact_hit(parts, norm)) {
            Some(rule) => Some((rule_language(rule), Confidence::Exact)),
            None => match first_match(path_rule_table(), fuzzy_hit(norm)) {
                Some(rule) => Some((rule_language(rule), Confidence::High)),
                None => None,
            },
        },
    }
}

fn special_path(parts: &PathParts) -> (r: Option<(Language, Confidence)>)
    ensures
        r == special_path_of(parts@),
{
    let normalized = match &parts.normalized {
        Some(n) => n.as_str(),
        None => return None,
    };
    let norm = chars_of(normalized);
    let fname: Option<Vec<char>> = match &parts.filename {
        Some(f) => Some(chars_of(f.as_str())),
        None => None,
    };
    let rules = path_rules();
    let ghost pv = parts@;
    let ghost p = exact_hit(pv, norm@);
    // High-precedence exact rules first.
    let mut k: usize = 0;
    assert(path_rule_table().skip(0) =~= path_rule_table());
    while k < rules.len()
        invariant
            rules@ == path_rule_table(),
            pv == parts@,
            pv.normalized == Some(norm@),
            match fname {
                Some(f) => pv.filename == Some(f@),
                None => pv.filename == None::<Seq<char>>,
            },
            p == exact_hit(pv, norm@),
            k <= rules@.len(),
            first_match(path_rule_table(), p) == first_match(path_rule_table().skip(k as int), p),
        decreases rules@.len() - k,
    {
        assert(path_rule_table().skip(k as int).drop_first() =~= path_rule_table().skip(k + 1));
        assert(path_rule_table().skip(k as int)[0] == rules@[k as int]);
        let rule = rules[k];
        let hit = match rule {
            PathRule::ExactPath { path, .. } => str_is(path, norm.as_slice()),
            PathRule::ExactFilename { filename, .. } => match &fname {
                Some(f) => str_is(filename, f.as_slice()),
                None => false,
            },
            _ => false,
        };
        if hit {
            return Some((rule.language(), Confidence::Exact));
        }
        k += 1;
    }
    // Then fuzzy rules.
    let ghost q = fuzzy_hit(norm@);
    let mut k: usize = 0;
    while k < rules.len()
        invariant
            rules@ == path_rule_table(),
            pv == parts@,
            pv.normalized == Some(norm@),
            normalized@ == norm@,
            first_match(path_rule_table(), exact_hit(pv, norm@)) == None::<PathRule>,
            q == fuzzy_hit(norm@),
            k <= rules@.len(),
            first_match(path_rule_table(), q) == first_match(path_rule_table().skip(k as int), q),
        decreases rules@.len() - k,
    {
        assert(path_rule_table().skip(k as int).drop_first() =~= path_rule_table().skip(k + 1));
        assert(path_rule_table().skip(k as int)[0] == rules@[k as int]);
        let rule = rules[k];
        let hit = match rule {
            PathRule::Suffix { suffix, .. } => {
                let sv = chars_of(suffix);
                ends_with(norm.as_slice(), sv.as_slice())
            },
            PathRule::Prefix { prefix, .. } => {
                let pv = chars_of(prefix);
                starts_with(norm.as_slice(), pv.as_slice())
            },
            PathRule::Contains { needle, .. } => {
                let nv = chars_of(needle);
                contains(norm.as_slice(), nv.as_slice())
            },
            PathRule::Glob { pattern, .. } => glob_match(pattern, normalized),
            _ => false,
        };
        if hit {
            return Some((rule.language(), Confidence::High));
        }
        k += 1;
    }
    None
}

/// The exact-path rule decides the path `etc/crontab`, with exact
/// confidence, whatever its file name.
pub proof fn exact_path_rule_decides_its_path(parts: Parts)
    requires
        parts.normalized == Some("etc/crontab"@),
    ensures
        special_path_of(parts) == Some((Language::CRONTAB, Confidence::Exact)),
{
    let n = "etc/crontab"@;
    assert(exact_hit(parts, n)(path_rule_table()[0]));
    lemma_first_match_at(path_rule_table(), exact_hit(parts, n), 0);
}

/// The suffix rules decide every path that ends with their suffix (and is
/// not the exact-path rule's path), with high confidence: a path ending in
/// `.git/config` is Git config, a path ending in `mpd.conf` MPD config.
pub proof fn suffix_rules_decide_their_paths(parts: Parts, dir: Seq<char>)
    ensures
        parts.normalized == Some(dir + ".git/config"@) ==> special_path_of(parts) == Some(
            (Language::GIT_CONFIG, Confidence::High),
        ),
        parts.normalized == Some(dir + "mpd.conf"@) ==> special_path_of(parts) == Some(
            (Language::MPD_CONFIG, Confidence::High),
        ),
{
    reveal_strlit("etc/crontab");
    reveal_strlit(".git/config");
    reveal_strlit("mpd.conf");
    let table = path_rule_table();
    if parts.normalized == Some(dir + ".git/config"@) {
        let n = dir + ".git/config"@;
        assert(n[n.len() - 1] == 'g');
        assert(n.len() != 11 || n[0] != 'e' || n[1] != 't' || dir.len() == 0);
        if n == "etc/crontab"@ {
            assert(n[n.len() - 1] == "etc/crontab"@[10]);
        }
        lemma_first_match_none(table, exact_hit(parts, n));
        assert(n.skip(n.len() - 11) =~= ".git/config"@);
        assert(fuzzy_hit(n)(table[1]));
        assert(!fuzzy_hit(n)(table[0]));
        lemma_first_match_at(table, fuzzy_hit(n), 1);
    }
    if parts.normalized == Some(dir + "mpd.conf"@) {
        let n = dir + "mpd.conf"@;
        assert(n[n.len() - 1] == 'f');
        if n == "etc/crontab"@ {
            assert(n[n.len() - 1] == "etc/crontab"@[10]);
        }
        lemma_first_match_none(table, exact_hit(parts, n));
        assert(n.skip(n.len() - 8) =~= "mpd.conf"@);
        if is_suffix(".git/config"@, n) {
            assert(n.skip(n.len() - 11)[10] == n[n.len() - 1]);
        }
        assert(fuzzy_hit(n)(table[2]));
        lemma_first_match_at(table, fuzzy_hit(n), 2);
    }
}

proof fn lemma_ascii_encode_concat(a: Seq<char>, b: Seq<char>)
    requires
        is_ascii_chars(a),
        is_ascii_chars(b),
    ensures
        is_ascii_chars(a + b),
        encode_utf8(a + b) == encode_utf8(a) + encode_utf8(b),
{
    let ab = a + b;
    assert forall|j: int| 0 <= j < ab.len() implies '\0' <= #[trigger] ab[j] <= '\u{7f}' by {
        if j < a.len() {
            assert(ab[j] == a[j]);
        } else {
            assert(ab[j] == b[j - a.len()]);
        }
    }
    vstd::utf8::is_ascii_chars_encode_utf8(a);
    vstd::utf8::is_ascii_chars_encode_utf8(b);
    vstd::utf8::is_ascii_chars_encode_utf8(ab);
    assert forall|j: int| 0 <= j < ab.len() implies #[trigger] encode_utf8(ab)[j] == (
    encode_utf8(a) + encode_utf8(b))[j] by {
        if j < a.len() {
            assert(ab[j] == a[j]);
        } else {
            assert(ab[j] == b[j - a.len()]);
        }
    }
    assert(encode_utf8(ab) =~= encode_utf8(a) + encode_utf8(b));
}

proof fn lemma_ascii_encode_no_slash(a: Seq<char>)
    requires
        is_ascii_chars(a),
        !a.contains('/'),
    ensures
        no_slash(encode_utf8(a)),
{
    vstd::utf8::is_ascii_chars_encode_utf8(a);
    assert forall|j: int| 0 <= j < encode_utf8(a).len() implies encode_utf8(a)[j] != 47u8 by {
        let c = a[j];
        assert('\0' <= c <= '\u{7f}');
        if c as u8 == 47u8 {
            assert(c == '/') by {
                let u = c as u32;
                assert(u < 128);
                assert(u as u8 == c as u8);
            }
        }
    }
}

/// The glob rule decides every ASCII path under a leading `nginx/`
/// directory, at any depth, whose file name ends in `.conf` (dots inside the
/// name included), with high confidence, unless the `mpd.conf` suffix rule
/// decides it first.
pub proof fn glob_rule_decides_nginx_conf_paths(parts: Parts, mid: Seq<char>, name: Seq<char>)
    requires
        mid.len() == 0 || mid.last() == '/',
        is_ascii_chars(mid),
        is_ascii_chars(name),
        !name.contains('/'),
        parts.normalized == Some("nginx/"@ + mid + name + ".conf"@),
        !is_suffix("mpd.conf"@, "nginx/"@ + mid + name + ".conf"@),
    ensures
        special_path_of(parts) == Some((Language::NGINX, Confidence::High)),
{
    reveal_strlit("etc/crontab");
    reveal_strlit(".git/config");
    reveal_strlit("nginx/");
    reveal_strlit(".conf");
    reveal_strlit("nginx/**/*.conf");
    let table = path_rule_table();
    let n = "nginx/"@ + mid + name + ".conf"@;
    // No exact rule and no earlier fuzzy rule hits.
    assert(n[0] == 'n');
    if n == "etc/crontab"@ {
        assert(n[0] == "etc/crontab"@[0]);
    }
    lemma_first_match_none(table, exact_hit(parts, n));
    assert(n[n.len() - 1] == 'f');
    if is_suffix(".git/config"@, n) {
        assert(n.skip(n.len() - 11)[10] == n[n.len() - 1]);
    }
    // The glob matches.
    let head = "nginx/"@;
    let tail = ".conf"@;
    assert(is_ascii_chars(head));
    assert(is_ascii_chars(tail));
    lemma_ascii_encode_concat(head, mid);
    lemma_ascii_encode_concat(head + mid, name);
    lemma_ascii_encode_concat(head + mid + name, tail);
    vstd::utf8::is_ascii_chars_encode_utf8(head);
    vstd::utf8::is_ascii_chars_encode_utf8(tail);
    let hb = seq![110u8, 103u8, 105u8, 110u8, 120u8, 47u8];
    let tb = seq![46u8, 99u8, 111u8, 110u8, 102u8];
    assert(encode_utf8(head) =~= hb);
    assert(encode_utf8(tail) =~= tb);
    let pat = "nginx/**/*.conf"@;
    assert(is_ascii_chars(pat));
    vstd::utf8::is_ascii_chars_encode_utf8(pat);
    let pb = hb + (seq![42u8, 42u8] + (seq![47u8] + (seq![42u8] + tb)));
    assert(encode_utf8(pat) =~= pb);
    let nb = encode_utf8(name);
    lemma_ascii_encode_no_slash(name);
    // `.conf` matches itself; `*` takes the file name.
    glob_without_stars_is_equality(tb, tb);
    glob_star_absorbs_any_run_within_segment(nb, tb, tb);
    let star_part = seq![42u8] + tb;
    if mid.len() == 0 {
        glob_double_star_slash_may_be_empty(star_part, nb + tb);
        assert(seq![42u8, 42u8, 47u8] + star_part =~= seq![42u8, 42u8] + (seq![47u8] + star_part));
        glob_literal_prefix_matches_itself(hb, seq![42u8, 42u8] + (seq![47u8] + star_part), nb + tb);
        assert(encode_utf8(n) =~= hb + (nb + tb)) by {
            assert(mid =~= Seq::<char>::empty());
            assert(head + mid =~= head);
            assert(encode_utf8(mid) =~= Seq::<u8>::empty());
        }
    } else {
        let mp = mid.drop_last();
        assert(is_ascii_chars(mp));
        assert(mid =~= mp + seq!['/']);
        assert(is_ascii_chars(seq!['/']));
        lemma_ascii_encode_concat(mp, seq!['/']);
        vstd::utf8::is_ascii_chars_encode_utf8(seq!['/']);
        assert(encode_utf8(seq!['/']) =~= seq![47u8]);
        let mb = encode_utf8(mp);
        glob_literal_prefix_matches_itself(seq![47u8], star_part, nb + tb);
        glob_double_star_absorbs_any_run(mb, seq![47u8] + star_part, seq![47u8] + (nb + tb));
        glob_literal_prefix_matches_itself(
            hb,
            seq![42u8, 42u8] + (seq![47u8] + star_part),
            mb + (seq![47u8] + (nb + tb)),
        );
        assert(encode_utf8(n) =~= hb + (mb + (seq![47u8] + (nb + tb))));
    }
    assert(fuzzy_hit(n)(table[3]));
    lemma_first_match_at(table, fuzzy_hit(n), 3);
}

// ---------------------------------------------------------------------------
// Detection from paths
// ---------------------------------------------------------------------------

/// The language `name` claims as an exact file name, if any.
pub open spec fn language_by_filename(name: Seq<char>) -> Option<Language> {
    first_language(claims_filename(name))
}

/// What the path alone decides, before any extension: an exact file name
/// first, then the override rules.
pub open spec fn path_finding(parts: Parts) -> Option<Found> {
    let by_name = match parts.filename {
        Some(f) => language_by_filename(f),
        None => None,
    };
    match by_name {
        Some(l) => Some(found(l, DetectionSource::ExactFilename, Confidence::Exact)),
        None => match special_path_of(parts) {
            Some((l, c)) => Some(found(l, DetectionSource::SpecialPath, c)),
            None => None,
        },
    }
}

/// What the extension decides, with medium confidence and the alternatives
/// of an ambiguous extension.
pub open spec fn extension_finding(parts: Parts) -> Option<Found> {
    match parts.extension {
        Some(ext) => match resolve_extension(ext) {
            Some((l, alts)) => Some(
                Found {
                    language: l,
                    source: DetectionSource::Extension,
                    confidence: Confidence::Medium,
                    alternatives: alts,
                },
            ),
            None => None,
        },
        None => None,
    }
}

/// Detection from path parts: exact file name, then override rules, then
/// extension.
pub open spec fn parts_finding(parts: Parts) -> Option<Found> {
    match path_finding(parts) {
        Some(f) => Some(f),
        None => extension_finding(parts),
    }
}

fn path_detection(parts: &PathParts) -> (r: Option<Detection>)
    ensures
        found_of(r) == path_finding(parts@),
{
    // 1. exact filename
    if let Some(fname) = &parts.filename {
        let f = chars_of(fname.as_str());
        if let Some(lang) = by_filename(f.as_slice()) {
            return Some(Detection::new(lang, DetectionSource::ExactFilename, Confidence::Exact));
        }
    }
    // 2. special path rules
    if let Some((lang, conf)) = special_path(parts) {
        return Some(Detection::new(lang, DetectionSource::SpecialPath, conf));
    }
    None
}

fn extension_detection(parts: &PathParts) -> (r: Option<Detection>)
    ensures
        found_of(r) == extension_finding(parts@),
{
    if let Some(ext) = &parts.extension {
        let e = chars_of(ext.as_str());
        if let Some((lang, alternatives)) = by_extension(e.as_slice()) {
            return Some(
                Detection::with_alternatives(
                    lang,
                    DetectionSource::Extension,
                    Confidence::Medium,
                    alternatives,
                ),
            );
        }
    }
    None
}

fn detect_from_parts(parts: &PathParts) -> (r: Option<Detection>)
    ensures
        found_of(r) == parts_finding(parts@),
{
    if let Some(d) = path_detection(parts) {
        return Some(d);
    }
    extension_detection(parts)
}

/// Detect from a path string alone, without touching the filesystem.
pub fn detect_path(path: &str) -> (r: Option<Detection>)
    ensures
        found_of(r) == parts_finding(parts_of(path@)),
{
    let parts = path_parts(path);
    detect_from_parts(&parts)
}

/// Simple wrapper returning only the language.
pub fn detect_language(path: &str) -> (r: Option<Language>)
    ensures
        r == (match parts_finding(parts_of(path@)) {
            Some(f) => Some(f.language),
            None => None,
        }),
{
    match detect_path(path) {
        Some(d) => Some(d.language),
        None => None,
    }
}


// ---------------------------------------------------------------------------
// Shebang
// ---------------------------------------------------------------------------

/// A word that names the interpreter after `env`: it neither starts with `-`
/// nor holds `=` (those are `env` options and variable settings).
pub open spec fn interpreter_word() -> spec_fn(Seq<char>) -> bool {
    |w: Seq<char>| !(w.len() > 0 && w[0] == '-') && !w.contains('=')
}

/// The executable a shebang line names. The line must start with `#!`; of
/// the whitespace-separated words after it, the first is the interpreter
/// path, whose last `/`-separated piece is the executable. When that piece
/// is `env`, the executable is the first later word that
/// [`interpreter_word`] accepts.
pub open spec fn shebang_executable(line: Seq<char>) -> Option<Seq<char>> {
    if line.len() >= 2 && line[0] == '#' && line[1] == '!' {
        let words = ascii_words(line.skip(2));
        if words.len() == 0 {
            None
        } else {
            let exec = after_last(words[0], '/');
            if exec == seq!['e', 'n', 'v'] {
                first_match(words.skip(1), interpreter_word())
            } else {
                Some(exec)
            }
        }
    } else {
        None
    }
}

fn is_interpreter_word(w: &[char]) -> (r: bool)
    ensures
        r == interpreter_word()(w@),
{
    if w.len() > 0 && w[0] == '-' {
        return false;
    }
    let mut i: usize = 0;
    while i < w.len()
        invariant
            i <= w@.len(),
            forall|j: int| 0 <= j < i ==> w@[j] != '=',
        decreases w@.len() - i,
    {
        if w[i] == '=' {
            assert(w@.contains('='));
            return false;
        }
        i += 1;
    }
    true
}

/// Extract the executable name from a shebang line.
///
/// Handles both a direct path and an `env` lookup:
/// `#!/bin/bash` names `bash`, and `#!/usr/bin/env python` names `python`.
pub fn get_shebang_executable(line: &str) -> (r: Option<&str>)
    ensures
        match (r, shebang_executable(line@)) {
            (Some(got), Some(want)) => got@ == want,
            (None, None) => true,
            _ => false,
        },
{
    let v = chars_of(line);
    if v.len() < 2 || v[0] != '#' || v[1] != '!' {
        return None;
    }
    let (a, b) = match next_word(v.as_slice(), 2) {
        Some(w) => w,
        None => return None,
    };
    let ghost words = ascii_words(line@.skip(2));
    let path = &v.as_slice()[a..b];
    let start = match find_last(path, '/') {
        Some(k) => a + k + 1,
        None => a,
    };
    let exec = &v.as_slice()[start..b];
    assert(exec@ == after_last(words[0], '/'));
    let env = ['e', 'n', 'v'];
    if same_chars(exec, env.as_slice()) {
        // Skip any `-S`/`VAR=val` style env arguments to reach the interpreter.
        assert(env@ == seq!['e', 'n', 'v']);
        let ghost p = interpreter_word();
        let mut pos = b;
        assert(words.skip(1) =~= ascii_words(v@.skip(b as int)));
        assert(shebang_executable(line@) == first_match(words.skip(1), p));
        while pos < v.len()
            invariant
                v@ == line@,
                shebang_executable(line@) == first_match(words.skip(1), p),
                b <= pos <= v@.len(),
                p == interpreter_word(),
                first_match(words.skip(1), p) == first_match(ascii_words(v@.skip(pos as int)), p),
            decreases v@.len() - pos,
        {
            match next_word(v.as_slice(), pos) {
                None => {
                    return None;
                },
                Some((c, d)) => {
                    let w = &v.as_slice()[c..d];
                    let ghost rest = ascii_words(v@.skip(pos as int));
                    assert(rest.drop_first() =~= ascii_words(v@.skip(d as int)));
                    assert(rest[0] == w@);
                    if is_interpreter_word(w) {
                        return Some(line.substring_char(c, d));
                    }
                    pos = d;
                },
            }
        }
        assert(v@.skip(pos as int).len() == 0);
        return None;
    }
    Some(line.substring_char(start, b))
}

/// A shebang names its executable only on a line that starts with `#!`, and
/// the name holds no ASCII whitespace.
pub proof fn shebang_executable_is_one_word(line: Seq<char>)
    ensures
        shebang_executable(line) matches Some(x) ==> line.len() >= 2 && line[0] == '#' && line[1]
            == '!' && no_ascii_ws(x),
{
    if let Some(x) = shebang_executable(line) {
        let words = ascii_words(line.skip(2));
        words_have_no_whitespace(line.skip(2));
        assert(words[0].len() > 0 && no_ascii_ws(words[0]));
        let first = words[0];
        lemma_last_index(first, '/');
        let exec = after_last(first, '/');
        if exec == seq!['e', 'n', 'v'] {
            lemma_first_match_member(words.skip(1), interpreter_word());
            let j = choose|j: int| 0 <= j < words.skip(1).len() && words.skip(1)[j] == x;
            assert(words.skip(1)[j] == words[j + 1]);
        } else {
            assert forall|j: int| 0 <= j < x.len() implies !is_ascii_ws(#[trigger] x[j]) by {
                assert(x[j] == first[last_index(first, '/') + 1 + j]);
            }
        }
    }
}

/// The bytes before the first line feed.
pub open spec fn first_line(content: Seq<u8>) -> Seq<u8>
    decreases content.len(),
{
    if content.len() == 0 || content[0] == 10u8 {
        seq![]
    } else {
        seq![content[0]] + first_line(content.skip(1))
    }
}

proof fn lemma_first_line_stops_at_line_feed(b: Seq<u8>, tail: Seq<u8>)
    requires
        !b.contains(10u8),
    ensures
        first_line(b + seq![10u8] + tail) == b,
        first_line(b) == b,
    decreases b.len(),
{
    if b.len() == 0 {
        assert(b + seq![10u8] + tail =~= seq![10u8] + tail);
        assert(b =~= Seq::<u8>::empty());
    } else {
        assert(b[0] != 10u8);
        assert((b + seq![10u8] + tail).skip(1) =~= b.skip(1) + seq![10u8] + tail);
        assert(!b.skip(1).contains(10u8)) by {
            if b.skip(1).contains(10u8) {
                let j = choose|j: int| 0 <= j < b.skip(1).len() && b.skip(1)[j] == 10u8;
                assert(b[j + 1] == 10u8);
            }
        }
        lemma_first_line_stops_at_line_feed(b.skip(1), tail);
        assert(seq![b[0]] + b.skip(1) =~= b);
    }
}

/// The shebang is read from the first line of the content, up to the first
/// line feed: for an ASCII line without a line feed, the content made of
/// that line, a line feed and anything at all, and the content made of the
/// line alone, are both detected as the line is.
pub proof fn content_is_read_up_to_the_first_line_feed(line: Seq<char>, tail: Seq<u8>)
    requires
        is_ascii_chars(line),
        !line.contains('\n'),
    ensures
        content_finding(encode_utf8(line) + seq![10u8] + tail) == shebang_finding(line),
        content_finding(encode_utf8(line)) == shebang_finding(line),
{
    let b = encode_utf8(line);
    vstd::utf8::is_ascii_chars_encode_utf8(line);
    assert(!b.contains(10u8)) by {
        if b.contains(10u8) {
            let j = choose|j: int| 0 <= j < b.len() && b[j] == 10u8;
            let c = line[j];
            assert(c as u8 == 10u8);
            assert('\0' <= c <= '\u{7f}');
            assert(c == '\n') by {
                let u = c as u32;
                assert(u < 128);
                assert(u as u8 == c as u8);
            }
        }
    }
    lemma_first_line_stops_at_line_feed(b, tail);
    vstd::utf8::encode_utf8_valid_utf8(line);
    vstd::utf8::encode_utf8_decode_utf8(line);
}

/// The first line of `content` as text, when it is valid UTF-8.
pub open spec fn first_line_text(content: Seq<u8>) -> Option<Seq<char>> {
    if valid_utf8(first_line(content)) {
        Some(decode_utf8(first_line(content)))
    } else {
        None
    }
}

/// `std::str::from_utf8`: the bytes read as text, exactly when they are valid
/// UTF-8; the text then consists of exactly these bytes.
#[verifier::external_body]
fn utf8_text(bytes: &[u8]) -> (r: Option<&str>)
    ensures
        r is Some <==> valid_utf8(bytes@),
        r matches Some(s) ==> s.spec_bytes() == bytes@,
{
    std::str::from_utf8(bytes).ok()
}

fn first_line_bytes(buf: &[u8]) -> (r: Option<String>)
    ensures
        text_of(r) == first_line_text(buf@),
{
    let mut k: usize = 0;
    assert(buf@.skip(0) =~= buf@);
    assert(buf@.take(0) + first_line(buf@) =~= first_line(buf@));
    while k < buf.len() && buf[k] != 10u8
        invariant
            k <= buf@.len(),
            first_line(buf@) == buf@.take(k as int) + first_line(buf@.skip(k as int)),
        decreases buf@.len() - k,
    {
        assert(buf@.skip(k as int).skip(1) =~= buf@.skip(k + 1));
        assert(buf@.take(k + 1) =~= buf@.take(k as int) + seq![buf@[k as int]]);
        k += 1;
    }
    assert(first_line(buf@.skip(k as int)) =~= Seq::<u8>::empty());
    assert(first_line(buf@) =~= buf@.take(k as int));
    let (line, _) = buf.split_at(k);
    match utf8_text(line) {
        Some(s) => {
            proof {
                vstd::utf8::encode_utf8_decode_utf8(s@);
            }
            Some(s.to_owned())
        },
        None => None,
    }
}

/// The language a shebang line names.
pub open spec fn shebang_finding(line: Seq<char>) -> Option<Found> {
    match shebang_executable(line) {
        Some(exec) => match first_language(claims_interpreter(exec)) {
            Some(l) => Some(found(l, DetectionSource::Shebang, Confidence::High)),
            None => None,
        },
        None => None,
    }
}

/// The language the shebang on the first line of `content` names.
pub open spec fn content_finding(content: Seq<u8>) -> Option<Found> {
    match first_line_text(content) {
        Some(line) => shebang_finding(line),
        None => None,
    }
}

fn shebang_detection(line: &str) -> (r: Option<Detection>)
    ensures
        found_of(r) == shebang_finding(line@),
{
    let exec = match get_shebang_executable(line) {
        Some(e) => e,
        None => return None,
    };
    let x = chars_of(exec);
    match by_shebang(x.as_slice()) {
        Some(lang) => Some(Detection::new(lang, DetectionSource::Shebang, Confidence::High)),
        None => None,
    }
}

fn content_detection(content: &[u8]) -> (r: Option<Detection>)
    ensures
        found_of(r) == content_finding(content@),
{
    match first_line_bytes(content) {
        Some(line) => shebang_detection(line.as_str()),
        None => None,
    }
}

// ---------------------------------------------------------------------------
// Detection from content and tokens
// ---------------------------------------------------------------------------

/// Detection from in-memory content with an optional path: exact file name,
/// then override rules, then a shebang on the first line, then extension.
pub open spec fn buffer_finding(path: Option<Seq<char>>, content: Seq<u8>) -> Option<Found> {
    match path {
        Some(p) => match path_finding(parts_of(p)) {
            Some(f) => Some(f),
            None => match content_finding(content) {
                Some(f) => Some(f),
                None => extension_finding(parts_of(p)),
            },
        },
        None => content_finding(content),
    }
}

/// Detect from in-memory content, with an optional path for filename/extension
/// hints. Useful for editors, LSPs, and unsaved buffers.
pub fn detect_buffer(path: Option<&str>, content: &[u8]) -> (r: Option<Detection>)
    ensures
        found_of(r) == buffer_finding(
            match path {
                Some(p) => Some(p@),
                None => None,
            },
            content@,
        ),
{
    let parts = match path {
        Some(p) => Some(path_parts(p)),
        None => None,
    };
    if let Some(parts) = &parts {
        if let Some(d) = path_detection(parts) {
            return Some(d);
        }
    }
    if let Some(d) = content_detection(content) {
        return Some(d);
    }
    if let Some(parts) = &parts {
        return extension_detection(parts);
    }
    None
}

/// What the path of a file decides on its own, before its content is read:
/// an exact file name, then the override rules. Nothing when the content or
/// the extension must decide.
pub fn detect_path_name(path: &str) -> (r: Option<Detection>)
    ensures
        found_of(r) == path_finding(parts_of(path@)),
{
    let parts = path_parts(path);
    path_detection(&parts)
}

/// Detect from a file given its path and the first bytes read from it (up to
/// 128, none when it could not be read). Exact file names and special paths
/// outrank a shebang, and a shebang outranks the extension.
pub fn detect_file(path: &str, head: &[u8]) -> (r: Option<Detection>)
    ensures
        found_of(r) == buffer_finding(Some(path@), head@),
{
    detect_buffer(Some(path), head)
}

/// Detection from a bare token, with high confidence.
pub open spec fn token_finding(token: Seq<char>) -> Option<Found> {
    match token_language(token) {
        Some(l) => Some(found(l, DetectionSource::Token, Confidence::High)),
        None => None,
    }
}

/// Detect from a bare token: a language name or alias (e.g. `"py"`, `"node"`).
pub fn detect_token(token: &str) -> (r: Option<Detection>)
    ensures
        found_of(r) == token_finding(token@),
{
    let t = chars_of(token);
    match by_token(t.as_slice()) {
        Some(lang) => Some(Detection::new(lang, DetectionSource::Token, Confidence::High)),
        None => None,
    }
}


// ---------------------------------------------------------------------------
// Laws
// ---------------------------------------------------------------------------

/// The confidence a finding carries fits how it was found: an exact file
/// name is certain, an override rule exact or high, a shebang or a token
/// high, an extension medium; and only an extension finding lists
/// alternatives.
pub open spec fn well_graded(f: Found) -> bool {
    &&& match f.source {
        DetectionSource::ExactFilename => f.confidence == Confidence::Exact,
        DetectionSource::SpecialPath => f.confidence == Confidence::Exact || f.confidence
            == Confidence::High,
        DetectionSource::Shebang => f.confidence == Confidence::High,
        DetectionSource::Token => f.confidence == Confidence::High,
        DetectionSource::Extension => f.confidence == Confidence::Medium,
        _ => false,
    }
    &&& f.source != DetectionSource::Extension ==> f.alternatives.len() == 0
}

/// Every detection, from a path, from content with an optional path, or from
/// a token, is well graded.
pub proof fn detections_are_well_graded(
    path: Seq<char>,
    hint: Option<Seq<char>>,
    content: Seq<u8>,
    token: Seq<char>,
)
    ensures
        parts_finding(parts_of(path)) matches Some(f) ==> well_graded(f),
        buffer_finding(hint, content) matches Some(f) ==> well_graded(f),
        token_finding(token) matches Some(f) ==> well_graded(f),
{
}

/// What the path decides (exact file name, then override rules) outranks the
/// content; a shebang in the content outranks the extension; and without a
/// shebang, content makes no difference.
pub proof fn path_outranks_shebang_outranks_extension(path: Seq<char>, content: Seq<u8>)
    ensures
        path_finding(parts_of(path)) is Some ==> buffer_finding(Some(path), content)
            == path_finding(parts_of(path)),
        path_finding(parts_of(path)) is None && content_finding(content) is Some ==> buffer_finding(
            Some(path),
            content,
        ) == content_finding(content),
        content_finding(content) is None ==> buffer_finding(Some(path), content) == parts_finding(
            parts_of(path),
        ),
{
}

/// Extension lookup ignores ASCII case.
pub proof fn extension_lookup_ignores_case(a: Seq<char>, b: Seq<char>)
    requires
        lower(a) == lower(b),
    ensures
        resolve_extension(a) == resolve_extension(b),
{
    assert(names_extension(a) =~= names_extension(b));
    assert(claims_extension(a) =~= claims_extension(b));
}

/// Every language's canonical name, taken as a token, detects that language.
pub proof fn canonical_name_is_a_token(l: Language)
    ensures
        token_finding(info_at(l.ordinal()).canonical_name@) == Some(
            found(l, DetectionSource::Token, Confidence::High),
        ),
{
    registry_is_indexed_by_ordinal();
    canonical_names_are_unique();
    canonical_names_are_lowercase();
    aliases_are_not_canonical_names();
    let k = l.ordinal();
    let n = info_at(k).canonical_name@;
    assert(lower(n) == n);
    assert forall|j: int| 0 <= j < k implies !answers_to(n)(#[trigger] registry()[j]) by {
        let aliases = registry()[j].aliases;
        if listed(aliases, n) {
            let m = choose|m: int| 0 <= m < texts(aliases@).len() && texts(aliases@)[m] == n;
            assert(texts(aliases@)[m] == aliases@[m]@);
            assert(registry()[j].aliases@[m]@ != registry()[k].canonical_name@);
        }
    }
    lemma_first_match_at(registry(), answers_to(n), k);
}

/// The `env` program may live in any directory: for a directory `dir`
/// without whitespace, the line `#!dir/env word rest` names `word`, when
/// `word` is neither an option (leading `-`) nor a variable setting (holds
/// `=`) and `rest` is empty or starts with whitespace.
pub proof fn env_shebang_names_its_argument(dir: Seq<char>, word: Seq<char>, rest: Seq<char>)
    requires
        no_ascii_ws(dir),
        word.len() > 0,
        no_ascii_ws(word),
        word[0] != '-',
        !word.contains('='),
        rest.len() == 0 || is_ascii_ws(rest[0]),
    ensures
        shebang_executable(seq!['#', '!'] + dir + seq!['/', 'e', 'n', 'v', ' '] + word + rest)
            == Some(word),
{
    let line = seq!['#', '!'] + dir + seq!['/', 'e', 'n', 'v', ' '] + word + rest;
    let first = dir + seq!['/', 'e', 'n', 'v'];
    let after = word + rest;
    assert(line.skip(2) =~= first + (seq![' '] + after));
    assert(no_ascii_ws(first)) by {
        assert forall|j: int| 0 <= j < first.len() implies !is_ascii_ws(#[trigger] first[j]) by {
            if j < dir.len() {
                assert(first[j] == dir[j]);
            }
        }
    }
    lemma_words_of_word_then(first, seq![' '] + after);
    lemma_words_skip_ws(' ', after);
    lemma_words_of_word_then(word, rest);
    let words = ascii_words(line.skip(2));
    assert(words[0] == first);
    assert(words.skip(1) =~= seq![word] + ascii_words(rest));
    assert(first =~= dir.push('/') + seq!['e', 'n', 'v']);
    lemma_after_last_concat(dir.push('/'), seq!['e', 'n', 'v'], '/');
    assert(interpreter_word()(word));
    lemma_first_match_at(words.skip(1), interpreter_word(), 0);
}

/// Options (leading `-`) and variable settings (holding `=`) after `env` are
/// skipped: the line `#!dir/env opt word rest` names `word`.
pub proof fn env_shebang_skips_options(
    dir: Seq<char>,
    opt: Seq<char>,
    word: Seq<char>,
    rest: Seq<char>,
)
    requires
        no_ascii_ws(dir),
        opt.len() > 0,
        no_ascii_ws(opt),
        opt[0] == '-' || opt.contains('='),
        word.len() > 0,
        no_ascii_ws(word),
        word[0] != '-',
        !word.contains('='),
        rest.len() == 0 || is_ascii_ws(rest[0]),
    ensures
        shebang_executable(
            seq!['#', '!'] + dir + seq!['/', 'e', 'n', 'v', ' '] + opt + seq![' '] + word + rest,
        ) == Some(word),
{
    let line = seq!['#', '!'] + dir + seq!['/', 'e', 'n', 'v', ' '] + opt + seq![' '] + word + rest;
    let first = dir + seq!['/', 'e', 'n', 'v'];
    let after_word = word + rest;
    let after_opt = opt + (seq![' '] + after_word);
    assert(line.skip(2) =~= first + (seq![' '] + after_opt));
    assert(no_ascii_ws(first)) by {
        assert forall|j: int| 0 <= j < first.len() implies !is_ascii_ws(#[trigger] first[j]) by {
            if j < dir.len() {
                assert(first[j] == dir[j]);
            }
        }
    }
    lemma_words_of_word_then(first, seq![' '] + after_opt);
    lemma_words_skip_ws(' ', after_opt);
    lemma_words_of_word_then(opt, seq![' '] + after_word);
    lemma_words_skip_ws(' ', after_word);
    lemma_words_of_word_then(word, rest);
    let words = ascii_words(line.skip(2));
    assert(words[0] == first);
    assert(words.skip(1) =~= seq![opt, word] + ascii_words(rest));
    assert(first =~= dir.push('/') + seq!['e', 'n', 'v']);
    lemma_after_last_concat(dir.push('/'), seq!['e', 'n', 'v'], '/');
    assert(!interpreter_word()(opt));
    assert(interpreter_word()(word));
    lemma_first_match_at(words.skip(1), interpreter_word(), 1);
}

/// A shebang without `env` names the last piece of its interpreter path:
/// for a directory `dir` and an executable `exec` other than `env`, both
/// without whitespace and `exec` without `/`, the line `#!dir/exec rest`
/// names `exec` when `rest` is empty or starts with whitespace.
pub proof fn direct_shebang_names_last_path_piece(dir: Seq<char>, exec: Seq<char>, rest: Seq<char>)
    requires
        no_ascii_ws(dir),
        exec.len() > 0,
        no_ascii_ws(exec),
        !exec.contains('/'),
        exec != seq!['e', 'n', 'v'],
        rest.len() == 0 || is_ascii_ws(rest[0]),
    ensures
        shebang_executable(seq!['#', '!'] + dir + seq!['/'] + exec + rest) == Some(exec),
{
    let line = seq!['#', '!'] + dir + seq!['/'] + exec + rest;
    let first = dir.push('/') + exec;
    assert(line.skip(2) =~= first + rest);
    assert(no_ascii_ws(first)) by {
        assert forall|j: int| 0 <= j < first.len() implies !is_ascii_ws(#[trigger] first[j]) by {
            if j < dir.len() {
                assert(first[j] == dir[j]);
            } else if j > dir.len() {
                assert(first[j] == exec[j - dir.len() - 1]);
            }
        }
    }
    lemma_words_of_word_then(first, rest);
    lemma_after_last_concat(dir.push('/'), exec, '/');
}

/// An interpreter name that a record lists, as it is written there (case
/// included), detects that record's language behind `env`, unless an
/// earlier record lists the same name.
pub proof fn listed_interpreter_is_detected(dir: Seq<char>, i: int, m: int, rest: Seq<char>)
    requires
        0 <= i < registry().len(),
        0 <= m < registry()[i].shebangs@.len(),
        registry()[i].shebangs@[m]@.len() > 0,
        no_ascii_ws(registry()[i].shebangs@[m]@),
        registry()[i].shebangs@[m]@[0] != '-',
        !registry()[i].shebangs@[m]@.contains('='),
        forall|j: int, k: int|
            0 <= j < i && 0 <= k < registry()[j].shebangs@.len() ==> (#[trigger] registry()[j].shebangs@[k])@
                != registry()[i].shebangs@[m]@,
        no_ascii_ws(dir),
        rest.len() == 0 || is_ascii_ws(rest[0]),
    ensures
        shebang_finding(
            seq!['#', '!'] + dir + seq!['/', 'e', 'n', 'v', ' '] + registry()[i].shebangs@[m]@ + rest,
        ) == Some(found(registry()[i].language, DetectionSource::Shebang, Confidence::High)),
{
    let x = registry()[i].shebangs@[m]@;
    env_shebang_names_its_argument(dir, x, rest);
    assert(texts(registry()[i].shebangs@)[m] == x);
    assert forall|j: int| 0 <= j < i implies !claims_interpreter(x)(#[trigger] registry()[j]) by {
        let list = registry()[j].shebangs@;
        if texts(list).contains(x) {
            let k = choose|k: int| 0 <= k < texts(list).len() && texts(list)[k] == x;
            assert(texts(list)[k] == list[k]@);
        }
    }
    lemma_first_match_at(registry(), claims_interpreter(x), i);
}

/// A file name that a record lists, as it is written there, detects that
/// record's language with exact confidence after any directory prefix,
/// whatever the content, unless an earlier record lists the same name.
pub proof fn listed_file_name_is_detected(prefix: Seq<char>, i: int, m: int, content: Seq<u8>)
    requires
        prefix.len() == 0 || is_sep(prefix.last()),
        0 <= i < registry().len(),
        0 <= m < registry()[i].filenames@.len(),
        registry()[i].filenames@[m]@.len() > 0,
        no_sep(registry()[i].filenames@[m]@),
        forall|j: int, k: int|
            0 <= j < i && 0 <= k < registry()[j].filenames@.len() ==> (#[trigger] registry()[j].filenames@[k])@
                != registry()[i].filenames@[m]@,
    ensures
        parts_finding(parts_of(prefix + registry()[i].filenames@[m]@)) == Some(
            found(registry()[i].language, DetectionSource::ExactFilename, Confidence::Exact),
        ),
        buffer_finding(Some(prefix + registry()[i].filenames@[m]@), content) == Some(
            found(registry()[i].language, DetectionSource::ExactFilename, Confidence::Exact),
        ),
{
    let x = registry()[i].filenames@[m]@;
    file_name_is_last_component(prefix, x);
    assert(texts(registry()[i].filenames@)[m] == x);
    assert forall|j: int| 0 <= j < i implies !claims_filename(x)(#[trigger] registry()[j]) by {
        let list = registry()[j].filenames@;
        if texts(list).contains(x) {
            let k = choose|k: int| 0 <= k < texts(list).len() && texts(list)[k] == x;
            assert(texts(list)[k] == list[k]@);
        }
    }
    lemma_first_match_at(registry(), claims_filename(x), i);
}

/// Every ambiguous extension entry holds at least one candidate.
proof fn lemma_ambiguous_entries_have_candidates()
    ensures
        forall|k: int|
            0 <= k < ambiguous_table().len() ==> (#[trigger] ambiguous_table()[k]).candidates@.len()
                > 0,
{
}

/// Every extension that a record lists resolves to some language.
pub proof fn listed_extensions_resolve(i: int, m: int)
    requires
        0 <= i < registry().len(),
        0 <= m < registry()[i].extensions@.len(),
    ensures
        resolve_extension(registry()[i].extensions@[m]@) is Some,
{
    let e = registry()[i].extensions@[m]@;
    lemma_ambiguous_entries_have_candidates();
    lemma_first_match_member(ambiguous_table(), names_extension(e));
    if first_match(ambiguous_table(), names_extension(e)) is None {
        assert(claims_extension(e)(registry()[i]));
        lemma_first_match_some(registry(), claims_extension(e), i);
    }
}

/// An extension that a record lists, in any ASCII case, detects that
/// record's language with medium confidence and no alternatives, when no
/// ambiguous entry and no earlier record claims it. The path may have any
/// directory prefix and any non-empty stem.
pub proof fn listed_extension_is_detected(
    prefix: Seq<char>,
    stem: Seq<char>,
    i: int,
    m: int,
    ext: Seq<char>,
)
    requires
        prefix.len() == 0 || is_sep(prefix.last()),
        stem.len() > 0,
        no_sep(stem),
        0 <= i < registry().len(),
        0 <= m < registry()[i].extensions@.len(),
        lower(ext) == lower(registry()[i].extensions@[m]@),
        no_sep(ext),
        !ext.contains('.'),
        forall|k: int|
            0 <= k < ambiguous_table().len() ==> lower((#[trigger] ambiguous_table()[k]).ext@)
                != lower(ext),
        forall|j: int, k: int|
            0 <= j < i && 0 <= k < registry()[j].extensions@.len() ==> lower(
                (#[trigger] registry()[j].extensions@[k])@,
            ) != lower(ext),
    ensures
        resolve_extension(ext) == Some((registry()[i].language, Seq::<Language>::empty())),
        extension_finding(parts_of(prefix + (stem.push('.') + ext))) == Some(
            Found {
                language: registry()[i].language,
                source: DetectionSource::Extension,
                confidence: Confidence::Medium,
                alternatives: Seq::<Language>::empty(),
            },
        ),
{
    extension_is_text_after_last_dot(prefix, stem, ext);
    lemma_lower_idempotent(ext);
    extension_lookup_ignores_case(ext, lower(ext));
    lemma_first_match_none(ambiguous_table(), names_extension(ext));
    assert forall|j: int| 0 <= j < i implies !claims_extension(ext)(#[trigger] registry()[j]) by {
        let list = registry()[j].extensions;
        if listed_ignoring_case(list, ext) {
            let k = choose|k: int| 0 <= k < list@.len() && lower(#[trigger] list@[k]@) == lower(ext);
            assert(lower(registry()[j].extensions@[k]@) != lower(ext));
        }
    }
    assert(claims_extension(ext)(registry()[i]));
    lemma_first_match_at(registry(), claims_extension(ext), i);
}

/// An extension named by an ambiguous entry, in any ASCII case, resolves to
/// that entry's first candidate with the others as alternatives, in order,
/// when no earlier entry names it.
pub proof fn ambiguous_extension_carries_alternatives(k: int, ext: Seq<char>)
    requires
        0 <= k < ambiguous_table().len(),
        lower(ext) == lower(ambiguous_table()[k].ext@),
        forall|j: int|
            0 <= j < k ==> lower((#[trigger] ambiguous_table()[j]).ext@) != lower(ext),
    ensures
        resolve_extension(ext) == Some(
            (
                ambiguous_table()[k].candidates@[0],
                ambiguous_table()[k].candidates@.skip(1),
            ),
        ),
{
    lemma_ambiguous_entries_have_candidates();
    lemma_first_match_at(ambiguous_table(), names_extension(ext), k);
}

/// An alias that a record lists detects that record's language when given
/// as a token in any ASCII case, unless an earlier record answers to it.
pub proof fn listed_alias_is_a_token(i: int, m: int, token: Seq<char>)
    requires
        0 <= i < registry().len(),
        0 <= m < registry()[i].aliases@.len(),
        lower(token) == registry()[i].aliases@[m]@,
        forall|j: int| 0 <= j < i ==> (#[trigger] registry()[j]).canonical_name@ != lower(token),
        forall|j: int, k: int|
            0 <= j < i && 0 <= k < registry()[j].aliases@.len() ==> (#[trigger] registry()[j].aliases@[k])@
                != lower(token),
    ensures
        token_finding(token) == Some(
            found(registry()[i].language, DetectionSource::Token, Confidence::High),
        ),
{
    let x = lower(token);
    assert(texts(registry()[i].aliases@)[m] == x);
    assert forall|j: int| 0 <= j < i implies !answers_to(x)(#[trigger] registry()[j]) by {
        let list = registry()[j].aliases@;
        if texts(list).contains(x) {
            let k = choose|k: int| 0 <= k < texts(list).len() && texts(list)[k] == x;
            assert(texts(list)[k] == list[k]@);
        }
    }
    lemma_first_match_at(registry(), answers_to(x), i);
}

/// Token lookup ignores ASCII case.
pub proof fn token_lookup_ignores_case(a: Seq<char>, b: Seq<char>)
    requires
        lower(a) == lower(b),
    ensures
        token_finding(a) == token_finding(b),
{
}

} // verus!
