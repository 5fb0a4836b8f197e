//! Curated special-path override rules.
//!
//! These exist for paths that extension/filename lookup alone cannot resolve,
//! e.g. globbed config trees or filenames that only mean something at a
//! particular path. Keeping them as data here avoids scattering special cases
//! through the detection functions.

use vstd::prelude::*;
use vstd::string::StringSliceAdditionalSpecFns;

use crate::language::Language;

verus! {

/// A single override rule, matched against a normalized (`/`-separated) path.
#[derive(Debug, Clone, Copy)]
pub enum PathRule {
    /// The whole normalized path equals `path`.
    ExactPath { path: &'static str, language: Language },
    /// The final path component equals `filename`.
    ExactFilename { filename: &'static str, language: Language },
    /// The normalized path ends with `suffix`.
    Suffix { suffix: &'static str, language: Language },
    /// The normalized path starts with `prefix`.
    Prefix { prefix: &'static str, language: Language },
    /// The normalized path contains `needle`.
    Contains { needle: &'static str, language: Language },
    /// The normalized path matches a glob (`*` within a segment, `**` across
    /// segments).
    Glob { pattern: &'static str, language: Language },
}

/// The language a rule assigns.
pub open spec fn rule_language(rule: PathRule) -> Language {
    match rule {
        PathRule::ExactPath { language, .. } => language,
        PathRule::ExactFilename { language, .. } => language,
        PathRule::Suffix { language, .. } => language,
        PathRule::Prefix { language, .. } => language,
        PathRule::Contains { language, .. } => language,
        PathRule::Glob { language, .. } => language,
    }
}

impl PathRule {
    pub fn language(&self) -> (r: Language)
        ensures
            r == rule_language(*self),
    {
        match self {
            PathRule::ExactPath { language, .. } => *language,
            PathRule::ExactFilename { language, .. } => *language,
            PathRule::Suffix { language, .. } => *language,
            PathRule::Prefix { language, .. } => *language,
            PathRule::Contains { language, .. } => *language,
            PathRule::Glob { language, .. } => *language,
        }
    }
}

/// The override rules, in the order the detector tries them.
pub open spec fn path_rule_table() -> Seq<PathRule> {
    seq![
        PathRule::ExactPath { path: "etc/crontab", language: Language::CRONTAB },
        PathRule::Suffix { suffix: ".git/config", language: Language::GIT_CONFIG },
        PathRule::Suffix { suffix: "mpd.conf", language: Language::MPD_CONFIG },
        PathRule::Glob { pattern: "nginx/**/*.conf", language: Language::NGINX },
    ]
}

/// Override rules, evaluated by precedence groups in [`crate::detect`].
pub fn path_rules() -> (r: &'static [PathRule])
    ensures
        r@ == path_rule_table(),
{
    let r: &'static [PathRule] = &[
        PathRule::ExactPath { path: "etc/crontab", language: Language::CRONTAB },
        PathRule::Suffix { suffix: ".git/config", language: Language::GIT_CONFIG },
        PathRule::Suffix { suffix: "mpd.conf", language: Language::MPD_CONFIG },
        PathRule::Glob { pattern: "nginx/**/*.conf", language: Language::NGINX },
    ];
    r
}

/// Whether `pat` matches the whole of `text`, where `*` stands for any run of
/// bytes other than `/` (the empty run included) and `**` for any run at all.
/// A `**` followed by `/` may also match no directory at all, so that `**/x`
/// matches `x`. Every other byte of the pattern matches itself.
pub open spec fn glob_spec(pat: Seq<u8>, text: Seq<u8>) -> bool
    decreases pat.len(),
{
    if pat.len() == 0 {
        text.len() == 0
    } else if pat[0] == 42u8 {
        if pat.len() >= 2 && pat[1] == 42u8 {
            let rest = pat.skip(2);
            ||| exists|i: int| 0 <= i <= text.len() && glob_spec(rest, #[trigger] text.skip(i))
            ||| (rest.len() > 0 && rest[0] == 47u8 && glob_spec(rest.skip(1), text))
        } else {
            let rest = pat.skip(1);
            exists|i: int|
                0 <= i <= text.len() && no_slash(text.take(i)) && glob_spec(
                    rest,
                    #[trigger] text.skip(i),
                )
        }
    } else {
        text.len() > 0 && pat[0] == text[0] && glob_spec(pat.skip(1), text.skip(1))
    }
}

/// No byte of `s` is a `/`.
pub open spec fn no_slash(s: Seq<u8>) -> bool {
    forall|j: int| 0 <= j < s.len() ==> s[j] != 47u8
}


/// A pattern without `*` matches exactly the text equal to it.
pub proof fn glob_without_stars_is_equality(pat: Seq<u8>, text: Seq<u8>)
    requires
        forall|j: int| 0 <= j < pat.len() ==> pat[j] != 42u8,
    ensures
        glob_spec(pat, text) <==> pat == text,
    decreases pat.len(),
{
    if pat.len() == 0 && text.len() == 0 {
        assert(pat =~= text);
    }
    if pat.len() > 0 {
        assert(pat[0] != 42u8);
    }
    if pat.len() > 0 && text.len() > 0 {
        glob_without_stars_is_equality(pat.skip(1), text.skip(1));
        if pat[0] == text[0] && pat.skip(1) == text.skip(1) {
            assert(pat =~= text) by {
                assert forall|j: int| 0 <= j < pat.len() implies pat[j] == text[j] by {
                    if j > 0 {
                        assert(pat[j] == pat.skip(1)[j - 1]);
                        assert(text[j] == text.skip(1)[j - 1]);
                    }
                }
            }
        }
        if pat == text {
            assert(pat.skip(1) =~= text.skip(1));
        }
    }
}

/// A lone `*` matches exactly the texts without `/`.
pub proof fn single_star_stays_in_segment(text: Seq<u8>)
    ensures
        glob_spec(seq![42u8], text) <==> no_slash(text),
{
    let pat = seq![42u8];
    assert(pat.skip(1) =~= Seq::<u8>::empty());
    if no_slash(text) {
        assert(text.take(text.len() as int) =~= text);
        assert(text.skip(text.len() as int) =~= Seq::<u8>::empty());
        assert(glob_spec(pat.skip(1), text.skip(text.len() as int)));
    }
    if glob_spec(pat, text) {
        let i = choose|i: int|
            0 <= i <= text.len() && no_slash(text.take(i)) && glob_spec(
                pat.skip(1),
                #[trigger] text.skip(i),
            );
        assert(text.take(i) =~= text);
    }
}

/// A lone `**` matches every text, `/` included.
pub proof fn double_star_matches_everything(text: Seq<u8>)
    ensures
        glob_spec(seq![42u8, 42u8], text),
{
    let pat = seq![42u8, 42u8];
    assert(pat.skip(2) =~= Seq::<u8>::empty());
    assert(text.skip(text.len() as int) =~= Seq::<u8>::empty());
    assert(glob_spec(pat.skip(2), text.skip(text.len() as int)));
}

/// How many `/` bytes `s` holds.
pub open spec fn slash_count(s: Seq<u8>) -> nat
    decreases s.len(),
{
    if s.len() == 0 {
        0
    } else {
        (if s[0] == 47u8 {
            1nat
        } else {
            0nat
        }) + slash_count(s.skip(1))
    }
}

proof fn lemma_slash_count_split(s: Seq<u8>, i: int)
    requires
        0 <= i <= s.len(),
    ensures
        slash_count(s) == slash_count(s.take(i)) + slash_count(s.skip(i)),
        no_slash(s.take(i)) ==> slash_count(s.take(i)) == 0,
    decreases i,
{
    if i == 0 {
        assert(s.skip(0) =~= s);
        assert(s.take(0).len() == 0);
    } else {
        let t = s.skip(1);
        lemma_slash_count_split(t, i - 1);
        assert(s.take(i).skip(1) =~= t.take(i - 1));
        assert(t.skip(i - 1) =~= s.skip(i));
        assert(s.take(i)[0] == s[0]);
        if no_slash(s.take(i)) {
            assert forall|j: int| 0 <= j < i - 1 implies #[trigger] t.take(i - 1)[j] != 47u8 by {
                assert(t.take(i - 1)[j] == s.take(i)[j + 1]);
            }
        }
    }
}

/// Without `**`, a pattern matches only texts with exactly as many `/` as
/// the pattern has: a single `*` never crosses a separator.
pub proof fn glob_without_double_star_keeps_slash_count(pat: Seq<u8>, text: Seq<u8>)
    requires
        forall|j: int| 0 <= j < pat.len() - 1 ==> !(pat[j] == 42u8 && #[trigger] pat[j + 1] == 42u8),
        glob_spec(pat, text),
    ensures
        slash_count(text) == slash_count(pat),
    decreases pat.len(),
{
    if pat.len() > 0 {
        let rest = pat.skip(1);
        assert forall|j: int| 0 <= j < rest.len() - 1 implies !(rest[j] == 42u8 && #[trigger] rest[j
            + 1] == 42u8) by {
            assert(rest[j] == pat[j + 1]);
            assert(rest[j + 1] == pat[(j + 1) + 1]);
        }
        if pat[0] == 42u8 {
            if pat.len() >= 2 {
                assert(!(pat[0] == 42u8 && pat[0int + 1] == 42u8));
            }
            let i = choose|i: int|
                0 <= i <= text.len() && no_slash(text.take(i)) && glob_spec(
                    rest,
                    #[trigger] text.skip(i),
                );
            glob_without_double_star_keeps_slash_count(rest, text.skip(i));
            lemma_slash_count_split(text, i);
        } else {
            glob_without_double_star_keeps_slash_count(rest, text.skip(1));
        }
    }
}

/// A byte other than `*` matches itself: prefixing the same byte to a
/// matching pattern and text keeps them matching.
pub proof fn glob_literal_byte_matches_itself(c: u8, pat: Seq<u8>, text: Seq<u8>)
    requires
        c != 42u8,
        glob_spec(pat, text),
    ensures
        glob_spec(seq![c] + pat, seq![c] + text),
{
    assert((seq![c] + pat).skip(1) =~= pat);
    assert((seq![c] + text).skip(1) =~= text);
}

/// A run of bytes without `*` matches itself: prefixing the same such run
/// to a matching pattern and text keeps them matching.
pub proof fn glob_literal_prefix_matches_itself(lit: Seq<u8>, pat: Seq<u8>, text: Seq<u8>)
    requires
        forall|j: int| 0 <= j < lit.len() ==> lit[j] != 42u8,
        glob_spec(pat, text),
    ensures
        glob_spec(lit + pat, lit + text),
    decreases lit.len(),
{
    if lit.len() > 0 {
        let l = lit.drop_last();
        assert(lit.last() != 42u8);
        glob_literal_byte_matches_itself(lit.last(), pat, text);
        assert forall|j: int| 0 <= j < l.len() implies l[j] != 42u8 by {
            assert(l[j] == lit[j]);
        }
        glob_literal_prefix_matches_itself(l, seq![lit.last()] + pat, seq![lit.last()] + text);
        assert(l + (seq![lit.last()] + pat) =~= lit + pat);
        assert(l + (seq![lit.last()] + text) =~= lit + text);
    }
}

/// A single `*` absorbs any run of bytes without `/`, dots and every other
/// byte included: when `pat` matches `text`, `*` followed by `pat` matches
/// `run + text` (where `pat` does not itself start with `*`).
pub proof fn glob_star_absorbs_any_run_within_segment(run: Seq<u8>, pat: Seq<u8>, text: Seq<u8>)
    requires
        no_slash(run),
        pat.len() == 0 || pat[0] != 42u8,
        glob_spec(pat, text),
    ensures
        glob_spec(seq![42u8] + pat, run + text),
{
    let p = seq![42u8] + pat;
    let t = run + text;
    let i = run.len() as int;
    assert(p.skip(1) =~= pat);
    assert(t.take(i) =~= run);
    assert(t.skip(i) =~= text);
    assert(glob_spec(p.skip(1), t.skip(i)));
}

/// `**` absorbs any run of bytes at all, `/` included: when `pat` matches
/// `text`, `**` followed by `pat` matches `run + text`.
pub proof fn glob_double_star_absorbs_any_run(run: Seq<u8>, pat: Seq<u8>, text: Seq<u8>)
    requires
        glob_spec(pat, text),
    ensures
        glob_spec(seq![42u8, 42u8] + pat, run + text),
{
    let p = seq![42u8, 42u8] + pat;
    let t = run + text;
    let i = run.len() as int;
    assert(p.skip(2) =~= pat);
    assert(t.skip(i) =~= text);
    assert(glob_spec(p.skip(2), t.skip(i)));
}

/// `**/` may also stand for no directory at all: when `pat` matches `text`,
/// `**/` followed by `pat` matches `text` itself.
pub proof fn glob_double_star_slash_may_be_empty(pat: Seq<u8>, text: Seq<u8>)
    requires
        glob_spec(pat, text),
    ensures
        glob_spec(seq![42u8, 42u8, 47u8] + pat, text),
{
    let p = seq![42u8, 42u8, 47u8] + pat;
    assert(p.skip(2) =~= seq![47u8] + pat);
    assert(p.skip(2).skip(1) =~= pat);
}

/// Match `pattern` against `path`, where `*` matches any run of characters
/// except `/`, and `**` matches any run including `/`. Both strings are assumed
/// already normalized (forward slashes, no duplicate separators).
pub fn glob_match(pattern: &str, path: &str) -> (r: bool)
    ensures
        r == glob_spec(pattern.spec_bytes(), path.spec_bytes()),
{
    glob_inner(pattern.as_bytes(), path.as_bytes())
}

fn glob_inner(pat: &[u8], text: &[u8]) -> (r: bool)
    ensures
        r == glob_spec(pat@, text@),
    decreases pat@.len(),
{
    if pat.len() == 0 {
        return text.len() == 0;
    }
    if pat[0] == 42u8 {
        if pat.len() >= 2 && pat[1] == 42u8 {
            // `**` matches any run, including `/`.
            let rest = &pat[2..pat.len()];
            assert(rest@ == pat@.skip(2));
            let mut i: usize = 0;
            loop
                invariant
                    i <= text@.len(),
                    pat@.len() >= 2 && pat@[0] == 42u8 && pat@[1] == 42u8,
                    rest@ == pat@.skip(2),
                    rest@.len() < pat@.len(),
                    forall|k: int| 0 <= k < i ==> !glob_spec(rest@, #[trigger] text@.skip(k)),
                ensures
                    forall|k: int|
                        0 <= k <= text@.len() ==> !glob_spec(rest@, #[trigger] text@.skip(k)),
                decreases text@.len() - i,
            {
                let tail = &text[i..text.len()];
                assert(tail@ == text@.skip(i as int));
                if glob_inner(rest, tail) {
                    return true;
                }
                if i == text.len() {
                    break;
                }
                i += 1;
            }
            // `**/foo` should also match `foo` with zero intervening dirs.
            if rest.len() > 0 && rest[0] == 47u8 {
                let after = &rest[1..rest.len()];
                assert(after@ == rest@.skip(1));
                if glob_inner(after, text) {
                    return true;
                }
            }
            return false;
        }
        // Single `*` matches any run of non-`/` characters (including empty).
        let rest = &pat[1..pat.len()];
        assert(rest@ == pat@.skip(1));
        let mut i: usize = 0;
        loop
            invariant
                i <= text@.len(),
                pat@.len() >= 1 && pat@[0] == 42u8,
                !(pat@.len() >= 2 && pat@[1] == 42u8),
                rest@ == pat@.skip(1),
                rest@.len() < pat@.len(),
                no_slash(text@.take(i as int)),
                forall|k: int| 0 <= k < i ==> !glob_spec(rest@, #[trigger] text@.skip(k)),
            decreases text@.len() - i,
        {
            let tail = &text[i..text.len()];
            assert(tail@ == text@.skip(i as int));
            if glob_inner(rest, tail) {
                return true;
            }
            if i >= text.len() || text[i] == 47u8 {
                assert forall|k: int|
                    0 <= k <= text@.len() && no_slash(text@.take(k)) implies !glob_spec(
                    rest@,
                    #[trigger] text@.skip(k),
                ) by {
                    if k > i {
                        assert(text@.take(k)[i as int] == text@[i as int]);
                    }
                }
                return false;
            }
            assert(text@.take(i + 1) =~= text@.take(i as int).push(text@[i as int]));
            i += 1;
        }
    }
    if text.len() > 0 && pat[0] == text[0] {
        let p1 = &pat[1..pat.len()];
        let t1 = &text[1..text.len()];
        assert(p1@ == pat@.skip(1));
        assert(t1@ == text@.skip(1));
        return glob_inner(p1, t1);
    }
    false
}

} // verus!
