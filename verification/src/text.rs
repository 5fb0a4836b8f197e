//! Character-level helpers on which the detector is built.

use vstd::prelude::*;

verus! {

/// The first element of `s` that satisfies `p`, if any.
pub open spec fn first_match<T>(s: Seq<T>, p: spec_fn(T) -> bool) -> Option<T>
    decreases s.len(),
{
    if s.len() == 0 {
        None
    } else if p(s[0]) {
        Some(s[0])
    } else {
        first_match(s.drop_first(), p)
    }
}

/// What `first_match` finds is an element of `s` that satisfies `p`.
pub proof fn lemma_first_match_member<T>(s: Seq<T>, p: spec_fn(T) -> bool)
    ensures
        first_match(s, p) matches Some(x) ==> s.contains(x) && p(x),
    decreases s.len(),
{
    if s.len() > 0 && !p(s[0]) {
        lemma_first_match_member(s.drop_first(), p);
        if let Some(x) = first_match(s.drop_first(), p) {
            let j = choose|j: int| 0 <= j < s.drop_first().len() && s.drop_first()[j] == x;
            assert(s[j + 1] == x);
        }
    }
}

/// When no element satisfies `p`, `first_match` finds nothing.
pub proof fn lemma_first_match_none<T>(s: Seq<T>, p: spec_fn(T) -> bool)
    requires
        forall|k: int| 0 <= k < s.len() ==> !p(#[trigger] s[k]),
    ensures
        first_match(s, p) is None,
    decreases s.len(),
{
    if s.len() > 0 {
        assert(!p(s[0]));
        assert forall|k: int| 0 <= k < s.drop_first().len() implies !p(#[trigger] s.drop_first()[k]) by {
            assert(s.drop_first()[k] == s[k + 1]);
        }
        lemma_first_match_none(s.drop_first(), p);
    }
}

/// When some element satisfies `p`, `first_match` finds one.
pub proof fn lemma_first_match_some<T>(s: Seq<T>, p: spec_fn(T) -> bool, k: int)
    requires
        0 <= k < s.len(),
        p(s[k]),
    ensures
        first_match(s, p) is Some,
    decreases k,
{
    if k > 0 && !p(s[0]) {
        assert(s.drop_first()[k - 1] == s[k]);
        lemma_first_match_some(s.drop_first(), p, k - 1);
    }
}

/// `first_match` finds the element at `k` when it is the first one that
/// satisfies `p`.
pub proof fn lemma_first_match_at<T>(s: Seq<T>, p: spec_fn(T) -> bool, k: int)
    requires
        0 <= k < s.len(),
        p(s[k]),
        forall|j: int| 0 <= j < k ==> !p(#[trigger] s[j]),
    ensures
        first_match(s, p) == Some(s[k]),
    decreases k,
{
    if k > 0 {
        assert forall|j: int| 0 <= j < k - 1 implies !p(#[trigger] s.drop_first()[j]) by {
            assert(s.drop_first()[j] == s[j + 1]);
        }
        lemma_first_match_at(s.drop_first(), p, k - 1);
    }
}

/// ASCII lowercase of one character; every other character is unchanged.
pub open spec fn lower_char(c: char) -> char {
    if 'A' <= c && c <= 'Z' {
        ((c as u32) + 32) as char
    } else {
        c
    }
}

/// ASCII lowercase of one character, as `char::to_ascii_lowercase` gives it.
pub fn to_lower_char(c: char) -> (r: char)
    ensures
        r == lower_char(c),
{
    if 'A' <= c && c <= 'Z' {
        let b: u8 = c as u8;
        (b + 32) as char
    } else {
        c
    }
}

/// ASCII lowercase of a whole character sequence.
pub open spec fn lower(s: Seq<char>) -> Seq<char> {
    s.map_values(|c: char| lower_char(c))
}

/// Lowercasing twice is lowercasing once.
pub proof fn lemma_lower_idempotent(s: Seq<char>)
    ensures
        lower(lower(s)) == lower(s),
{
    assert forall|j: int| 0 <= j < s.len() implies #[trigger] lower(lower(s))[j] == lower(s)[j] by {
        lemma_lower_char(s[j]);
    }
    assert(lower(lower(s)) =~= lower(s));
}

/// `p` is a prefix of `s`.
pub open spec fn is_prefix(p: Seq<char>, s: Seq<char>) -> bool {
    p.len() <= s.len() && s.take(p.len() as int) == p
}

/// `p` is a suffix of `s`.
pub open spec fn is_suffix(p: Seq<char>, s: Seq<char>) -> bool {
    p.len() <= s.len() && s.skip(s.len() - p.len()) == p
}

/// `n` occurs somewhere in `s` as a contiguous run.
pub open spec fn contains_run(s: Seq<char>, n: Seq<char>) -> bool {
    exists|i: int| 0 <= i && i + n.len() <= s.len() && #[trigger] s.subrange(i, i + n.len()) == n
}

/// Index of the last occurrence of `c` in `s`, or -1 when there is none.
pub open spec fn last_index(s: Seq<char>, c: char) -> int
    decreases s.len(),
{
    if s.len() == 0 {
        -1
    } else if s.last() == c {
        s.len() - 1
    } else {
        last_index(s.drop_last(), c)
    }
}

/// `last_index` is the position of a `c` with no `c` after it, or -1 when
/// `s` holds no `c`.
pub proof fn lemma_last_index(s: Seq<char>, c: char)
    ensures
        -1 <= last_index(s, c) < s.len(),
        last_index(s, c) >= 0 ==> s[last_index(s, c)] == c,
        forall|j: int| last_index(s, c) < j < s.len() ==> s[j] != c,
    decreases s.len(),
{
    if s.len() > 0 && s.last() != c {
        lemma_last_index(s.drop_last(), c);
        assert forall|j: int| last_index(s, c) < j < s.len() implies s[j] != c by {
            if j < s.len() - 1 {
                assert(s[j] == s.drop_last()[j]);
            }
        }
    }
}

/// ASCII lowercasing is idempotent, and it never makes or unmakes a
/// character outside `A`..`Z` and `a`..`z`.
pub proof fn lemma_lower_char(c: char)
    ensures
        lower_char(lower_char(c)) == lower_char(c),
        !('A' <= c <= 'Z') && !('a' <= c <= 'z') ==> lower_char(c) == c,
        'A' <= c <= 'Z' ==> 'a' <= lower_char(c) <= 'z',
{
}

/// Appending a run without `c` to a text that is empty or ends with `c`
/// leaves that run after the last `c`.
pub proof fn lemma_after_last_concat(m: Seq<char>, x: Seq<char>, c: char)
    requires
        m.len() == 0 || m.last() == c,
        !x.contains(c),
    ensures
        last_index(m + x, c) == m.len() - 1,
        after_last(m + x, c) == x,
    decreases x.len(),
{
    if x.len() == 0 {
        assert(m + x =~= m);
    } else {
        assert((m + x).drop_last() =~= m + x.drop_last());
        assert((m + x).last() == x.last());
        assert(!x.drop_last().contains(c)) by {
            if x.drop_last().contains(c) {
                let j = choose|j: int| 0 <= j < x.drop_last().len() && x.drop_last()[j] == c;
                assert(x[j] == c);
            }
        }
        lemma_after_last_concat(m, x.drop_last(), c);
    }
    assert((m + x).skip(m.len() as int) =~= x);
}

/// What follows the last `c` in `s`; all of `s` when `c` does not occur.
pub open spec fn after_last(s: Seq<char>, c: char) -> Seq<char> {
    s.skip(last_index(s, c) + 1)
}

/// The characters of `s`, in order.
pub fn chars_of(s: &str) -> (v: Vec<char>)
    ensures
        v@ == s@,
{
    let mut v: Vec<char> = Vec::new();
    for c in it: s.chars()
        invariant
            it.seq() == s@,
            v@ == it.seq().take(it.index() as int),
    {
        v.push(c);
    }
    assert(v@ =~= s@);
    v
}

/// Whether two character runs are equal.
pub fn same_chars(a: &[char], b: &[char]) -> (r: bool)
    ensures
        r == (a@ == b@),
{
    if a.len() != b.len() {
        return false;
    }
    let mut i: usize = 0;
    while i < a.len()
        invariant
            a@.len() == b@.len(),
            i <= a@.len(),
            forall|j: int| 0 <= j < i ==> a@[j] == b@[j],
        decreases a@.len() - i,
    {
        if a[i] != b[i] {
            return false;
        }
        i += 1;
    }
    assert(a@ =~= b@);
    true
}

/// Whether the text of `a` is exactly the run `b`.
pub fn str_is(a: &str, b: &[char]) -> (r: bool)
    ensures
        r == (a@ == b@),
{
    let av = chars_of(a);
    same_chars(av.as_slice(), b)
}

/// ASCII lowercase of a character run.
pub fn to_lower(s: &[char]) -> (r: Vec<char>)
    ensures
        r@ == lower(s@),
{
    let mut r: Vec<char> = Vec::new();
    let mut i: usize = 0;
    while i < s.len()
        invariant
            i <= s@.len(),
            r@ == lower(s@.take(i as int)),
        decreases s@.len() - i,
    {
        let c = to_lower_char(s[i]);
        r.push(c);
        assert(lower(s@.take(i + 1)) =~= lower(s@.take(i as int)).push(lower_char(s@[i as int])));
        i += 1;
    }
    assert(s@.take(s@.len() as int) =~= s@);
    r
}

/// Equality up to ASCII case, as `str::eq_ignore_ascii_case` decides it.
pub fn eq_ignore_ascii_case(a: &[char], b: &[char]) -> (r: bool)
    ensures
        r == (lower(a@) == lower(b@)),
{
    if a.len() != b.len() {
        assert(lower(a@).len() != lower(b@).len());
        return false;
    }
    let mut i: usize = 0;
    while i < a.len()
        invariant
            a@.len() == b@.len(),
            i <= a@.len(),
            forall|j: int| 0 <= j < i ==> lower_char(a@[j]) == lower_char(b@[j]),
        decreases a@.len() - i,
    {
        if to_lower_char(a[i]) != to_lower_char(b[i]) {
            assert(lower(a@)[i as int] != lower(b@)[i as int]);
            return false;
        }
        i += 1;
    }
    assert(lower(a@) =~= lower(b@));
    true
}

/// Whether `p` is a prefix of `s`.
pub fn starts_with(s: &[char], p: &[char]) -> (r: bool)
    ensures
        r == is_prefix(p@, s@),
{
    if p.len() > s.len() {
        return false;
    }
    let mut i: usize = 0;
    while i < p.len()
        invariant
            p@.len() <= s@.len(),
            i <= p@.len(),
            forall|j: int| 0 <= j < i ==> s@[j] == p@[j],
        decreases p@.len() - i,
    {
        if s[i] != p[i] {
            assert(s@.take(p@.len() as int)[i as int] != p@[i as int]);
            return false;
        }
        i += 1;
    }
    assert(s@.take(p@.len() as int) =~= p@);
    true
}

/// Whether `n` occurs in `s` starting at position `at`.
fn occurs_at(s: &[char], n: &[char], at: usize) -> (r: bool)
    requires
        at + n@.len() <= s@.len(),
    ensures
        r == (s@.subrange(at as int, at + n@.len()) == n@),
{
    let mut i: usize = 0;
    while i < n.len()
        invariant
            at + n@.len() <= s@.len(),
            s@.len() == s.len(),
            i <= n@.len(),
            forall|j: int| 0 <= j < i ==> s@[at + j] == n@[j],
        decreases n@.len() - i,
    {
        if s[at + i] != n[i] {
            assert(s@.subrange(at as int, at + n@.len())[i as int] != n@[i as int]);
            return false;
        }
        i += 1;
    }
    assert(s@.subrange(at as int, at + n@.len()) =~= n@);
    true
}

/// Whether `p` is a suffix of `s`.
pub fn ends_with(s: &[char], p: &[char]) -> (r: bool)
    ensures
        r == is_suffix(p@, s@),
{
    if p.len() > s.len() {
        return false;
    }
    let at = s.len() - p.len();
    let r = occurs_at(s, p, at);
    assert(s@.subrange(at as int, at + p@.len()) =~= s@.skip(s@.len() - p@.len()));
    r
}

/// Whether `n` occurs somewhere in `s`.
pub fn contains(s: &[char], n: &[char]) -> (r: bool)
    ensures
        r == contains_run(s@, n@),
{
    if n.len() > s.len() {
        return false;
    }
    let last = s.len() - n.len();
    let mut i: usize = 0;
    loop
        invariant
            n@.len() <= s@.len(),
            last == s@.len() - n@.len(),
            i <= last,
            forall|k: int| 0 <= k < i ==> #[trigger] s@.subrange(k, k + n@.len()) != n@,
        decreases last - i,
    {
        if occurs_at(s, n, i) {
            return true;
        }
        if i == last {
            return false;
        }
        i += 1;
    }
}

/// Position of the last `c` in `s`, if any.
pub fn find_last(s: &[char], c: char) -> (r: Option<usize>)
    ensures
        match r {
            Some(k) => k == last_index(s@, c) && k < s@.len(),
            None => last_index(s@, c) == -1,
        },
{
    let mut i: usize = s.len();
    assert(s@.take(s@.len() as int) =~= s@);
    while i > 0
        invariant
            i <= s@.len(),
            last_index(s@, c) == last_index(s@.take(i as int), c),
        decreases i,
    {
        assert(s@.take(i as int).drop_last() =~= s@.take(i - 1));
        if s[i - 1] == c {
            return Some(i - 1);
        }
        i -= 1;
    }
    None
}

/// ASCII whitespace as `u8::is_ascii_whitespace` defines it: space, tab,
/// line feed, form feed and carriage return.
pub open spec fn is_ascii_ws(c: char) -> bool {
    c == ' ' || c == '\t' || c == '\n' || c == '\x0C' || c == '\r'
}

/// Length of the run of non-whitespace characters that starts `s`.
pub open spec fn word_len(s: Seq<char>) -> nat
    decreases s.len(),
{
    if s.len() == 0 || is_ascii_ws(s[0]) {
        0
    } else {
        1 + word_len(s.skip(1))
    }
}

/// A word is never longer than the text it starts, and a text that starts
/// with a non-whitespace character starts with a non-empty word.
pub proof fn lemma_word_len_bounds(s: Seq<char>)
    ensures
        word_len(s) <= s.len(),
        s.len() > 0 && !is_ascii_ws(s[0]) ==> word_len(s) >= 1,
    decreases s.len(),
{
    if s.len() > 0 && !is_ascii_ws(s[0]) {
        lemma_word_len_bounds(s.skip(1));
    }
}

/// The words of `s`: its maximal runs of non-whitespace characters, in
/// order, as `str::split_ascii_whitespace` yields them.
pub open spec fn ascii_words(s: Seq<char>) -> Seq<Seq<char>>
    decreases s.len(),
{
    if s.len() == 0 {
        seq![]
    } else if is_ascii_ws(s[0]) {
        ascii_words(s.skip(1))
    } else {
        proof {
            lemma_word_len_bounds(s);
        }
        seq![s.take(word_len(s) as int)] + ascii_words(s.skip(word_len(s) as int))
    }
}

proof fn lemma_word_len_is(s: Seq<char>, k: int)
    requires
        0 <= k <= s.len(),
        forall|j: int| 0 <= j < k ==> !is_ascii_ws(#[trigger] s[j]),
        k == s.len() || is_ascii_ws(s[k]),
    ensures
        word_len(s) == k,
    decreases k,
{
    if k > 0 {
        lemma_word_len_is(s.skip(1), k - 1);
    }
}

/// The text holds no ASCII whitespace.
pub open spec fn no_ascii_ws(s: Seq<char>) -> bool {
    forall|j: int| 0 <= j < s.len() ==> !is_ascii_ws(#[trigger] s[j])
}

proof fn lemma_word_has_no_ws(s: Seq<char>)
    ensures
        forall|j: int| 0 <= j < word_len(s) ==> !is_ascii_ws(#[trigger] s[j]),
    decreases s.len(),
{
    if s.len() > 0 && !is_ascii_ws(s[0]) {
        lemma_word_has_no_ws(s.skip(1));
        lemma_word_len_bounds(s);
        assert forall|j: int| 0 <= j < word_len(s) implies !is_ascii_ws(#[trigger] s[j]) by {
            if j > 0 {
                assert(s[j] == s.skip(1)[j - 1]);
            }
        }
    }
}

/// A word followed by whitespace (or by nothing) is the first word.
pub proof fn lemma_words_of_word_then(a: Seq<char>, b: Seq<char>)
    requires
        a.len() > 0,
        no_ascii_ws(a),
        b.len() == 0 || is_ascii_ws(b[0]),
    ensures
        ascii_words(a + b) == seq![a] + ascii_words(b),
{
    let s = a + b;
    assert forall|j: int| 0 <= j < a.len() implies !is_ascii_ws(#[trigger] s[j]) by {
        assert(s[j] == a[j]);
    }
    if b.len() > 0 {
        assert(s[a.len() as int] == b[0]);
    }
    lemma_word_len_is(s, a.len() as int);
    assert(!is_ascii_ws(s[0]));
    assert(s.take(a.len() as int) =~= a);
    assert(s.skip(a.len() as int) =~= b);
}

/// Leading whitespace does not change the words.
pub proof fn lemma_words_skip_ws(c: char, b: Seq<char>)
    requires
        is_ascii_ws(c),
    ensures
        ascii_words(seq![c] + b) == ascii_words(b),
{
    assert((seq![c] + b).skip(1) =~= b);
}

/// Every word is a non-empty run without ASCII whitespace.
pub proof fn words_have_no_whitespace(s: Seq<char>)
    ensures
        forall|k: int|
            0 <= k < ascii_words(s).len() ==> #[trigger] ascii_words(s)[k].len() > 0 && no_ascii_ws(
                ascii_words(s)[k],
            ),
    decreases s.len(),
{
    if s.len() > 0 {
        if is_ascii_ws(s[0]) {
            words_have_no_whitespace(s.skip(1));
            assert(ascii_words(s) == ascii_words(s.skip(1)));
        } else {
            lemma_word_len_bounds(s);
            lemma_word_has_no_ws(s);
            let n = word_len(s) as int;
            words_have_no_whitespace(s.skip(n));
            let ws = ascii_words(s);
            assert forall|k: int| 0 <= k < ws.len() implies #[trigger] ws[k].len() > 0 && no_ascii_ws(
                ws[k],
            ) by {
                if k > 0 {
                    assert(ws[k] == ascii_words(s.skip(n))[k - 1]);
                } else {
                    assert(ws[0] == s.take(n));
                    assert forall|j: int| 0 <= j < n implies !is_ascii_ws(
                        #[trigger] s.take(n)[j],
                    ) by {
                        assert(s.take(n)[j] == s[j]);
                    }
                }
            }
        }
    }
}

/// The first word of `v` at or after position `from`: its start and end.
pub fn next_word(v: &[char], from: usize) -> (r: Option<(usize, usize)>)
    requires
        from <= v@.len(),
    ensures
        match r {
            None => ascii_words(v@.skip(from as int)) == Seq::<Seq<char>>::empty(),
            Some((a, b)) => from <= a < b <= v@.len() && ascii_words(v@.skip(from as int)) == seq![
                v@.subrange(a as int, b as int),
            ] + ascii_words(v@.skip(b as int)),
        },
{
    let mut a: usize = from;
    while a < v.len() && (v[a] == ' ' || v[a] == '\t' || v[a] == '\n' || v[a] == '\x0C' || v[a]
        == '\r')
        invariant
            from <= a <= v@.len(),
            ascii_words(v@.skip(from as int)) == ascii_words(v@.skip(a as int)),
        decreases v@.len() - a,
    {
        assert(v@.skip(a as int).skip(1) =~= v@.skip(a + 1));
        a += 1;
    }
    if a == v.len() {
        assert(v@.skip(a as int).len() == 0);
        return None;
    }
    let mut b: usize = a + 1;
    while b < v.len() && !(v[b] == ' ' || v[b] == '\t' || v[b] == '\n' || v[b] == '\x0C' || v[b]
        == '\r')
        invariant
            a < b <= v@.len(),
            forall|j: int| a <= j < b ==> !is_ascii_ws(#[trigger] v@[j]),
        decreases v@.len() - b,
    {
        b += 1;
    }
    proof {
        let s = v@.skip(a as int);
        assert forall|j: int| 0 <= j < b - a implies !is_ascii_ws(#[trigger] s[j]) by {
            assert(s[j] == v@[a + j]);
        }
        lemma_word_len_is(s, b - a);
        assert(s.take(b - a) =~= v@.subrange(a as int, b as int));
        assert(s.skip(b - a) =~= v@.skip(b as int));
    }
    Some((a, b))
}

/// Appends one character to a `String`, as `String::push` does.
#[verifier::external_body]
fn push_char(s: &mut String, c: char)
    ensures
        final(s)@ == old(s)@.push(c),
{
    s.push(c);
}

/// A `String` holding exactly the characters of `v`.
pub fn string_of(v: &[char]) -> (r: String)
    ensures
        r@ == v@,
{
    let mut r = String::new();
    let mut i: usize = 0;
    while i < v.len()
        invariant
            i <= v@.len(),
            r@ == v@.take(i as int),
        decreases v@.len() - i,
    {
        push_char(&mut r, v[i]);
        assert(v@.take(i + 1) =~= v@.take(i as int).push(v@[i as int]));
        i += 1;
    }
    assert(v@.take(v@.len() as int) =~= v@);
    r
}

} // verus!
