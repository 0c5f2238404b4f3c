//! Text helpers: whitespace trimming and joining words.

use vstd::prelude::*;

verus! {

/// Whether `c` has the Unicode property `White_Space`, as `char::is_whitespace`
/// answers it.
pub uninterp spec fn is_white_space(c: char) -> bool;

/// Calls `char::is_whitespace`. Trusted: the answer is what [`is_white_space`]
/// stands for.
#[verifier::external_body]
fn char_is_whitespace(c: char) -> (b: bool)
    ensures
        b == is_white_space(c),
{
    c.is_whitespace()
}

/// `s` without its leading whitespace.
pub open spec fn trim_start(s: Seq<char>) -> Seq<char>
    decreases s.len(),
{
    if s.len() > 0 && is_white_space(s[0]) {
        trim_start(s.drop_first())
    } else {
        s
    }
}

/// `s` without its trailing whitespace.
pub open spec fn trim_end(s: Seq<char>) -> Seq<char>
    decreases s.len(),
{
    if s.len() > 0 && is_white_space(s.last()) {
        trim_end(s.drop_last())
    } else {
        s
    }
}

/// `s` without its leading and trailing whitespace.
pub open spec fn trimmed(s: Seq<char>) -> Seq<char> {
    trim_end(trim_start(s))
}

/// For each character of `s`, whether it is whitespace.
pub open spec fn whitespace_of(s: Seq<char>) -> Seq<bool> {
    s.map_values(|c: char| is_white_space(c))
}

/// Whether `a..b` is what remains of `marked` once the marked entries at its
/// two ends are dropped. Where every entry is marked, what remains is the
/// empty stretch at the end.
pub open spec fn is_kept_span(marked: Seq<bool>, a: int, b: int) -> bool {
    &&& 0 <= a <= b <= marked.len()
    &&& forall|i: int| 0 <= i < a ==> #[trigger] marked[i]
    &&& forall|i: int| b <= i < marked.len() ==> #[trigger] marked[i]
    &&& a < b ==> !marked[a] && !marked[b - 1]
    &&& a == b ==> a == marked.len()
}

/// There is only one such stretch.
pub proof fn lemma_kept_span_unique(marked: Seq<bool>, a: int, b: int, c: int, d: int)
    requires
        is_kept_span(marked, a, b),
        is_kept_span(marked, c, d),
    ensures
        a == c,
        b == d,
{
    if a < b {
        assert(!marked[a] && !marked[b - 1]);
        if c < d {
            assert(!marked[c] && !marked[d - 1]);
        }
    } else if c < d {
        assert(!marked[c] && !marked[d - 1]);
    }
}

proof fn lemma_trim_start_span(s: Seq<char>) -> (k: int)
    ensures
        0 <= k <= s.len(),
        trim_start(s) == s.subrange(k, s.len() as int),
        forall|i: int| 0 <= i < k ==> is_white_space(#[trigger] s[i]),
        k < s.len() ==> !is_white_space(s[k]),
    decreases s.len(),
{
    if s.len() > 0 && is_white_space(s[0]) {
        let t = s.drop_first();
        let j = lemma_trim_start_span(t);
        assert(t.subrange(j, t.len() as int) =~= s.subrange(j + 1, s.len() as int));
        assert forall|i: int| 0 <= i < j + 1 implies is_white_space(#[trigger] s[i]) by {
            if i > 0 {
                assert(s[i] == t[i - 1]);
            }
        }
        j + 1
    } else {
        assert(s.subrange(0, s.len() as int) =~= s);
        0
    }
}

proof fn lemma_trim_end_span(s: Seq<char>) -> (k: int)
    ensures
        0 <= k <= s.len(),
        trim_end(s) == s.subrange(0, k),
        forall|i: int| k <= i < s.len() ==> is_white_space(#[trigger] s[i]),
        0 < k ==> !is_white_space(s[k - 1]),
    decreases s.len(),
{
    if s.len() > 0 && is_white_space(s.last()) {
        let t = s.drop_last();
        let j = lemma_trim_end_span(t);
        assert(t.subrange(0, j) =~= s.subrange(0, j));
        assert forall|i: int| j <= i < s.len() implies is_white_space(#[trigger] s[i]) by {
            if i < s.len() - 1 {
                assert(s[i] == t[i]);
            }
        }
        j
    } else {
        assert(s.subrange(0, s.len() as int) =~= s);
        s.len() as int
    }
}

/// Trimming keeps one unbroken stretch of the text as it stands: what it
/// drops before and after that stretch is whitespace only, and the stretch
/// neither starts nor ends with whitespace.
pub proof fn lemma_trimmed_is_span(s: Seq<char>) -> (span: (int, int))
    ensures
        is_kept_span(whitespace_of(s), span.0, span.1),
        trimmed(s) == s.subrange(span.0, span.1),
{
    let a = lemma_trim_start_span(s);
    let t = s.subrange(a, s.len() as int);
    let k = lemma_trim_end_span(t);
    assert(t.subrange(0, k) =~= s.subrange(a, a + k));
    let marked = whitespace_of(s);
    if k == 0 {
        assert forall|i: int| 0 <= i < s.len() implies #[trigger] marked[i] by {
            if i >= a {
                assert(s[i] == t[i - a]);
            }
        }
        assert(s.subrange(a, a) =~= s.subrange(s.len() as int, s.len() as int));
        (s.len() as int, s.len() as int)
    } else {
        assert(t[k - 1] == s[a + k - 1]);
        assert forall|i: int| a + k <= i < s.len() implies #[trigger] marked[i] by {
            assert(s[i] == t[i - a]);
        }
        (a, a + k)
    }
}

/// What remains of the whitespace marks of a text is the trimmed text.
pub proof fn lemma_span_is_trimmed(s: Seq<char>, a: int, b: int)
    requires
        is_kept_span(whitespace_of(s), a, b),
    ensures
        trimmed(s) == s.subrange(a, b),
{
    let span = lemma_trimmed_is_span(s);
    lemma_kept_span_unique(whitespace_of(s), a, b, span.0, span.1);
}

/// Marks the whitespace of `text`, character by character.
pub fn whitespace_marks(text: &str) -> (marked: Vec<bool>)
    ensures
        marked@ == whitespace_of(text@),
{
    let mut marked: Vec<bool> = Vec::new();
    for c in it: text.chars()
        invariant
            it.seq() == text@,
            marked@ == whitespace_of(text@.subrange(0, it.index() as int)),
    {
        proof {
            assert(whitespace_of(text@.subrange(0, it.index() + 1)) =~= whitespace_of(
                text@.subrange(0, it.index() as int),
            ).push(is_white_space(c)));
        }
        marked.push(char_is_whitespace(c));
    }
    proof {
        assert(text@.subrange(0, text@.len() as int) =~= text@);
    }
    marked
}

/// Finds what remains of `marked` once the marked entries at its two ends
/// are dropped: the positions of the first entry kept and after the last.
pub fn kept_span(marked: &Vec<bool>) -> (span: (usize, usize))
    ensures
        is_kept_span(marked@, span.0 as int, span.1 as int),
{
    let n = marked.len();
    let mut a: usize = 0;
    while a < n && marked[a]
        invariant
            a <= n,
            n == marked@.len(),
            forall|i: int| 0 <= i < a ==> #[trigger] marked@[i],
        decreases n - a,
    {
        a += 1;
    }
    let mut b: usize = n;
    while b > a && marked[b - 1]
        invariant
            a <= b <= n,
            n == marked@.len(),
            forall|i: int| b <= i < n ==> #[trigger] marked@[i],
        decreases b - a,
    {
        b -= 1;
    }
    (a, b)
}

/// Returns `text` without its leading and trailing whitespace.
pub fn trim<'a>(text: &'a str) -> (r: &'a str)
    ensures
        r@ == trimmed(text@),
{
    let marked = whitespace_marks(text);
    let (a, b) = kept_span(&marked);
    proof {
        lemma_span_is_trimmed(text@, a as int, b as int);
    }
    text.substring_char(a, b)
}

/// A text that neither starts nor ends with whitespace is its own trimming.
pub proof fn lemma_trimmed_of_clean(s: Seq<char>)
    requires
        s.len() > 0 ==> !is_white_space(s.first()) && !is_white_space(s.last()),
    ensures
        trimmed(s) == s,
{
}

/// Trimming twice gives what trimming once gives.
pub proof fn lemma_trimmed_idempotent(s: Seq<char>)
    ensures
        trimmed(trimmed(s)) == trimmed(s),
{
    let (a, b) = lemma_trimmed_is_span(s);
    let t = s.subrange(a, b);
    if a < b {
        assert(t.first() == s[a]);
        assert(t.last() == s[b - 1]);
        assert(!whitespace_of(s)[a] && !whitespace_of(s)[b - 1]);
    }
    lemma_trimmed_of_clean(t);
}

/// The words of `words`, in order, with one space between neighbours.
pub open spec fn joined(words: Seq<Seq<char>>) -> Seq<char>
    decreases words.len(),
{
    if words.len() == 0 {
        Seq::empty()
    } else if words.len() == 1 {
        words[0]
    } else {
        joined(words.drop_last()) + seq![' '] + words.last()
    }
}

/// Joins `words` with single spaces.
pub fn join_words(words: &Vec<String>) -> (r: String)
    ensures
        r@ == joined(words.deep_view()),
{
    let mut out = String::new();
    let mut i: usize = 0;
    while i < words.len()
        invariant
            i <= words.len(),
            out@ == joined(words.deep_view().subrange(0, i as int)),
        decreases words.len() - i,
    {
        proof {
            let all = words.deep_view();
            let next = all.subrange(0, i + 1);
            assert(next.drop_last() =~= all.subrange(0, i as int));
            assert(next.last() == words@[i as int]@);
            reveal_strlit(" ");
            assert(" "@ =~= seq![' ']);
            assert(Seq::<char>::empty() + words@[i as int]@ =~= words@[i as int]@);
        }
        if i > 0 {
            out.append(" ");
        }
        out.append(words[i].as_str());
        i += 1;
    }
    proof {
        assert(words.deep_view().subrange(0, i as int) =~= words.deep_view());
    }
    out
}

} // verus!
