//! Character-level helpers shared by the request-line grammar:
//! the characters of a string, whitespace, literal matching and repeated
//! trimming of a literal from either end.

use vstd::prelude::*;

verus! {

/// Whether `c` has the Unicode `White_Space` property.
pub open spec fn is_whitespace(c: char) -> bool {
    let n = c as u32;
    ||| 0x09 <= n <= 0x0D
    ||| n == 0x20
    ||| n == 0x85
    ||| n == 0xA0
    ||| n == 0x1680
    ||| 0x2000 <= n <= 0x200A
    ||| n == 0x2028
    ||| n == 0x2029
    ||| n == 0x202F
    ||| n == 0x205F
    ||| n == 0x3000
}

/// The characters of a string that may be missing.
pub open spec fn text_of(text: Option<&str>) -> Option<Seq<char>> {
    match text {
        Some(text) => Some(text@),
        None => None,
    }
}

/// `pat` occurs in `s` starting at index `at`.
pub open spec fn occurs_at(s: Seq<char>, at: int, pat: Seq<char>) -> bool {
    &&& 0 <= at
    &&& at + pat.len() <= s.len()
    &&& s.subrange(at, at + pat.len()) == pat
}

/// The first index at or after `from` that holds whitespace, or the length of
/// `s` when there is none: the end of the token that starts at `from`.
pub open spec fn token_end(s: Seq<char>, from: int) -> int
    decreases s.len() - from,
{
    if from < 0 || from >= s.len() || is_whitespace(s[from]) {
        from
    } else {
        token_end(s, from + 1)
    }
}

/// `s` with every leading repetition of `pat` removed.
pub open spec fn trim_start_matches(s: Seq<char>, pat: Seq<char>) -> Seq<char>
    decreases s.len(),
{
    if pat.len() > 0 && pat.is_prefix_of(s) {
        trim_start_matches(s.skip(pat.len() as int), pat)
    } else {
        s
    }
}

/// `s` with every trailing repetition of `pat` removed.
pub open spec fn trim_end_matches(s: Seq<char>, pat: Seq<char>) -> Seq<char>
    decreases s.len(),
{
    if pat.len() > 0 && pat.is_suffix_of(s) {
        trim_end_matches(s.take(s.len() - pat.len()), pat)
    } else {
        s
    }
}

/// The characters of `s`, in order.
pub fn chars_of(s: &str) -> (v: Vec<char>)
    ensures
        v@ == s@,
{
    let mut v: Vec<char> = Vec::new();
    for c in it: s.chars()
        invariant
            it.seq() == s@,
            v@ == it.history(),
    {
        v.push(c);
    }
    v
}

/// Tests a character for the `White_Space` property.
pub fn whitespace(c: char) -> (b: bool)
    ensures
        b == is_whitespace(c),
{
    let n: u32 = c as u32;
    (0x09 <= n && n <= 0x0D) || n == 0x20 || n == 0x85 || n == 0xA0 || n == 0x1680 || (0x2000 <= n
        && n <= 0x200A) || n == 0x2028 || n == 0x2029 || n == 0x202F || n == 0x205F || n == 0x3000
}

/// Tests whether `pat` occurs in `s` at index `at`.
pub fn matches_at(s: &Vec<char>, at: usize, pat: &Vec<char>) -> (b: bool)
    ensures
        b == occurs_at(s@, at as int, pat@),
{
    if at > s.len() || pat.len() > s.len() - at {
        return false;
    }
    let mut i: usize = 0;
    while i < pat.len()
        invariant
            i <= pat.len(),
            at + pat.len() <= s.len(),
            forall|k: int| 0 <= k < i ==> s@[at + k] == pat@[k],
        decreases pat.len() - i,
    {
        if s[at + i] != pat[i] {
            return false;
        }
        i += 1;
    }
    assert(s@.subrange(at as int, at + pat.len()) =~= pat@);
    true
}

/// Tests whether two character sequences are the same.
pub fn same_chars(a: &Vec<char>, b: &Vec<char>) -> (eq: bool)
    ensures
        eq == (a@ == b@),
{
    if a.len() != b.len() {
        return false;
    }
    let eq = matches_at(a, 0, b);
    assert(a@.subrange(0, a@.len() as int) =~= a@);
    eq
}

/// Finds the end of the token that starts at `from`: the index of the next
/// whitespace, or the length of `s` where none follows. At or past the end
/// of `s` that is `from` itself.
pub fn find_token_end(s: &Vec<char>, from: usize) -> (end: usize)
    ensures
        end == token_end(s@, from as int),
        from <= end,
        from <= s.len() ==> end <= s.len(),
{
    if from >= s.len() {
        return from;
    }
    let mut end: usize = from;
    while end < s.len() && !whitespace(s[end])
        invariant
            from <= end <= s.len(),
            token_end(s@, from as int) == token_end(s@, end as int),
        decreases s.len() - end,
    {
        end += 1;
    }
    end
}

/// Finds where `s` starts once every leading repetition of `pat` is removed.
/// An empty `pat` removes nothing.
pub fn trim_start_index(s: &Vec<char>, pat: &Vec<char>) -> (start: usize)
    ensures
        start <= s.len(),
        s@.skip(start as int) == trim_start_matches(s@, pat@),
{
    let mut start: usize = 0;
    assert(s@.skip(0) =~= s@);
    if pat.len() == 0 {
        return 0;
    }
    while matches_at(s, start, pat)
        invariant
            pat.len() > 0,
            start <= s.len(),
            trim_start_matches(s@.skip(start as int), pat@) == trim_start_matches(s@, pat@),
        decreases s.len() - start,
    {
        proof {
            lemma_occurs_is_prefix(s@, start as int, pat@);
            assert(s@.skip(start as int).skip(pat@.len() as int) =~= s@.skip(start + pat@.len()));
        }
        start += pat.len();
    }
    proof {
        lemma_occurs_is_prefix(s@, start as int, pat@);
    }
    start
}

/// Finds where `s` ends once every trailing repetition of `pat` is removed.
/// An empty `pat` removes nothing.
pub fn trim_end_index(s: &Vec<char>, pat: &Vec<char>) -> (end: usize)
    ensures
        end <= s.len(),
        s@.take(end as int) == trim_end_matches(s@, pat@),
{
    let mut end: usize = s.len();
    assert(s@.take(end as int) =~= s@);
    if pat.len() == 0 {
        return end;
    }
    while end >= pat.len() && matches_at(s, end - pat.len(), pat)
        invariant
            pat.len() > 0,
            end <= s.len(),
            trim_end_matches(s@.take(end as int), pat@) == trim_end_matches(s@, pat@),
        decreases end,
    {
        proof {
            lemma_occurs_is_suffix(s@, end as int, pat@);
            let kept = s@.take(end as int);
            assert(kept.take(kept.len() - pat@.len()) =~= s@.take(end - pat@.len()));
        }
        end -= pat.len();
    }
    proof {
        lemma_occurs_is_suffix(s@, end as int, pat@);
    }
    end
}

/// An occurrence of `pat` at `at` is a prefix of what follows `at`.
proof fn lemma_occurs_is_prefix(s: Seq<char>, at: int, pat: Seq<char>)
    requires
        0 <= at <= s.len(),
    ensures
        occurs_at(s, at, pat) == pat.is_prefix_of(s.skip(at)),
{
    let rest = s.skip(at);
    if at + pat.len() <= s.len() {
        assert(rest.subrange(0, pat.len() as int) =~= s.subrange(at, at + pat.len()));
    }
}

/// An occurrence of `pat` that ends at `end` is a suffix of what precedes
/// `end`.
proof fn lemma_occurs_is_suffix(s: Seq<char>, end: int, pat: Seq<char>)
    requires
        0 <= end <= s.len(),
    ensures
        (end >= pat.len() && occurs_at(s, end - pat.len(), pat)) == pat.is_suffix_of(s.take(end)),
{
    let kept = s.take(end);
    if end >= pat.len() {
        assert(kept.subrange(kept.len() - pat.len(), kept.len() as int) =~= s.subrange(
            end - pat.len(),
            end,
        ));
    }
}

} // verus!
