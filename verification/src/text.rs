//! Text primitives over sequences of characters: whitespace, trimming,
//! substring search, suffix removal and word counting.
//!
//! Every function here is stated over `Seq<char>`, the view of `str` and
//! `String`, so that the rules built on top of them can be read as plain
//! mathematics.
use vstd::prelude::*;

verus! {

/// The characters with the Unicode `White_Space` property.
pub open spec fn is_space(c: char) -> bool {
    let u = c as u32;
    ||| 0x09 <= u <= 0x0D
    ||| u == 0x20
    ||| u == 0x85
    ||| u == 0xA0
    ||| u == 0x1680
    ||| 0x2000 <= u <= 0x200A
    ||| u == 0x2028
    ||| u == 0x2029
    ||| u == 0x202F
    ||| u == 0x205F
    ||| u == 0x3000
}

/// How many whitespace characters `s` begins with.
pub open spec fn leading_spaces(s: Seq<char>) -> nat
    decreases s.len(),
{
    if s.len() > 0 && is_space(s[0]) {
        1 + leading_spaces(s.drop_first())
    } else {
        0
    }
}

/// How many whitespace characters `s` ends with.
pub open spec fn trailing_spaces(s: Seq<char>) -> nat
    decreases s.len(),
{
    if s.len() > 0 && is_space(s.last()) {
        1 + trailing_spaces(s.drop_last())
    } else {
        0
    }
}

/// `s` without its leading whitespace.
pub open spec fn trim_start(s: Seq<char>) -> Seq<char> {
    s.skip(leading_spaces(s) as int)
}

/// `s` without its trailing whitespace.
pub open spec fn trim_end(s: Seq<char>) -> Seq<char> {
    s.take(s.len() - trailing_spaces(s))
}

/// `s` without its leading and trailing whitespace.
pub open spec fn trim(s: Seq<char>) -> Seq<char> {
    trim_end(trim_start(s))
}

/// `needle` occurs in `hay` at index `i`.
pub open spec fn occurs_at(hay: Seq<char>, needle: Seq<char>, i: int) -> bool {
    &&& 0 <= i
    &&& i + needle.len() <= hay.len()
    &&& hay.subrange(i, i + needle.len()) == needle
}

/// The least index at or after `start` where `needle` occurs in `hay`.
pub open spec fn find_from(hay: Seq<char>, needle: Seq<char>, start: int) -> Option<int>
    decreases hay.len() + 1 - start,
{
    if start < 0 || start + needle.len() > hay.len() {
        None
    } else if occurs_at(hay, needle, start) {
        Some(start)
    } else {
        find_from(hay, needle, start + 1)
    }
}

/// The index of the first occurrence of `needle` in `hay`.
pub open spec fn find(hay: Seq<char>, needle: Seq<char>) -> Option<int> {
    find_from(hay, needle, 0)
}

/// `needle` occurs somewhere in `hay`.
pub open spec fn contains(hay: Seq<char>, needle: Seq<char>) -> bool {
    find(hay, needle) is Some
}

/// `s` with every trailing repetition of `pat` removed.
pub open spec fn trim_end_matches(s: Seq<char>, pat: Seq<char>) -> Seq<char>
    decreases s.len(),
{
    if pat.len() > 0 && pat.is_suffix_of(s) {
        trim_end_matches(s.take(s.len() - pat.len()), pat)
    } else {
        s
    }
}

/// A word begins at index `i`: a non-whitespace character that is the first
/// of `s` or follows a whitespace character.
pub open spec fn word_starts_at(s: Seq<char>, i: int) -> bool {
    &&& 0 <= i < s.len()
    &&& !is_space(s[i])
    &&& (i == 0 || is_space(s[i - 1]))
}

/// The number of maximal runs of non-whitespace characters in `s`.
pub open spec fn word_count(s: Seq<char>) -> nat
    decreases s.len(),
{
    if s.len() == 0 {
        0
    } else {
        word_count(s.drop_last()) + if word_starts_at(s, s.len() - 1) {
            1nat
        } else {
            0nat
        }
    }
}

/// `leading_spaces` is the index of the first character that is no
/// whitespace, or the length where there is none.
pub proof fn lemma_leading_spaces(s: Seq<char>, k: int)
    requires
        0 <= k <= s.len(),
        forall|j: int| 0 <= j < k ==> is_space(#[trigger] s[j]),
        k < s.len() ==> !is_space(s[k]),
    ensures
        leading_spaces(s) == k,
    decreases k,
{
    if k > 0 {
        let rest = s.drop_first();
        assert(is_space(s[0]));
        assert forall|j: int| 0 <= j < k - 1 implies is_space(#[trigger] rest[j]) by {
            assert(rest[j] == s[j + 1]);
        }
        lemma_leading_spaces(rest, k - 1);
    }
}

/// `trailing_spaces` counts back to the last character that is no
/// whitespace.
pub proof fn lemma_trailing_spaces(s: Seq<char>, k: int)
    requires
        0 <= k <= s.len(),
        forall|j: int| s.len() - k <= j < s.len() ==> is_space(#[trigger] s[j]),
        k < s.len() ==> !is_space(s[s.len() - k - 1]),
    ensures
        trailing_spaces(s) == k,
    decreases k,
{
    if k > 0 {
        let rest = s.drop_last();
        assert(is_space(s[s.len() - 1]));
        assert forall|j: int| rest.len() - (k - 1) <= j < rest.len() implies is_space(
            #[trigger] rest[j],
        ) by {
            assert(rest[j] == s[j]);
        }
        lemma_trailing_spaces(rest, k - 1);
    }
}

/// The bounds of `leading_spaces` and what lies on either side of it.
pub proof fn lemma_leading_spaces_bounds(s: Seq<char>)
    ensures
        leading_spaces(s) <= s.len(),
        forall|j: int| 0 <= j < leading_spaces(s) ==> is_space(#[trigger] s[j]),
        leading_spaces(s) < s.len() ==> !is_space(s[leading_spaces(s) as int]),
    decreases s.len(),
{
    if s.len() > 0 && is_space(s[0]) {
        let rest = s.drop_first();
        lemma_leading_spaces_bounds(rest);
        assert forall|j: int| 0 <= j < leading_spaces(s) implies is_space(#[trigger] s[j]) by {
            if j > 0 {
                assert(s[j] == rest[j - 1]);
            }
        }
        if leading_spaces(s) < s.len() {
            assert(s[leading_spaces(s) as int] == rest[leading_spaces(rest) as int]);
        }
    }
}

/// The bounds of `trailing_spaces` and what lies on either side of it.
pub proof fn lemma_trailing_spaces_bounds(s: Seq<char>)
    ensures
        trailing_spaces(s) <= s.len(),
        forall|j: int| s.len() - trailing_spaces(s) <= j < s.len() ==> is_space(#[trigger] s[j]),
        trailing_spaces(s) < s.len() ==> !is_space(s[s.len() - trailing_spaces(s) - 1]),
    decreases s.len(),
{
    if s.len() > 0 && is_space(s.last()) {
        let rest = s.drop_last();
        lemma_trailing_spaces_bounds(rest);
        assert forall|j: int| s.len() - trailing_spaces(s) <= j < s.len() implies is_space(
            #[trigger] s[j],
        ) by {
            if j < s.len() - 1 {
                assert(s[j] == rest[j]);
            }
        }
        if trailing_spaces(s) < s.len() {
            assert(s[s.len() - trailing_spaces(s) - 1] == rest[rest.len() - trailing_spaces(rest)
                - 1]);
        }
    }
}

/// A trimmed text neither begins nor ends with whitespace.
pub proof fn lemma_trim_has_no_outer_space(s: Seq<char>)
    ensures
        leading_spaces(trim(s)) == 0,
        trailing_spaces(trim(s)) == 0,
{
    let a = trim_start(s);
    let t = trim(s);
    lemma_leading_spaces_bounds(s);
    lemma_trailing_spaces_bounds(a);
    if t.len() > 0 {
        assert(t[0] == a[0]);
        assert(a[0] == s[leading_spaces(s) as int]);
        assert(t.last() == a[a.len() - trailing_spaces(a) - 1]);
    }
}

/// Trimming never makes a text longer.
pub proof fn lemma_trim_is_no_longer(s: Seq<char>)
    ensures
        trim(s).len() <= s.len(),
{
    lemma_leading_spaces_bounds(s);
    lemma_trailing_spaces_bounds(trim_start(s));
}

/// Trimming a text that neither begins nor ends with whitespace changes
/// nothing.
pub proof fn lemma_trim_of_trimmed(s: Seq<char>)
    requires
        leading_spaces(s) == 0,
        trailing_spaces(s) == 0,
    ensures
        trim(s) == s,
{
    assert(trim_start(s) =~= s);
    assert(trim_end(s) =~= s);
}

/// Trimming twice is trimming once.
pub proof fn lemma_trim_idempotent(s: Seq<char>)
    ensures
        trim(trim(s)) == trim(s),
{
    lemma_trim_has_no_outer_space(s);
    lemma_trim_of_trimmed(trim(s));
}

/// `find_from` returns the least occurrence at or after `start`, and `None`
/// only where there is none.
pub proof fn lemma_find_from(hay: Seq<char>, needle: Seq<char>, start: int)
    requires
        0 <= start,
    ensures
        match find_from(hay, needle, start) {
            Some(i) => {
                &&& start <= i
                &&& occurs_at(hay, needle, i)
                &&& forall|j: int| start <= j < i ==> !occurs_at(hay, needle, j)
            },
            None => forall|j: int| start <= j ==> !occurs_at(hay, needle, j),
        },
    decreases hay.len() + 1 - start,
{
    if start + needle.len() > hay.len() {
    } else if occurs_at(hay, needle, start) {
    } else {
        lemma_find_from(hay, needle, start + 1);
    }
}

/// An index that is the least occurrence is what `find` returns.
pub proof fn lemma_find_is(hay: Seq<char>, needle: Seq<char>, i: int)
    requires
        occurs_at(hay, needle, i),
        forall|j: int| 0 <= j < i ==> !occurs_at(hay, needle, j),
    ensures
        find(hay, needle) == Some(i),
{
    lemma_find_from(hay, needle, 0);
}

/// Where nothing occurs, `find` returns `None`.
pub proof fn lemma_find_none(hay: Seq<char>, needle: Seq<char>)
    requires
        forall|j: int| 0 <= j ==> !occurs_at(hay, needle, j),
    ensures
        find(hay, needle) is None,
{
    lemma_find_from(hay, needle, 0);
}

/// What `trim_end_matches` returns is a prefix of its argument that does not
/// end with the pattern.
pub proof fn lemma_trim_end_matches(s: Seq<char>, pat: Seq<char>)
    ensures
        trim_end_matches(s, pat).is_prefix_of(s),
        pat.len() > 0 ==> !pat.is_suffix_of(trim_end_matches(s, pat)),
    decreases s.len(),
{
    if pat.len() > 0 && pat.is_suffix_of(s) {
        let shorter = s.take(s.len() - pat.len());
        lemma_trim_end_matches(shorter, pat);
        let r = trim_end_matches(shorter, pat);
        assert(r =~= s.subrange(0, r.len() as int));
    } else {
        assert(s =~= s.subrange(0, s.len() as int));
    }
}

/// A text of `n` characters holds at most `(n + 1) / 2` words.
pub proof fn lemma_word_count_bound(s: Seq<char>)
    ensures
        2 * word_count(s) <= s.len() + 1,
        s.len() > 0 && !is_space(s.last()) ==> 2 * word_count(s) <= s.len() + 1,
        s.len() > 0 && is_space(s.last()) ==> 2 * word_count(s) <= s.len(),
    decreases s.len(),
{
    if s.len() > 0 {
        let rest = s.drop_last();
        lemma_word_count_bound(rest);
        if word_starts_at(s, s.len() - 1) {
            if rest.len() > 0 {
                assert(rest.last() == s[s.len() - 2]);
            }
        }
    }
}

/// One whitespace character at the start of a text adds no word to it.
pub proof fn lemma_word_count_skips_leading_space(s: Seq<char>)
    requires
        s.len() > 0,
        is_space(s[0]),
    ensures
        word_count(s.drop_first()) == word_count(s),
    decreases s.len(),
{
    let rest = s.drop_first();
    if s.len() == 1 {
        assert(word_count(s.drop_last()) == 0);
    } else {
        let front = s.drop_last();
        assert(front[0] == s[0]);
        lemma_word_count_skips_leading_space(front);
        assert(front.drop_first() =~= rest.drop_last());
        assert(rest.last() == s.last());
        if s.len() > 2 {
            assert(rest[rest.len() - 2] == s[s.len() - 2]);
        }
    }
}

/// Whitespace at the start of a text adds no word to it.
pub proof fn lemma_word_count_of_trim_start(s: Seq<char>)
    ensures
        word_count(trim_start(s)) == word_count(s),
    decreases s.len(),
{
    if s.len() > 0 && is_space(s[0]) {
        let rest = s.drop_first();
        lemma_word_count_skips_leading_space(s);
        lemma_word_count_of_trim_start(rest);
        lemma_leading_spaces_bounds(rest);
        assert(trim_start(s) =~= trim_start(rest));
    } else {
        assert(trim_start(s) =~= s);
    }
}

/// Whitespace at the end of a text adds no word to it.
pub proof fn lemma_word_count_of_trim_end(s: Seq<char>)
    ensures
        word_count(trim_end(s)) == word_count(s),
    decreases s.len(),
{
    if s.len() > 0 && is_space(s.last()) {
        let rest = s.drop_last();
        lemma_word_count_of_trim_end(rest);
        lemma_trailing_spaces_bounds(rest);
        assert(trim_end(s) =~= trim_end(rest));
    } else {
        assert(trim_end(s) =~= s);
    }
}

/// The whitespace around a text adds no word to it.
pub proof fn lemma_word_count_of_trim(s: Seq<char>)
    ensures
        word_count(trim(s)) == word_count(s),
{
    lemma_word_count_of_trim_start(s);
    lemma_word_count_of_trim_end(trim_start(s));
}

/// Whether `c` is whitespace.
pub fn is_space_char(c: char) -> (b: bool)
    ensures
        b == is_space(c),
{
    let u: u32 = c as u32;
    (0x09 <= u && u <= 0x0D) || u == 0x20 || u == 0x85 || u == 0xA0 || u == 0x1680 || (0x2000 <= u
        && u <= 0x200A) || u == 0x2028 || u == 0x2029 || u == 0x202F || u == 0x205F || u == 0x3000
}

/// The characters of `s`, in order.
pub fn chars_of(s: &str) -> (v: Vec<char>)
    ensures
        v@ == s@,
{
    let mut v: Vec<char> = Vec::new();
    for c in it: s.chars()
        invariant
            it.seq() == s@,
            v@ == it.seq().take(it.index() as int),
    {
        v.push(c);
    }
    assert(v@ == s@);
    v
}

/// Calls `String::push` of std, which appends the given character to the
/// end of the string. The contract restates that and is taken on trust.
#[verifier::external_body]
fn push_char(s: &mut String, c: char)
    ensures
        final(s)@ == old(s)@.push(c),
{
    s.push(c)
}

/// The string made of `chars[from..to]`.
pub fn string_of(chars: &Vec<char>, from: usize, to: usize) -> (s: String)
    requires
        from <= to <= chars@.len(),
    ensures
        s@ == chars@.subrange(from as int, to as int),
{
    let mut s = String::new();
    let mut i: usize = from;
    while i < to
        invariant
            from <= i <= to <= chars@.len(),
            s@ == chars@.subrange(from as int, i as int),
        decreases to - i,
    {
        push_char(&mut s, chars[i]);
        i += 1;
    }
    s
}

/// Whether two texts hold the same characters.
pub fn same_chars(a: &Vec<char>, b: &Vec<char>) -> (eq: bool)
    ensures
        eq == (a@ == b@),
{
    if a.len() != b.len() {
        return false;
    }
    let mut i: usize = 0;
    while i < a.len()
        invariant
            a@.len() == b@.len(),
            i <= a@.len(),
            forall|j: int| 0 <= j < i ==> a@[j] == b@[j],
        decreases a@.len() - i,
    {
        if a[i] != b[i] {
            return false;
        }
        i += 1;
    }
    assert(a@ =~= b@);
    true
}

/// Whether two strings hold the same characters.
pub fn same_text(a: &str, b: &str) -> (eq: bool)
    ensures
        eq == (a@ == b@),
{
    let x = chars_of(a);
    let y = chars_of(b);
    same_chars(&x, &y)
}

/// The bounds `(from, to)` of `chars` without its leading and trailing
/// whitespace.
pub fn trim_bounds(chars: &Vec<char>) -> (bounds: (usize, usize))
    ensures
        bounds.0 <= bounds.1 <= chars@.len(),
        chars@.subrange(bounds.0 as int, bounds.1 as int) == trim(chars@),
        bounds.0 == leading_spaces(chars@),
{
    let n: usize = chars.len();
    let mut from: usize = 0;
    while from < n && is_space_char(chars[from])
        invariant
            n == chars@.len(),
            from <= n,
            forall|j: int| 0 <= j < from ==> is_space(#[trigger] chars@[j]),
        decreases n - from,
    {
        from += 1;
    }
    proof {
        lemma_leading_spaces(chars@, from as int);
    }
    let ghost rest = chars@.skip(from as int);
    let mut to: usize = n;
    while to > from && is_space_char(chars[to - 1])
        invariant
            n == chars@.len(),
            from <= to <= n,
            forall|j: int| to <= j < n ==> is_space(#[trigger] chars@[j]),
        decreases to - from,
    {
        to -= 1;
    }
    proof {
        assert forall|j: int| rest.len() - (n - to) <= j < rest.len() implies is_space(
            #[trigger] rest[j],
        ) by {
            assert(rest[j] == chars@[j + from]);
        }
        if n - to < rest.len() {
            assert(rest[rest.len() - (n - to) - 1] == chars@[to - 1]);
        }
        lemma_trailing_spaces(rest, (n - to) as int);
        assert(chars@.subrange(from as int, to as int) =~= trim(chars@));
    }
    (from, to)
}

/// `s` without its leading and trailing whitespace.
pub fn trimmed(s: &str) -> (t: String)
    ensures
        t@ == trim(s@),
{
    let chars = chars_of(s);
    let (from, to) = trim_bounds(&chars);
    string_of(&chars, from, to)
}

/// Whether `needle` occurs in `hay` at index `i`, for an `i` at which it
/// fits.
pub fn occurs_here(hay: &Vec<char>, needle: &Vec<char>, i: usize) -> (found: bool)
    requires
        i + needle@.len() <= hay@.len(),
    ensures
        found == occurs_at(hay@, needle@, i as int),
{
    let n: usize = hay.len();
    let m: usize = needle.len();
    let mut k: usize = 0;
    while k < m
        invariant
            n == hay@.len(),
            m == needle@.len(),
            i + m <= n,
            k <= m,
            forall|j: int| 0 <= j < k ==> hay@[i + j] == needle@[j],
        decreases m - k,
    {
        if hay[i + k] != needle[k] {
            proof {
                let window = hay@.subrange(i as int, i + m);
                assert(window[k as int] == hay@[i + k]);
            }
            return false;
        }
        k += 1;
    }
    assert(hay@.subrange(i as int, i + m) =~= needle@);
    true
}

/// The index of the first occurrence of `needle` in the first `end`
/// characters of `hay`.
pub fn find_in(hay: &Vec<char>, end: usize, needle: &Vec<char>) -> (at: Option<usize>)
    requires
        end <= hay@.len(),
    ensures
        match at {
            Some(i) => find(hay@.take(end as int), needle@) == Some(i as int),
            None => find(hay@.take(end as int), needle@) is None,
        },
{
    let ghost text = hay@.take(end as int);
    let m: usize = needle.len();
    if m > end {
        proof {
            lemma_find_none(text, needle@);
        }
        return None;
    }
    let last: usize = end - m;
    let mut i: usize = 0;
    loop
        invariant
            m == needle@.len(),
            end <= hay@.len(),
            last == end - m,
            text == hay@.take(end as int),
            i <= last,
            forall|j: int| 0 <= j < i ==> !occurs_at(text, needle@, j),
        decreases last - i,
    {
        let here = occurs_here(hay, needle, i);
        proof {
            assert(text.subrange(i as int, i + m) =~= hay@.subrange(i as int, i + m));
        }
        if here {
            proof {
                lemma_find_is(text, needle@, i as int);
            }
            return Some(i);
        }
        if i == last {
            proof {
                lemma_find_none(text, needle@);
            }
            return None;
        }
        i += 1;
    }
}

/// The length of the first `end` characters of `hay` once every trailing
/// repetition of `pat` is removed.
pub fn trim_end_matches_len(hay: &Vec<char>, end: usize, pat: &Vec<char>) -> (len: usize)
    requires
        end <= hay@.len(),
    ensures
        len <= end,
        hay@.take(len as int) == trim_end_matches(hay@.take(end as int), pat@),
{
    let m: usize = pat.len();
    let mut len: usize = end;
    if m == 0 {
        return len;
    }
    while len >= m
        invariant
            m == pat@.len(),
            m > 0,
            len <= end <= hay@.len(),
            trim_end_matches(hay@.take(len as int), pat@) == trim_end_matches(
                hay@.take(end as int),
                pat@,
            ),
        decreases len,
    {
        let ghost cur = hay@.take(len as int);
        let here = occurs_here(hay, pat, len - m);
        proof {
            assert(cur.subrange(len - m, len as int) =~= hay@.subrange(len - m, len as int));
            assert(cur.take(cur.len() - m) =~= hay@.take(len - m));
        }
        if !here {
            return len;
        }
        len -= m;
    }
    len
}

/// The number of whitespace-separated words in `s`.
pub fn count_words(s: &str) -> (n: usize)
    ensures
        n == word_count(s@),
{
    let chars = chars_of(s);
    let mut n: usize = 0;
    let mut i: usize = 0;
    let mut after_space: bool = true;
    while i < chars.len()
        invariant
            chars@ == s@,
            i <= chars@.len(),
            n == word_count(chars@.take(i as int)),
            n <= i,
            after_space == (i == 0 || is_space(chars@[i - 1])),
        decreases chars@.len() - i,
    {
        let space = is_space_char(chars[i]);
        proof {
            let next = chars@.take(i + 1);
            assert(next.drop_last() =~= chars@.take(i as int));
            assert(next[i as int] == chars@[i as int]);
            if i > 0 {
                assert(next[i - 1] == chars@[i - 1]);
            }
        }
        if !space && after_space {
            n += 1;
        }
        after_space = space;
        i += 1;
    }
    assert(chars@.take(i as int) =~= chars@);
    n
}

} // verus!
