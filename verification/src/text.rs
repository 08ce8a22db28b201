//! Character-level text utilities: ASCII lowercasing, substring search,
//! whitespace splitting and punctuation trimming, all specified over
//! `Seq<char>` views.

use vstd::prelude::*;

verus! {

/// A character is lowercased by the ASCII rule: letters 'A'..'Z' shift down
/// into 'a'..'z'; every other character is unchanged.
pub open spec fn lower_char(c: char) -> char {
    if 'A' <= c && c <= 'Z' {
        ((c as u8) + 32) as char
    } else {
        c
    }
}

/// The ASCII-lowercased form of a text.
pub open spec fn lower(s: Seq<char>) -> Seq<char> {
    s.map_values(|c: char| lower_char(c))
}

fn lower_char_exec(c: char) -> (r: char)
    ensures
        r == lower_char(c),
{
    if 'A' <= c && c <= 'Z' {
        ((c as u8) + 32) as char
    } else {
        c
    }
}

/// The characters of a text, lowercased one by one.
pub fn to_lower_chars(s: &str) -> (r: Vec<char>)
    ensures
        r@ == lower(s@),
{
    let n: usize = s.unicode_len();
    let mut r: Vec<char> = Vec::new();
    let mut i: usize = 0;
    while i < n
        invariant
            n == s@.len(),
            i <= n,
            r@.len() == i,
            forall|j: int| 0 <= j < i ==> r@[j] == lower_char(s@[j]),
        decreases n - i,
    {
        let c = s.get_char(i);
        r.push(lower_char_exec(c));
        i = i + 1;
    }
    proof {
        assert(r@ =~= lower(s@));
    }
    r
}

/// `needle` occurs somewhere in `hay` as a contiguous run of characters.
pub open spec fn contains_sub(hay: Seq<char>, needle: Seq<char>) -> bool {
    exists|i: int|
        0 <= i <= hay.len() - needle.len() && #[trigger] hay.subrange(i, i + needle.len())
            == needle
}

pub(crate) fn matches_at(hay: &Vec<char>, needle: &str, at: usize, nlen: usize) -> (r: bool)
    requires
        nlen == needle@.len(),
        at + nlen <= hay@.len(),
    ensures
        r == (hay@.subrange(at as int, at + needle@.len()) == needle@),
{
    let hlen: usize = hay.len();
    let mut j: usize = 0;
    while j < nlen
        invariant
            nlen == needle@.len(),
            at + nlen <= hay@.len(),
            hlen == hay@.len(),
            j <= nlen,
            forall|k: int| 0 <= k < j ==> hay@[at + k] == needle@[k],
        decreases nlen - j,
    {
        if hay[at + j] != needle.get_char(j) {
            proof {
                assert(hay@.subrange(at as int, at + needle@.len())[j as int] != needle@[j as int]);
            }
            return false;
        }
        j = j + 1;
    }
    proof {
        assert(hay@.subrange(at as int, at + needle@.len()) =~= needle@);
    }
    true
}

/// Whether `needle` occurs in `hay` as a substring.
pub fn contains_substring(hay: &Vec<char>, needle: &str) -> (r: bool)
    ensures
        r == contains_sub(hay@, needle@),
{
    let nlen: usize = needle.unicode_len();
    let hlen: usize = hay.len();
    if nlen > hlen {
        return false;
    }
    if nlen == 0 {
        proof {
            assert(hay@.subrange(0, 0 + needle@.len() as int) =~= needle@);
        }
        return true;
    }
    let mut i: usize = 0;
    while i <= hlen - nlen
        invariant
            nlen == needle@.len(),
            hlen == hay@.len(),
            1 <= nlen <= hlen,
            i <= hlen - nlen + 1,
            forall|i2: int|
                0 <= i2 < i ==> #[trigger] hay@.subrange(i2, i2 + needle@.len()) != needle@,
        decreases hlen - i,
    {
        if matches_at(hay, needle, i, nlen) {
            proof {
                assert(hay@.subrange(i as int, i + needle@.len()) == needle@);
            }
            return true;
        }
        i = i + 1;
    }
    false
}

/// The characters counted as whitespace when tokenizing a message.
pub open spec fn is_space(c: char) -> bool {
    c == ' ' || c == '\t' || c == '\n' || c == '\r'
}

fn is_space_exec(c: char) -> (r: bool)
    ensures
        r == is_space(c),
{
    c == ' ' || c == '\t' || c == '\n' || c == '\r'
}

/// The length of the leading run of non-whitespace characters.
pub open spec fn token_len(s: Seq<char>) -> nat
    decreases s.len(),
{
    if s.len() == 0 || is_space(s[0]) {
        0
    } else {
        1 + token_len(s.drop_first())
    }
}

proof fn lemma_token_len_bound(s: Seq<char>)
    ensures
        token_len(s) <= s.len(),
    decreases s.len(),
{
    if s.len() > 0 && !is_space(s[0]) {
        lemma_token_len_bound(s.drop_first());
    }
}

/// The maximal non-whitespace runs of a text, in order, with the whitespace
/// between them removed.
pub open spec fn split_ws(s: Seq<char>) -> Seq<Seq<char>>
    decreases s.len() via split_ws_decreases
{
    if s.len() == 0 {
        seq![]
    } else if is_space(s[0]) {
        split_ws(s.drop_first())
    } else {
        seq![s.take(token_len(s) as int)] + split_ws(s.skip(token_len(s) as int))
    }
}

#[via_fn]
proof fn split_ws_decreases(s: Seq<char>) {
    lemma_token_len_bound(s);
}

proof fn lemma_token_len_skip(s: Seq<char>, i: int, j: int)
    requires
        0 <= i <= j <= s.len(),
        forall|k: int| i <= k < j ==> !is_space(s[k]),
        j == s.len() || is_space(s[j]),
    ensures
        token_len(s.skip(i)) == j - i,
    decreases j - i,
{
    if i == j {
        if j < s.len() {
            assert(s.skip(i)[0] == s[j]);
        }
    } else {
        assert(s.skip(i)[0] == s[i]);
        assert(s.skip(i).drop_first() =~= s.skip(i + 1));
        lemma_token_len_skip(s, i + 1, j);
    }
}

proof fn lemma_split_ws_space(s: Seq<char>, i: int)
    requires
        0 <= i < s.len(),
        is_space(s[i]),
    ensures
        split_ws(s.skip(i)) == split_ws(s.skip(i + 1)),
{
    assert(s.skip(i)[0] == s[i]);
    assert(s.skip(i).drop_first() =~= s.skip(i + 1));
}

proof fn lemma_split_ws_token(s: Seq<char>, i: int, j: int)
    requires
        0 <= i < j <= s.len(),
        forall|k: int| i <= k < j ==> !is_space(s[k]),
        j == s.len() || is_space(s[j]),
    ensures
        split_ws(s.skip(i)) == seq![s.subrange(i, j)] + split_ws(s.skip(j)),
{
    lemma_token_len_skip(s, i, j);
    assert(s.skip(i)[0] == s[i]);
    assert(s.skip(i).take(j - i) =~= s.subrange(i, j));
    assert(s.skip(i).skip(j - i) =~= s.skip(j));
}

/// Splits a text at whitespace into its non-empty tokens.
pub fn split_whitespace_chars(s: &Vec<char>) -> (r: Vec<Vec<char>>)
    ensures
        r@.map_values(|t: Vec<char>| t@) == split_ws(s@),
{
    let n: usize = s.len();
    let mut r: Vec<Vec<char>> = Vec::new();
    let mut i: usize = 0;
    proof {
        assert(s@.skip(0) =~= s@);
    }
    while i < n
        invariant
            n == s@.len(),
            i <= n,
            split_ws(s@) == r@.map_values(|t: Vec<char>| t@) + split_ws(s@.skip(i as int)),
        decreases n - i,
    {
        if is_space_exec(s[i]) {
            proof {
                lemma_split_ws_space(s@, i as int);
            }
            i = i + 1;
        } else {
            let start: usize = i;
            let mut tok: Vec<char> = Vec::new();
            while i < n && !is_space_exec(s[i])
                invariant
                    n == s@.len(),
                    start <= i <= n,
                    forall|k: int| start <= k < i ==> !is_space(s@[k]),
                    tok@ == s@.subrange(start as int, i as int),
                decreases n - i,
            {
                tok.push(s[i]);
                proof {
                    assert(tok@ =~= s@.subrange(start as int, i + 1));
                }
                i = i + 1;
            }
            proof {
                lemma_split_ws_token(s@, start as int, i as int);
                let f = |t: Vec<char>| t@;
                assert(r@.push(tok).map_values(f) =~= r@.map_values(f) + seq![tok@]);
                assert(r@.map_values(f) + seq![tok@] + split_ws(s@.skip(i as int)) =~= r@.map_values(
                    f,
                ) + (seq![tok@] + split_ws(s@.skip(i as int))));
            }
            r.push(tok);
        }
    }
    proof {
        assert(s@.skip(n as int) =~= Seq::<char>::empty());
        assert(r@.map_values(|t: Vec<char>| t@) + split_ws(s@.skip(n as int)) =~= r@.map_values(
            |t: Vec<char>| t@,
        ));
    }
    r
}

pub(crate) proof fn lemma_filter_push<A>(s: Seq<A>, x: A, pred: spec_fn(A) -> bool)
    ensures
        s.push(x).filter(pred) == if pred(x) {
            s.filter(pred).push(x)
        } else {
            s.filter(pred)
        },
{
    reveal(Seq::filter);
    assert(s.push(x).drop_last() =~= s);
}

pub(crate) proof fn lemma_filter_membership<A>(s: Seq<A>, pred: spec_fn(A) -> bool, x: A)
    ensures
        s.filter(pred).contains(x) <==> (s.contains(x) && pred(x)),
    decreases s.len(),
{
    reveal(Seq::filter);
    if s.len() > 0 {
        lemma_filter_membership(s.drop_last(), pred, x);
        if s.contains(x) && pred(x) {
            if x == s.last() {
                assert(s.filter(pred).last() == x);
            } else {
                let i = choose|i: int| 0 <= i < s.len() && s[i] == x;
                assert(s.drop_last()[i] == x);
            }
        }
        if s.filter(pred).contains(x) {
            if s.drop_last().contains(x) {
                let i = choose|i: int| 0 <= i < s.drop_last().len() && s.drop_last()[i] == x;
                assert(s[i] == x);
            }
        }
    }
}

/// A trimmed token: trailing commas and periods are removed.
pub open spec fn trim_trailing_punct(t: Seq<char>) -> Seq<char>
    decreases t.len(),
{
    if t.len() > 0 && (t.last() == ',' || t.last() == '.') {
        trim_trailing_punct(t.drop_last())
    } else {
        t
    }
}

/// Removes every trailing comma and period from a token.
pub fn trim_trailing_punct_exec(t: &Vec<char>) -> (r: Vec<char>)
    ensures
        r@ == trim_trailing_punct(t@),
{
    let mut end: usize = t.len();
    proof {
        assert(t@.take(end as int) =~= t@);
    }
    while end > 0 && (t[end - 1] == ',' || t[end - 1] == '.')
        invariant
            end <= t@.len(),
            trim_trailing_punct(t@) == trim_trailing_punct(t@.take(end as int)),
        decreases end,
    {
        proof {
            assert(t@.take(end as int).last() == t@[end - 1]);
            assert(t@.take(end as int).drop_last() =~= t@.take(end - 1));
        }
        end = end - 1;
    }
    let mut r: Vec<char> = Vec::new();
    let mut i: usize = 0;
    while i < end
        invariant
            end <= t@.len(),
            i <= end,
            r@ == t@.take(end as int).take(i as int),
        decreases end - i,
    {
        r.push(t[i]);
        proof {
            assert(t@.take(end as int).take(i + 1) =~= t@.take(end as int).take(i as int).push(
                t@[i as int],
            ));
        }
        i = i + 1;
    }
    proof {
        assert(t@.take(end as int).take(end as int) =~= t@.take(end as int));
        assert(trim_trailing_punct(t@.take(end as int)) == t@.take(end as int));
    }
    r
}

/// Whether the characters of `v` spell exactly the text `s`.
pub fn chars_eq_str(v: &Vec<char>, s: &str) -> (r: bool)
    ensures
        r == (v@ == s@),
{
    let n: usize = s.unicode_len();
    if v.len() != n {
        proof {
            assert(v@ != s@);
        }
        return false;
    }
    let mut i: usize = 0;
    while i < n
        invariant
            n == s@.len(),
            v@.len() == n,
            i <= n,
            forall|j: int| 0 <= j < i ==> v@[j] == s@[j],
        decreases n - i,
    {
        if v[i] != s.get_char(i) {
            return false;
        }
        i = i + 1;
    }
    proof {
        assert(v@ =~= s@);
    }
    true
}

/// Whether two texts hold exactly the same characters.
pub fn str_eq(a: &str, b: &str) -> (r: bool)
    ensures
        r == (a@ == b@),
{
    let n: usize = a.unicode_len();
    if b.unicode_len() != n {
        proof {
            assert(a@ != b@);
        }
        return false;
    }
    let mut i: usize = 0;
    while i < n
        invariant
            n == a@.len(),
            b@.len() == n,
            i <= n,
            forall|j: int| 0 <= j < i ==> a@[j] == b@[j],
        decreases n - i,
    {
        if a.get_char(i) != b.get_char(i) {
            return false;
        }
        i = i + 1;
    }
    proof {
        assert(a@ =~= b@);
    }
    true
}

/// Relies on `String::push`: it appends exactly the one character at the end
/// of the string.
#[verifier::external_body]
pub(crate) fn push_char(s: &mut String, c: char)
    ensures
        final(s)@ == old(s)@.push(c),
{
    s.push(c);
}

/// Builds the string whose characters are exactly those of `v`.
pub fn chars_to_string(v: &Vec<char>) -> (r: String)
    ensures
        r@ == v@,
{
    let mut r = String::new();
    let mut i: usize = 0;
    while i < v.len()
        invariant
            i <= v@.len(),
            r@ == v@.take(i as int),
        decreases v@.len() - i,
    {
        push_char(&mut r, v[i]);
        proof {
            assert(v@.take(i + 1) =~= v@.take(i as int).push(v@[i as int]));
        }
        i = i + 1;
    }
    proof {
        assert(v@.take(v@.len() as int) =~= v@);
    }
    r
}

} // verus!
