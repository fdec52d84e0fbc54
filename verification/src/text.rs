//! Text utilities the dispatch pipeline is built on: whitespace trimming,
//! substring scanning, ASCII case folding and word splitting.

use vstd::prelude::*;

verus! {

/// The whitespace characters recognised when trimming and splitting.
pub open spec fn is_ws(c: char) -> bool {
    c == ' ' || c == '\t' || c == '\n' || c == '\r'
}

/// Executable mirror of [`is_ws`].
pub fn is_ws_char(c: char) -> (r: bool)
    ensures
        r == is_ws(c),
{
    c == ' ' || c == '\t' || c == '\n' || c == '\r'
}

/// `s` with leading and trailing whitespace removed.
pub open spec fn trimmed(s: Seq<char>) -> Seq<char>
    decreases s.len(),
{
    if s.len() > 0 && is_ws(s[0]) {
        trimmed(s.drop_first())
    } else if s.len() > 0 && is_ws(s.last()) {
        trimmed(s.drop_last())
    } else {
        s
    }
}

/// A trimmed string neither begins nor ends in whitespace.
pub proof fn lemma_trimmed_no_edge_ws(s: Seq<char>)
    ensures
        trimmed(s).len() > 0 ==> !is_ws(trimmed(s)[0]),
        trimmed(s).len() > 0 ==> !is_ws(trimmed(s).last()),
    decreases s.len(),
{
    if s.len() > 0 && is_ws(s[0]) {
        lemma_trimmed_no_edge_ws(s.drop_first());
    } else if s.len() > 0 && is_ws(s.last()) {
        lemma_trimmed_no_edge_ws(s.drop_last());
    }
}

/// Removes leading and trailing whitespace.
pub fn trim(s: &str) -> (r: &str)
    ensures
        r@ == trimmed(s@),
    decreases s@.len(),
{
    let len = s.unicode_len();
    if len > 0 && is_ws_char(s.get_char(0)) {
        let rest = s.substring_char(1, len);
        assert(rest@ =~= s@.drop_first());
        trim(rest)
    } else if len > 0 && is_ws_char(s.get_char(len - 1)) {
        let rest = s.substring_char(0, len - 1);
        assert(rest@ =~= s@.drop_last());
        trim(rest)
    } else {
        assert(s@ == trimmed(s@));
        s
    }
}

/// `needle` occurs in `hay` starting at position `i`.
pub open spec fn matches_at(hay: Seq<char>, needle: Seq<char>, i: int) -> bool {
    0 <= i && i + needle.len() <= hay.len() && hay.subrange(i, i + needle.len()) == needle
}

/// `needle` occurs somewhere in `hay` as a contiguous substring.
pub open spec fn contains_seq(hay: Seq<char>, needle: Seq<char>) -> bool {
    exists|i: int| matches_at(hay, needle, i)
}

fn match_from(hay: &str, needle: &str, i: usize, j: usize) -> (r: bool)
    requires
        i + needle@.len() <= hay@.len(),
        j <= needle@.len(),
        forall|k: int| 0 <= k < j ==> hay@[i + k] == needle@[k],
    ensures
        r == matches_at(hay@, needle@, i as int),
    decreases needle@.len() - j,
{
    let hlen = hay.unicode_len();
    let nlen = needle.unicode_len();
    if j == nlen {
        assert(hay@.subrange(i as int, i + needle@.len()) =~= needle@);
        true
    } else if hay.get_char(i + j) == needle.get_char(j) {
        match_from(hay, needle, i, j + 1)
    } else {
        assert(hay@.subrange(i as int, i + needle@.len()) != needle@) by {
            if hay@.subrange(i as int, i + needle@.len()) == needle@ {
                assert(hay@.subrange(i as int, i + needle@.len())[j as int] == hay@[i + j]);
            }
        }
        false
    }
}

fn contains_from(hay: &str, needle: &str, i: usize) -> (r: bool)
    requires
        i <= hay@.len(),
    ensures
        r == exists|k: int| i <= k && matches_at(hay@, needle@, k),
    decreases hay@.len() - i,
{
    let hlen = hay.unicode_len();
    let nlen = needle.unicode_len();
    if nlen > hlen - i {
        assert(forall|k: int| i <= k ==> !matches_at(hay@, needle@, k));
        false
    } else if match_from(hay, needle, i, 0) {
        assert(matches_at(hay@, needle@, i as int));
        true
    } else {
        proof {
            if needle@.len() == 0 {
                assert(hay@.subrange(i as int, i as int) =~= needle@);
            }
        }
        let r = contains_from(hay, needle, i + 1);
        assert(r == exists|k: int| i <= k && matches_at(hay@, needle@, k)) by {
            if !r {
                assert(forall|k: int| i <= k && matches_at(hay@, needle@, k) ==> k == i || i + 1 <= k);
            }
        }
        r
    }
}

/// Whether `needle` occurs anywhere in `hay`.
pub fn contains_str(hay: &str, needle: &str) -> (r: bool)
    ensures
        r == contains_seq(hay@, needle@),
{
    let r = contains_from(hay, needle, 0);
    assert(r == contains_seq(hay@, needle@)) by {
        if r {
            let k = choose|k: int| 0 <= k && matches_at(hay@, needle@, k);
            assert(matches_at(hay@, needle@, k));
        }
        if contains_seq(hay@, needle@) {
            let k = choose|k: int| matches_at(hay@, needle@, k);
            assert(0 <= k && matches_at(hay@, needle@, k));
        }
    }
    r
}

/// A string contains any middle piece it was concatenated from.
pub proof fn lemma_contains_concat(a: Seq<char>, x: Seq<char>, b: Seq<char>)
    ensures
        contains_seq(a + x + b, x),
{
    let s = a + x + b;
    assert(s.subrange(a.len() as int, (a.len() + x.len()) as int) =~= x);
    assert(matches_at(s, x, a.len() as int));
}

/// ASCII case folding of a single character; other characters are untouched.
pub open spec fn lower_char(c: char) -> char {
    if 65 <= c as u32 && c as u32 <= 90 {
        (c as u32 + 32) as char
    } else {
        c
    }
}

/// ASCII case folding of a whole string.
pub open spec fn lower(s: Seq<char>) -> Seq<char> {
    Seq::new(s.len(), |i: int| lower_char(s[i]))
}

/// Executable mirror of [`lower_char`].
pub fn lower_char_exec(c: char) -> (r: char)
    ensures
        r == lower_char(c),
{
    let u = c as u32;
    if 65 <= u && u <= 90 {
        ((u + 32) as u8) as char
    } else {
        c
    }
}

fn eq_lower_from(a: &str, b: &str, j: usize) -> (r: bool)
    requires
        a@.len() == b@.len(),
        j <= a@.len(),
        forall|k: int| 0 <= k < j ==> lower_char(a@[k]) == lower_char(b@[k]),
    ensures
        r == (lower(a@) == lower(b@)),
    decreases a@.len() - j,
{
    let len = a.unicode_len();
    if j == len {
        assert(lower(a@) =~= lower(b@));
        true
    } else if lower_char_exec(a.get_char(j)) == lower_char_exec(b.get_char(j)) {
        eq_lower_from(a, b, j + 1)
    } else {
        assert(lower(a@) != lower(b@)) by {
            assert(lower(a@)[j as int] == lower_char(a@[j as int]));
            assert(lower(b@)[j as int] == lower_char(b@[j as int]));
        }
        false
    }
}

/// Whether two strings are equal up to ASCII case.
pub fn eq_ignore_case(a: &str, b: &str) -> (r: bool)
    ensures
        r == (lower(a@) == lower(b@)),
{
    let alen = a.unicode_len();
    let blen = b.unicode_len();
    if alen != blen {
        assert(lower(a@).len() != lower(b@).len());
        false
    } else {
        eq_lower_from(a, b, 0)
    }
}

/// Whether `s` begins with the character `c`.
pub fn starts_with_char(s: &str, c: char) -> (r: bool)
    ensures
        r == (s@.len() > 0 && s@[0] == c),
{
    let len = s.unicode_len();
    len > 0 && s.get_char(0) == c
}

/// Length of the run of whitespace at the start of `s`.
pub open spec fn ws_count(s: Seq<char>) -> nat
    decreases s.len(),
{
    if s.len() > 0 && is_ws(s[0]) {
        1 + ws_count(s.drop_first())
    } else {
        0
    }
}

/// Length of the run of non-whitespace at the start of `s`.
pub open spec fn word_len(s: Seq<char>) -> nat
    decreases s.len(),
{
    if s.len() > 0 && !is_ws(s[0]) {
        1 + word_len(s.drop_first())
    } else {
        0
    }
}

/// Characterisation of [`ws_count`]: it is the first non-whitespace position.
pub proof fn lemma_ws_count(s: Seq<char>)
    ensures
        ws_count(s) <= s.len(),
        forall|k: int| 0 <= k < ws_count(s) ==> is_ws(s[k]),
        ws_count(s) < s.len() ==> !is_ws(s[ws_count(s) as int]),
    decreases s.len(),
{
    if s.len() > 0 && is_ws(s[0]) {
        lemma_ws_count(s.drop_first());
        assert forall|k: int| 0 <= k < ws_count(s) implies is_ws(s[k]) by {
            if k > 0 {
                assert(s.drop_first()[k - 1] == s[k]);
                assert(is_ws(s.drop_first()[k - 1]));
            }
        }
        if ws_count(s) < s.len() {
            assert(s.drop_first()[ws_count(s.drop_first()) as int] == s[ws_count(s) as int]);
        }
    }
}

/// Characterisation of [`word_len`]: it is the first whitespace position.
pub proof fn lemma_word_len(s: Seq<char>)
    ensures
        word_len(s) <= s.len(),
        forall|k: int| 0 <= k < word_len(s) ==> !is_ws(s[k]),
        word_len(s) < s.len() ==> is_ws(s[word_len(s) as int]),
    decreases s.len(),
{
    if s.len() > 0 && !is_ws(s[0]) {
        lemma_word_len(s.drop_first());
        assert forall|k: int| 0 <= k < word_len(s) implies !is_ws(s[k]) by {
            if k > 0 {
                assert(s.drop_first()[k - 1] == s[k]);
                assert(!is_ws(s.drop_first()[k - 1]));
            }
        }
        if word_len(s) < s.len() {
            assert(s.drop_first()[word_len(s.drop_first()) as int] == s[word_len(s) as int]);
        }
    }
}

fn ws_count_from(s: &str, i: usize) -> (r: usize)
    requires
        i <= s@.len(),
    ensures
        r == ws_count(s@.skip(i as int)),
        i + r <= s@.len(),
    decreases s@.len() - i,
{
    let len = s.unicode_len();
    if i < len && is_ws_char(s.get_char(i)) {
        assert(s@.skip(i as int)[0] == s@[i as int]);
        let r = ws_count_from(s, i + 1);
        assert(s@.skip(i as int).drop_first() =~= s@.skip(i + 1));
        r + 1
    } else {
        assert(ws_count(s@.skip(i as int)) == 0) by {
            if i < len {
                assert(s@.skip(i as int)[0] == s@[i as int]);
            }
        }
        0
    }
}

fn word_len_from(s: &str, i: usize) -> (r: usize)
    requires
        i <= s@.len(),
    ensures
        r == word_len(s@.skip(i as int)),
        i + r <= s@.len(),
    decreases s@.len() - i,
{
    let len = s.unicode_len();
    if i < len && !is_ws_char(s.get_char(i)) {
        assert(s@.skip(i as int)[0] == s@[i as int]);
        let r = word_len_from(s, i + 1);
        assert(s@.skip(i as int).drop_first() =~= s@.skip(i + 1));
        r + 1
    } else {
        assert(word_len(s@.skip(i as int)) == 0) by {
            if i < len {
                assert(s@.skip(i as int)[0] == s@[i as int]);
            }
        }
        0
    }
}

/// Number of whitespace-separated words in `s`.
pub open spec fn word_count(s: Seq<char>) -> nat
    decreases s.len(),
    when s.len() >= ws_count(s) + word_len(s.skip(ws_count(s) as int))
{
    if ws_count(s) == s.len() {
        0
    } else {
        1 + word_count(s.skip(ws_count(s) + word_len(s.skip(ws_count(s) as int)) as int))
    }
}

proof fn lemma_word_count_bounds(s: Seq<char>)
    ensures
        ws_count(s) + word_len(s.skip(ws_count(s) as int)) <= s.len(),
        ws_count(s) < s.len() ==> word_len(s.skip(ws_count(s) as int)) >= 1,
{
    lemma_ws_count(s);
    let k = ws_count(s) as int;
    lemma_word_len(s.skip(k));
    if k < s.len() {
        assert(s.skip(k)[0] == s[k]);
    }
}

fn count_words_from(s: &str, i: usize) -> (r: usize)
    requires
        i <= s@.len(),
    ensures
        r == word_count(s@.skip(i as int)),
        r <= s@.len() - i,
    decreases s@.len() - i,
{
    let ghost tail = s@.skip(i as int);
    proof {
        lemma_word_count_bounds(tail);
    }
    let len = s.unicode_len();
    let k = ws_count_from(s, i);
    if i + k == len {
        assert(ws_count(tail) == tail.len());
        0
    } else {
        let w = word_len_from(s, i + k);
        assert(tail.skip(k as int) =~= s@.skip(i + k));
        let r = count_words_from(s, i + k + w);
        proof {
            assert(ws_count(tail) == k);
            assert(word_len(tail.skip(k as int)) == w);
            assert(tail.skip(k + w) =~= s@.skip(i + k + w));
            assert(ws_count(tail) != tail.len());
            lemma_word_count_bounds(s@.skip(i + k + w));
            assert(word_count(tail) == 1 + word_count(s@.skip(i + k + w)));
        }
        r + 1
    }
}

/// Counts the whitespace-separated words of `s`.
pub fn count_words(s: &str) -> (r: usize)
    ensures
        r == word_count(s@),
{
    let r = count_words_from(s, 0);
    assert(s@.skip(0) =~= s@);
    r
}

/// The first whitespace-separated word of `s` (empty if `s` is all whitespace).
pub open spec fn first_word(s: Seq<char>) -> Seq<char> {
    s.subrange(ws_count(s) as int, ws_count(s) + word_len(s.skip(ws_count(s) as int)) as int)
}

/// What follows the first word of `s` (raw, untrimmed).
pub open spec fn after_first_word(s: Seq<char>) -> Seq<char> {
    s.skip(ws_count(s) + word_len(s.skip(ws_count(s) as int)) as int)
}

/// Splits `s` into its first word and the trimmed remainder.
pub fn split_first_word(s: &str) -> (r: (&str, &str))
    ensures
        r.0@ == first_word(s@),
        r.1@ == trimmed(after_first_word(s@)),
{
    proof {
        lemma_word_count_bounds(s@);
    }
    let len = s.unicode_len();
    let k = ws_count_from(s, 0);
    assert(s@.skip(0) =~= s@);
    let w = word_len_from(s, k);
    let name = s.substring_char(k, k + w);
    let rest = s.substring_char(k + w, len);
    assert(name@ =~= first_word(s@));
    assert(rest@ =~= after_first_word(s@));
    (name, trim(rest))
}

/// Strips `prefix` from the front of `content`, comparing case-insensitively.
pub fn strip_prefix_ci<'a>(content: &'a str, prefix: &str) -> (r: Option<&'a str>)
    ensures
        match r {
            Some(rest) => {
                &&& prefix@.len() <= content@.len()
                &&& lower(content@.take(prefix@.len() as int)) == lower(prefix@)
                &&& rest@ == content@.skip(prefix@.len() as int)
            },
            None => !(prefix@.len() <= content@.len() && lower(
                content@.take(prefix@.len() as int),
            ) == lower(prefix@)),
        },
{
    let plen = prefix.unicode_len();
    let clen = content.unicode_len();
    if plen > clen {
        None
    } else {
        let head = content.substring_char(0, plen);
        assert(head@ =~= content@.take(plen as int));
        if eq_ignore_case(head, prefix) {
            Some(content.substring_char(plen, clen))
        } else {
            None
        }
    }
}

} // verus!
