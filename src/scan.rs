use crate::text::{eq_ignore_ascii_case, lower_seq, text_of};
use vstd::prelude::*;

verus! {

/// The first index at or after `j` that holds `c`.
pub open spec fn char_from(s: Seq<char>, c: char, j: int) -> Option<int>
    decreases s.len() - j,
{
    if j < 0 || j >= s.len() {
        None
    } else if s[j] == c {
        Some(j)
    } else {
        char_from(s, c, j + 1)
    }
}

/// A found index lies at or after the start, inside the text, and holds the character.
pub proof fn lemma_char_from(s: Seq<char>, c: char, j: int)
    ensures
        char_from(s, c, j) matches Some(k) ==> j <= k < s.len() && s[k] == c,
    decreases s.len() - j,
{
    if 0 <= j < s.len() && s[j] != c {
        lemma_char_from(s, c, j + 1);
    }
}

/// The space-separated words of `s` from index `j` on; empty words are skipped.
pub open spec fn words_from(s: Seq<char>, j: int) -> Seq<Seq<char>>
    decreases s.len() - j,
{
    if j < 0 || j >= s.len() {
        seq![]
    } else {
        match char_from(s, ' ', j) {
            None => seq![s.subrange(j, s.len() as int)],
            Some(k) => if j < k < s.len() {
                seq![s.subrange(j, k)] + words_from(s, k + 1)
            } else {
                words_from(s, j + 1)
            },
        }
    }
}

/// The space-separated words of `s`.
pub open spec fn words(s: Seq<char>) -> Seq<Seq<char>> {
    words_from(s, 0)
}

/// The value of the first header, from index `i` on, whose name equals `name` up to ASCII case.
pub open spec fn header_from(hs: Seq<(String, String)>, name: Seq<char>, i: int) -> Option<
    Seq<char>,
>
    decreases hs.len() - i,
{
    if i < 0 || i >= hs.len() {
        None
    } else if lower_seq(hs[i].0@) == lower_seq(name) {
        Some(hs[i].1@)
    } else {
        header_from(hs, name, i + 1)
    }
}

/// The value of the first header whose name equals `name` up to ASCII case.
pub open spec fn header_value(hs: Seq<(String, String)>, name: Seq<char>) -> Option<Seq<char>> {
    header_from(hs, name, 0)
}

/// The views of a list of texts.
pub open spec fn views(v: Seq<String>) -> Seq<Seq<char>> {
    v.map_values(|t: String| t@)
}

/// The first index at or after `j` of `s` that holds `c`.
pub fn char_index(s: &Vec<char>, c: char, j: usize) -> (r: Option<usize>)
    requires
        j <= s@.len(),
    ensures
        match r {
            Some(k) => char_from(s@, c, j as int) == Some(k as int),
            None => char_from(s@, c, j as int) is None,
        },
{
    let mut k: usize = j;
    while k < s.len()
        invariant
            j <= k <= s@.len(),
            char_from(s@, c, j as int) == char_from(s@, c, k as int),
        decreases s@.len() - k,
    {
        if s[k] == c {
            return Some(k);
        }
        k = k + 1;
    }
    None
}

/// The characters of `s` from `a` up to `b`.
pub fn slice_chars(s: &Vec<char>, a: usize, b: usize) -> (r: Vec<char>)
    requires
        a <= b <= s@.len(),
    ensures
        r@ == s@.subrange(a as int, b as int),
{
    let mut r: Vec<char> = Vec::new();
    let mut k: usize = a;
    while k < b
        invariant
            a <= k <= b <= s@.len(),
            r@ == s@.subrange(a as int, k as int),
        decreases b - k,
    {
        r.push(s[k]);
        assert(r@ =~= s@.subrange(a as int, k + 1));
        k = k + 1;
    }
    r
}

/// Splits `s` into its space-separated words, skipping empty ones.
pub fn split_words(s: &Vec<char>) -> (r: Vec<String>)
    ensures
        views(r@) == words(s@),
{
    let mut r: Vec<String> = Vec::new();
    let mut j: usize = 0;
    while j < s.len()
        invariant
            j <= s@.len(),
            views(r@) + words_from(s@, j as int) == words(s@),
        decreases s@.len() - j,
    {
        let found = char_index(s, ' ', j);
        proof {
            lemma_char_from(s@, ' ', j as int);
        }
        match found {
            None => {
                let w = text_of(&slice_chars(s, j, s.len()));
                let ghost before = r@;
                r.push(w);
                assert(views(r@) =~= views(before) + seq![s@.subrange(j as int, s@.len() as int)]);
                assert(words_from(s@, s@.len() as int) =~= seq![]);
                j = s.len();
            },
            Some(k) => {
                if k > j {
                    let w = text_of(&slice_chars(s, j, k));
                    let ghost before = r@;
                    r.push(w);
                    assert(views(r@) =~= views(before) + seq![s@.subrange(j as int, k as int)]);
                    assert(views(r@) + words_from(s@, k + 1) =~= views(before) + (seq![
                        s@.subrange(j as int, k as int),
                    ] + words_from(s@, k + 1)));
                }
                j = k + 1;
            },
        }
    }
    assert(words_from(s@, j as int) =~= seq![]);
    assert(views(r@) =~= views(r@) + words_from(s@, j as int));
    r
}

/// The value of the first header whose name equals `name` up to ASCII case.
pub fn header_lookup(hs: &Vec<(String, String)>, name: &str) -> (r: Option<String>)
    ensures
        match r {
            Some(v) => header_value(hs@, name@) == Some(v@),
            None => header_value(hs@, name@) is None,
        },
{
    let mut i: usize = 0;
    while i < hs.len()
        invariant
            i <= hs@.len(),
            header_value(hs@, name@) == header_from(hs@, name@, i as int),
        decreases hs@.len() - i,
    {
        if eq_ignore_ascii_case(hs[i].0.as_str(), name) {
            return Some(hs[i].1.clone());
        }
        i = i + 1;
    }
    None
}

} // verus!
